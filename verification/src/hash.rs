//! Fixed-width digests and the SHA3-512 primitive.

use sha3::Digest;
use sha3::Sha3_512;
use vstd::prelude::*;

verus! {

/// A 160-bit value, held as 20 raw bytes.
#[derive(Clone, Copy, Debug, PartialEq, Eq)]
pub struct H160(pub [u8; 20]);

/// A 256-bit value, held as 32 raw bytes.
#[derive(Clone, Copy, Debug, PartialEq, Eq)]
pub struct H256(pub [u8; 32]);

/// A 512-bit value, held as 64 raw bytes.
#[derive(Clone, Copy, Debug, PartialEq, Eq)]
pub struct H512(pub [u8; 64]);

impl View for H160 {
    type V = Seq<u8>;

    open spec fn view(&self) -> Seq<u8> {
        self.0@
    }
}

impl View for H256 {
    type V = Seq<u8>;

    open spec fn view(&self) -> Seq<u8> {
        self.0@
    }
}

impl View for H512 {
    type V = Seq<u8>;

    open spec fn view(&self) -> Seq<u8> {
        self.0@
    }
}

impl H160 {
    /// The 20 bytes of the value.
    pub fn as_bytes(&self) -> (bytes: &[u8])
        ensures
            bytes@ == self@,
            bytes@.len() == 20,
    {
        self.0.as_slice()
    }
}

impl H256 {
    /// The 32 bytes of the value.
    pub fn as_bytes(&self) -> (bytes: &[u8])
        ensures
            bytes@ == self@,
            bytes@.len() == 32,
    {
        self.0.as_slice()
    }
}

impl H512 {
    /// The 64 bytes of the value.
    pub fn as_bytes(&self) -> (bytes: &[u8])
        ensures
            bytes@ == self@,
            bytes@.len() == 64,
    {
        self.0.as_slice()
    }

    /// Compares two values byte by byte without stopping at the first
    /// difference, so the running time does not depend on where they differ.
    pub fn ct_eq(&self, other: &H512) -> (same: bool)
        ensures
            same == (self@ == other@),
    {
        let mut diff: u8 = 0;
        let mut i: usize = 0;
        while i < 64
            invariant
                i <= 64,
                (diff == 0) == (forall|j: int| 0 <= j < i ==> self@[j] == other@[j]),
            decreases 64 - i,
        {
            let x: u8 = self.0[i];
            let y: u8 = other.0[i];
            let prev: u8 = diff;
            diff = diff | (x ^ y);
            assert((prev | (x ^ y)) == 0 <==> (prev == 0 && x == y)) by (bit_vector);
            assert(x == self@[i as int] && y == other@[i as int]);
            i += 1;
            assert((diff == 0) ==> (forall|j: int| 0 <= j < i ==> self@[j] == other@[j])) by {
                if diff == 0 {
                    assert forall|j: int| 0 <= j < i implies self@[j] == other@[j] by {
                        if j < i - 1 {
                        }
                    }
                }
            }
        }
        assert(diff == 0 ==> self@ =~= other@);
        diff == 0
    }
}

/// The SHA3-512 digest of a byte string: 64 bytes that depend on the input
/// alone.
pub uninterp spec fn sha3_512_digest(data: Seq<u8>) -> Seq<u8>;

/// Hashes `data` with `sha3::Sha3_512::digest`.
///
/// Trusted: the 64 bytes returned are the SHA3-512 digest of `data`, which
/// [`sha3_512_digest`] names. Nothing else is claimed of them.
#[verifier::external_body]
pub(crate) fn sha3_512(data: &[u8]) -> (digest: H512)
    ensures
        digest@ == sha3_512_digest(data@),
{
    H512(Sha3_512::digest(data).into())
}

} // verus!
