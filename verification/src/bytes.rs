//! Byte strings: appending, and numbers written highest byte first.

use vstd::arithmetic::power2::pow2;
use vstd::prelude::*;

verus! {

/// The lowest `count` bytes of `value`, highest byte first.
pub open spec fn be_bytes(value: nat, count: nat) -> Seq<u8> {
    Seq::new(count, |k: int| ((value / pow2((8 * (count - 1 - k)) as nat)) % 256) as u8)
}

/// Appends `src` to `dst`.
pub fn append_bytes(dst: &mut Vec<u8>, src: &[u8])
    ensures
        final(dst)@ == old(dst)@ + src@,
{
    let mut i: usize = 0;
    while i < src.len()
        invariant
            i <= src@.len(),
            dst@ == old(dst)@ + src@.take(i as int),
        decreases src@.len() - i,
    {
        dst.push(src[i]);
        assert(dst@ =~= old(dst)@ + src@.take(i + 1));
        i += 1;
    }
    assert(src@.take(src@.len() as int) =~= src@);
}

/// Writes the lowest `count` bytes of `value`, highest byte first.
pub fn to_be_bytes(value: u128, count: usize) -> (bytes: Vec<u8>)
    requires
        count <= 16,
    ensures
        bytes@ == be_bytes(value as nat, count as nat),
        bytes@.len() == count,
{
    let mut bytes: Vec<u8> = Vec::new();
    let mut k: usize = 0;
    while k < count
        invariant
            k <= count <= 16,
            bytes@ == be_bytes(value as nat, count as nat).take(k as int),
        decreases count - k,
    {
        let shift: u128 = (8 * (count - 1 - k)) as u128;
        let shifted: u128 = value >> shift;
        proof {
            vstd::bits::lemma_u128_shr_is_div(value, shift);
            assert((shifted & 0xff) == shifted % 256) by (bit_vector);
        }
        bytes.push((shifted & 0xff) as u8);
        assert(bytes@ =~= be_bytes(value as nat, count as nat).take(k + 1));
        k += 1;
    }
    assert(bytes@ =~= be_bytes(value as nat, count as nat));
    bytes
}

} // verus!
