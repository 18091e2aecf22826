//! Photonic text encoding, temporal keys, time-window proofs and the output
//! verification gate.

use crate::bytes::{append_bytes, be_bytes, to_be_bytes};
use crate::hash::{sha3_512, sha3_512_digest, H256, H512};
use crate::ldd::{sin_milli, sine_milli, LddComponents};
use vstd::arithmetic::power2::pow2;
use vstd::prelude::*;
use vstd::slice::slice_to_vec;

verus! {

/// Longest text, in bytes, that the photonic encoder accepts.
pub const MAX_TEXT_LEN: usize = 1024;

/// Number of steps into which the hue circle is divided.
pub const HUE_STEPS: u64 = 38;

/// Saturation of every photonic colour, in percent.
pub const SATURATION: u8 = 100;

/// Lightness of every photonic colour, in percent.
pub const LIGHTNESS: u8 = 70;

/// Why a request was turned down.
#[derive(Clone, Copy, Debug, PartialEq, Eq, Structural)]
pub enum Error {
    /// The text or phrase has no bytes.
    EmptyInput,
    /// The text holds a byte outside the alphabet, or is longer than
    /// [`MAX_TEXT_LEN`], so it has no photonic encoding.
    InvalidCharacter,
    /// The claimed timestamp lies outside the tolerance window.
    InvalidTimestamp,
    /// The claimed proof is not the one that the key yields.
    VerificationFailed,
}

/// A colour in hue, saturation and lightness.
#[derive(Clone, Copy, Debug, PartialEq, Eq, Structural)]
pub struct PhotonicColor {
    /// Hue in degrees, below 360.
    pub hue: u16,
    /// Saturation in percent.
    pub saturation: u8,
    /// Lightness in percent.
    pub lightness: u8,
}

/// A text together with its colour and its bit string.
#[derive(Clone, Debug, PartialEq, Eq)]
pub struct PhotonicData {
    /// The text as it was given.
    pub text: Vec<u8>,
    /// The colour of the text.
    pub color: PhotonicColor,
    /// Six ASCII digits `0` or `1` for each byte of the text.
    pub binary: Vec<u8>,
}

/// Position of a byte in the alphabet `A`..`Z`, `0`..`9`, space, counted
/// from zero; `None` for any other byte.
pub open spec fn alphabet_index(b: u8) -> Option<nat> {
    if 0x41 <= b <= 0x5a {
        Some((b - 0x41) as nat)
    } else if 0x30 <= b <= 0x39 {
        Some((26 + b - 0x30) as nat)
    } else if b == 0x20 {
        Some(36nat)
    } else {
        None
    }
}

/// The alphabet position of a byte, and zero for a byte outside the alphabet.
pub open spec fn symbol_value(b: u8) -> nat {
    match alphabet_index(b) {
        Some(i) => i,
        None => 0,
    }
}

/// A text that the encoder accepts: between one and [`MAX_TEXT_LEN`] bytes,
/// each of them in the alphabet.
pub open spec fn valid_text(text: Seq<u8>) -> bool {
    &&& 0 < text.len() <= MAX_TEXT_LEN
    &&& forall|i: int| 0 <= i < text.len() ==> alphabet_index(#[trigger] text[i]) is Some
}

/// The error with which the encoder turns down a text that is not valid.
pub open spec fn encoding_error(text: Seq<u8>) -> Error {
    if text.len() == 0 {
        Error::EmptyInput
    } else {
        Error::InvalidCharacter
    }
}

/// Sum of the alphabet positions of all bytes of a text.
pub open spec fn index_sum(text: Seq<u8>) -> nat
    decreases text.len(),
{
    if text.len() == 0 {
        0
    } else {
        index_sum(text.drop_last()) + symbol_value(text.last())
    }
}

/// Hue of a text: 360 times its average alphabet position, over
/// [`HUE_STEPS`], rounded down.
pub open spec fn text_hue(text: Seq<u8>) -> nat
    recommends
        text.len() > 0,
{
    (360 * index_sum(text)) / (HUE_STEPS as nat * text.len())
}

/// ASCII digit for bit `i` of `value`, where bit 0 is the lowest.
pub open spec fn bit_char(value: nat, i: nat) -> u8 {
    if (value / pow2(i)) % 2 == 1 {
        0x31
    } else {
        0x30
    }
}

/// The lowest `bits` bits of `value` as ASCII digits, highest bit first.
pub open spec fn binary_digits(value: nat, bits: nat) -> Seq<u8> {
    Seq::new(bits, |k: int| bit_char(value, (bits - 1 - k) as nat))
}

/// Bit string of a text: for each byte, in order, its alphabet position in
/// six binary digits.
pub open spec fn photonic_binary(text: Seq<u8>) -> Seq<u8> {
    Seq::new(
        6 * text.len(),
        |j: int| bit_char(symbol_value(text[j / 6]), (5 - j % 6) as nat),
    )
}

/// A string made of the ASCII digits `0` and `1` alone.
pub open spec fn is_bit_string(s: Seq<u8>) -> bool {
    forall|i: int| 0 <= i < s.len() ==> #[trigger] s[i] == 0x30 || s[i] == 0x31
}

/// Hours, minutes and seconds of the day of a timestamp, in five, six and
/// six binary digits.
pub open spec fn time_bits(timestamp: u64) -> Seq<u8> {
    binary_digits(((timestamp / 3600) % 24) as nat, 5) + binary_digits(
        ((timestamp / 60) % 60) as nat,
        6,
    ) + binary_digits((timestamp % 60) as nat, 6)
}

/// Sum of the bytes of a string.
pub open spec fn byte_sum(bytes: Seq<u8>) -> nat
    decreases bytes.len(),
{
    if bytes.len() == 0 {
        0
    } else {
        byte_sum(bytes.drop_last()) + bytes.last() as nat
    }
}

/// Stability of a key: 1000 at the start of a day, falling by one for each
/// tenth of the day that has passed.
pub open spec fn key_stability(timestamp: u64) -> nat {
    (1000 - ((timestamp % 86400) * 10) / 86400) as nat
}

/// Resonance of a key: 1000 plus a twentieth of the sine of the position of
/// `timestamp` in its cycle of 1000 seconds.
pub open spec fn key_resonance(timestamp: u64) -> nat {
    ((20_000 + sine_milli(((timestamp % 1000) * 6283 / 1000) as int)) / 20) as nat
}

/// Entropy of a key: the sum of its bytes, mapped linearly from the range
/// that 64 bytes can reach onto 500 to 1000.
pub open spec fn key_entropy(key: Seq<u8>) -> nat {
    500 + (byte_sum(key) * 500) / 16320
}

/// Coupling of a key: its first byte, scaled from 0..255 to 0..1000.
pub open spec fn key_coupling(key: Seq<u8>) -> nat
    recommends
        key.len() >= 1,
{
    (key[0] as nat * 1000) / 255
}

/// Diffusion of a key: the position of `timestamp` in its hour times the
/// second byte of the key, both scaled to 0..1000, plus a floor of 10.
pub open spec fn key_diffusion(timestamp: u64, key: Seq<u8>) -> nat
    recommends
        key.len() >= 2,
{
    ((((timestamp % 3600) * 1000) / 3600) as nat * ((key[1] as nat * 1000) / 255)) / 1000 + 10
}

/// The five factors by which a base key is enhanced.
pub open spec fn key_components(timestamp: u64, key: Seq<u8>) -> LddComponents
    recommends
        key.len() == 64,
{
    LddComponents {
        stability: key_stability(timestamp) as u32,
        resonance: key_resonance(timestamp) as u32,
        entropy: key_entropy(key) as u32,
        coupling: key_coupling(key) as u32,
        diffusion: key_diffusion(timestamp, key) as u32,
    }
}

/// The product of the five factors as sixteen bytes, highest byte first.
pub open spec fn psi_bytes(psi: nat) -> Seq<u8> {
    be_bytes(psi, 16)
}

/// The message from which a key is derived: the time bits followed by the
/// bit string of the phrase.
pub open spec fn key_message(timestamp: u64, phrase: Seq<u8>) -> Seq<u8> {
    time_bits(timestamp) + photonic_binary(phrase)
}

/// The key before enhancement: the digest of the key message.
pub open spec fn base_key(timestamp: u64, phrase: Seq<u8>) -> Seq<u8> {
    sha3_512_digest(key_message(timestamp, phrase))
}

/// The enhanced key: the digest of the product of the five factors, as
/// sixteen bytes, followed by the base key.
pub open spec fn enhanced_key(timestamp: u64, base: Seq<u8>) -> Seq<u8> {
    sha3_512_digest(psi_bytes(key_components(timestamp, base).psi_value()) + base)
}

/// The temporal key of a timestamp, in seconds, and a valid phrase.
pub open spec fn temporal_key(timestamp: u64, phrase: Seq<u8>) -> Seq<u8> {
    enhanced_key(timestamp, base_key(timestamp, phrase))
}

/// The proof that a node must present for an output under a key: the digest
/// of the output hash followed by the key.
pub open spec fn expected_proof(temporal_key: Seq<u8>, output_hash: Seq<u8>) -> Seq<u8> {
    sha3_512_digest(output_hash + temporal_key)
}

/// What the output gate returns for a key, an output hash and a claimed
/// proof: the digest of the claimed proof where it is the expected one, and
/// `VerificationFailed` otherwise.
pub open spec fn is_gate_outcome(
    temporal_key: Seq<u8>,
    output_hash: Seq<u8>,
    claimed_proof: Seq<u8>,
    result: Result<H512, Error>,
) -> bool {
    match result {
        Ok(audit_hash) => {
            &&& claimed_proof == expected_proof(temporal_key, output_hash)
            &&& audit_hash@ == sha3_512_digest(claimed_proof)
        },
        Err(e) => {
            &&& claimed_proof != expected_proof(temporal_key, output_hash)
            &&& e == Error::VerificationFailed
        },
    }
}

/// A timestamp no further than `window` from `reference_time`.
pub open spec fn in_window(timestamp: u64, reference_time: u64, window: u64) -> bool {
    reference_time - window <= timestamp <= reference_time + window
}

/// What [`Pallet::compute_temporal_key`] returns for a timestamp and a
/// phrase.
pub open spec fn is_temporal_key_of(
    timestamp: u64,
    phrase: Seq<u8>,
    result: Result<H512, Error>,
) -> bool {
    match result {
        Ok(key) => valid_text(phrase) && key@ == temporal_key(timestamp, phrase),
        Err(e) => !valid_text(phrase) && e == encoding_error(phrase),
    }
}

impl PhotonicData {
    /// An encoding is well formed when its text is valid and its colour and
    /// bit string are those of the text.
    pub open spec fn wf(&self) -> bool {
        &&& valid_text(self.text@)
        &&& self.color == (PhotonicColor {
            hue: text_hue(self.text@) as u16,
            saturation: SATURATION,
            lightness: LIGHTNESS,
        })
        &&& self.binary@ == photonic_binary(self.text@)
    }
}

/// Adding a byte to a string adds it to the sum of the bytes.
proof fn lemma_byte_sum_step(bytes: Seq<u8>, i: int)
    requires
        0 <= i < bytes.len(),
    ensures
        byte_sum(bytes.take(i + 1)) == byte_sum(bytes.take(i)) + bytes[i] as nat,
{
    assert(bytes.take(i + 1).drop_last() =~= bytes.take(i));
}

/// Adding a byte to a text adds its alphabet position to the sum.
proof fn lemma_index_sum_step(text: Seq<u8>, i: int)
    requires
        0 <= i < text.len(),
    ensures
        index_sum(text.take(i + 1)) == index_sum(text.take(i)) + symbol_value(text[i]),
{
    assert(text.take(i + 1).drop_last() =~= text.take(i));
}

/// The hue of a text stays below 342 degrees.
proof fn lemma_hue_bound(sum: nat, len: nat)
    requires
        len > 0,
        sum <= 36 * len,
    ensures
        (360 * sum) / (38 * len) <= 341,
{
    assert((360 * sum) / (38 * len) <= 341) by (nonlinear_arith)
        requires
            len > 0,
            sum <= 36 * len,
    {
        assert(360 * sum <= 12960 * len);
        assert(12960 * len < 342 * (38 * len));
        assert(360 * sum < 342 * (38 * len));
        if (360 * sum) / (38 * len) >= 342 {
            assert(((360 * sum) / (38 * len)) * (38 * len) <= 360 * sum) by {
                assert((360 * sum) == (38 * len) * ((360 * sum) / (38 * len)) + (360 * sum) % (38
                    * len));
            }
            assert(342 * (38 * len) <= ((360 * sum) / (38 * len)) * (38 * len));
        }
    }
}

/// Alphabet position of a byte.
pub fn symbol_index(b: u8) -> (index: Option<u8>)
    ensures
        match index {
            Some(i) => alphabet_index(b) == Some(i as nat),
            None => alphabet_index(b) is None,
        },
{
    if 0x41 <= b && b <= 0x5a {
        Some(b - 0x41)
    } else if 0x30 <= b && b <= 0x39 {
        Some(b - 0x30 + 26)
    } else if b == 0x20 {
        Some(36)
    } else {
        None
    }
}

/// Computes the five factors by which the base key `base` is enhanced at
/// `timestamp`.
pub fn key_enhancement(timestamp: u64, base: &H512) -> (factors: LddComponents)
    ensures
        factors == key_components(timestamp, base@),
        991 <= factors.stability <= 1000,
        950 <= factors.resonance <= 1050,
        500 <= factors.entropy <= 1000,
        factors.coupling <= 1000,
        10 <= factors.diffusion <= 1009,
{
    let stability: u64 = 1000 - ((timestamp % 86400) * 10) / 86400;

    let angle: u64 = (timestamp % 1000) * 6283 / 1000;
    let wave: i64 = sin_milli(angle);
    let resonance: i64 = (20_000 + wave) / 20;

    let mut sum: u64 = 0;
    let mut i: usize = 0;
    while i < 64
        invariant
            i <= 64,
            sum == byte_sum(base@.take(i as int)),
            sum <= 255 * i,
        decreases 64 - i,
    {
        proof {
            lemma_byte_sum_step(base@, i as int);
        }
        sum += base.0[i] as u64;
        i += 1;
    }
    assert(base@.take(64) =~= base@);
    let entropy: u64 = 500 + (sum * 500) / 16320;

    let coupling: u64 = (base.0[0] as u64 * 1000) / 255;

    let hour_part: u64 = ((timestamp % 3600) * 1000) / 3600;
    let byte_part: u64 = (base.0[1] as u64 * 1000) / 255;
    assert(hour_part * byte_part <= 999_000) by (nonlinear_arith)
        requires
            hour_part <= 999,
            byte_part <= 1000,
    ;
    let spread: u64 = hour_part * byte_part;
    let diffusion: u64 = spread / 1000 + 10;

    LddComponents {
        stability: stability as u32,
        resonance: resonance as u32,
        entropy: entropy as u32,
        coupling: coupling as u32,
        diffusion: diffusion as u32,
    }
}

/// Writes the product of the five factors as sixteen bytes, highest byte
/// first.
pub fn psi_to_bytes(psi: u128) -> (bytes: Vec<u8>)
    ensures
        bytes@ == psi_bytes(psi as nat),
        bytes@.len() == 16,
{
    to_be_bytes(psi, 16)
}

/// Enhances a base key: hashes the product of its five factors, as sixteen
/// bytes, followed by the base key itself.
pub fn enhance_key(timestamp: u64, base: &H512) -> (key: H512)
    ensures
        key@ == enhanced_key(timestamp, base@),
{
    let factors = key_enhancement(timestamp, base);
    let mut message = psi_to_bytes(factors.psi());
    append_bytes(&mut message, base.as_bytes());
    sha3_512(message.as_slice())
}

/// A timestamp that was shown to lie in the window, with the key and the
/// phrase hash that belong to it.
#[derive(Clone, Debug, PartialEq, Eq)]
pub struct TemporalProof<Moment> {
    /// The timestamp that the key was derived for.
    pub timestamp: Moment,
    /// The temporal key of the timestamp and the phrase.
    pub temporal_key: H512,
    /// The digest of the phrase.
    pub phrase_hash: H512,
}

/// Two calls with the same timestamp and phrase give the same key, byte for
/// byte, or fail with the same error.
pub proof fn lemma_temporal_key_deterministic(
    timestamp: u64,
    phrase: Seq<u8>,
    first: Result<H512, Error>,
    second: Result<H512, Error>,
)
    requires
        is_temporal_key_of(timestamp, phrase, first),
        is_temporal_key_of(timestamp, phrase, second),
    ensures
        first == second,
{
    if let Ok(a) = first {
        if let Ok(b) = second {
            assert(a.0@ == b.0@);
            assert(a.0 =~= b.0);
        }
    }
}

/// The output gate turns down every claimed proof that differs from the
/// expected proof in one bit.
pub proof fn lemma_flipped_bit_is_rejected(
    temporal_key: Seq<u8>,
    output_hash: Seq<u8>,
    position: int,
    bit: u8,
    result: Result<H512, Error>,
)
    requires
        0 <= position < expected_proof(temporal_key, output_hash).len(),
        bit < 8,
        is_gate_outcome(
            temporal_key,
            output_hash,
            expected_proof(temporal_key, output_hash).update(
                position,
                expected_proof(temporal_key, output_hash)[position] ^ (1u8 << bit),
            ),
            result,
        ),
    ensures
        result == Err::<H512, Error>(Error::VerificationFailed),
{
    let expected = expected_proof(temporal_key, output_hash);
    let byte = expected[position];
    assert(byte ^ (1u8 << bit) != byte) by (bit_vector)
        requires
            bit < 8,
    ;
    assert(expected.update(position, byte ^ (1u8 << bit))[position] != expected[position]);
}

/// The output gate accepts the expected proof.
pub proof fn lemma_expected_proof_is_accepted(
    temporal_key: Seq<u8>,
    output_hash: Seq<u8>,
    result: Result<H512, Error>,
)
    requires
        is_gate_outcome(
            temporal_key,
            output_hash,
            expected_proof(temporal_key, output_hash),
            result,
        ),
    ensures
        result is Ok,
        result->Ok_0@ == sha3_512_digest(expected_proof(temporal_key, output_hash)),
{
}

/// The anchor type of the temporal functions.
pub struct Pallet;

impl Pallet {
    /// Writes the lowest `bits` bits of `value` as ASCII digits, highest bit
    /// first.
    pub fn u64_to_binary(value: u64, bits: usize) -> (binary: Vec<u8>)
        requires
            bits <= 64,
        ensures
            binary@ == binary_digits(value as nat, bits as nat),
            is_bit_string(binary@),
    {
        let mut binary: Vec<u8> = Vec::new();
        let mut k: usize = 0;
        while k < bits
            invariant
                k <= bits <= 64,
                binary@ == binary_digits(value as nat, bits as nat).take(k as int),
            decreases bits - k,
        {
            let shift: u64 = (bits - 1 - k) as u64;
            let shifted: u64 = value >> shift;
            proof {
                vstd::bits::lemma_u64_shr_is_div(value, shift);
                assert((shifted & 1) == shifted % 2) by (bit_vector);
            }
            binary.push(if shifted & 1 == 1 { 0x31 } else { 0x30 });
            assert(binary@ =~= binary_digits(value as nat, bits as nat).take(k + 1));
            k += 1;
        }
        assert(binary@ =~= binary_digits(value as nat, bits as nat));
        binary
    }

    /// Encodes the time of day of `timestamp`, in seconds, as seventeen
    /// binary digits: five for the hour, six for the minute, six for the
    /// second.
    pub fn timestamp_to_binary(timestamp: u64) -> (binary: Vec<u8>)
        ensures
            binary@ == time_bits(timestamp),
            binary@.len() == 17,
            is_bit_string(binary@),
    {
        let hours: u64 = (timestamp / 3600) % 24;
        let minutes: u64 = (timestamp / 60) % 60;
        let seconds: u64 = timestamp % 60;

        let mut binary: Vec<u8> = Vec::new();
        let h = Self::u64_to_binary(hours, 5);
        let m = Self::u64_to_binary(minutes, 6);
        let s = Self::u64_to_binary(seconds, 6);
        append_bytes(&mut binary, h.as_slice());
        append_bytes(&mut binary, m.as_slice());
        append_bytes(&mut binary, s.as_slice());
        assert(binary@ =~= time_bits(timestamp));
        binary
    }

    /// Encodes a text over the alphabet `A`..`Z`, `0`..`9`, space.
    ///
    /// The hue is 360 times the average alphabet position over
    /// [`HUE_STEPS`], rounded down; saturation and lightness are fixed. The
    /// bit string holds six binary digits for each byte. An empty text is
    /// turned down with `EmptyInput`, any other text that is not valid with
    /// `InvalidCharacter`.
    pub fn luxbin_encode(text: &[u8]) -> (result: Result<PhotonicData, Error>)
        ensures
            result is Ok <==> valid_text(text@),
            match result {
                Ok(data) => {
                    &&& data.wf()
                    &&& data.text@ == text@
                    &&& data.color.hue == text_hue(text@)
                    &&& data.color.hue < 360
                    &&& data.color.saturation == SATURATION
                    &&& data.color.lightness == LIGHTNESS
                    &&& data.binary@ == photonic_binary(text@)
                    &&& data.binary@.len() == 6 * text@.len()
                    &&& is_bit_string(data.binary@)
                },
                Err(e) => e == encoding_error(text@),
            },
    {
        let n: usize = text.len();
        if n == 0 {
            return Err(Error::EmptyInput);
        }
        if n > MAX_TEXT_LEN {
            return Err(Error::InvalidCharacter);
        }
        let mut total_pos: u64 = 0;
        let mut binary_vec: Vec<u8> = Vec::new();
        let mut i: usize = 0;
        while i < n
            invariant
                i <= n,
                n == text@.len(),
                n <= MAX_TEXT_LEN,
                forall|j: int| 0 <= j < i ==> alphabet_index(#[trigger] text@[j]) is Some,
                total_pos == index_sum(text@.take(i as int)),
                total_pos <= 36 * i,
                binary_vec@ == photonic_binary(text@).take(6 * i),
            decreases n - i,
        {
            let pos: u8 = match symbol_index(text[i]) {
                Some(pos) => pos,
                None => {
                    return Err(Error::InvalidCharacter);
                },
            };
            proof {
                lemma_index_sum_step(text@, i as int);
            }
            total_pos += pos as u64;
            let digits = Self::u64_to_binary(pos as u64, 6);
            append_bytes(&mut binary_vec, digits.as_slice());
            assert(binary_vec@ =~= photonic_binary(text@).take(6 * (i + 1))) by {
                assert forall|j: int| 6 * i <= j < 6 * i + 6 implies binary_vec@[j]
                    == photonic_binary(text@)[j] by {
                    assert(j / 6 == i);
                    assert(j % 6 == j - 6 * i);
                    assert(binary_vec@[j] == digits@[j - 6 * i]);
                }
            }
            i += 1;
        }
        assert(text@.take(n as int) =~= text@);
        assert(binary_vec@ =~= photonic_binary(text@));
        proof {
            lemma_hue_bound(total_pos as nat, n as nat);
        }
        let avg_scaled: u64 = (total_pos * 360) / (HUE_STEPS * (n as u64));
        let color = PhotonicColor {
            hue: avg_scaled as u16,
            saturation: SATURATION,
            lightness: LIGHTNESS,
        };
        Ok(PhotonicData { text: slice_to_vec(text), color, binary: binary_vec })
    }

    /// Derives the temporal key of `timestamp`, in seconds, and `phrase`.
    ///
    /// The time bits and the bit string of the phrase are hashed to a base
    /// key, and the base key is enhanced. The phrase is turned down as
    /// [`Pallet::luxbin_encode`] turns it down.
    pub fn compute_temporal_key(timestamp: u64, phrase: &[u8]) -> (result: Result<H512, Error>)
        ensures
            result is Ok <==> valid_text(phrase@),
            is_temporal_key_of(timestamp, phrase@, result),
    {
        let time_binary = Self::timestamp_to_binary(timestamp);
        let photonic_data = match Self::luxbin_encode(phrase) {
            Ok(data) => data,
            Err(e) => {
                return Err(e);
            },
        };
        let mut combined = time_binary;
        append_bytes(&mut combined, photonic_data.binary.as_slice());
        let base = sha3_512(combined.as_slice());
        Ok(enhance_key(timestamp, &base))
    }

    /// The SHA3-512 digest of a phrase.
    pub fn hash_phrase(phrase: &[u8]) -> (digest: H512)
        ensures
            digest@ == sha3_512_digest(phrase@),
    {
        sha3_512(phrase)
    }

    /// Says whether `expected_key` is the temporal key of `timestamp` and
    /// `phrase`. A phrase that has no key matches nothing.
    pub fn verify_temporal_proof(timestamp: u64, phrase: &[u8], expected_key: H512) -> (valid: bool)
        ensures
            valid == (valid_text(phrase@) && temporal_key(timestamp, phrase@) == expected_key@),
    {
        match Self::compute_temporal_key(timestamp, phrase) {
            Ok(computed_key) => computed_key.ct_eq(&expected_key),
            Err(_) => false,
        }
    }

    /// Derives the temporal key for the second in which `now_millis`, a time
    /// in milliseconds, falls. Returns that second and the key.
    pub fn generate_temporal_key(now_millis: u64, phrase: &[u8]) -> (result: Result<
        (u64, H512),
        Error,
    >)
        ensures
            result is Ok <==> valid_text(phrase@),
            match result {
                Ok((timestamp, key)) => {
                    &&& timestamp == now_millis / 1000
                    &&& key@ == temporal_key(timestamp, phrase@)
                },
                Err(e) => e == encoding_error(phrase@),
            },
    {
        let timestamp_secs: u64 = now_millis / 1000;
        if phrase.len() == 0 {
            return Err(Error::EmptyInput);
        }
        match Self::compute_temporal_key(timestamp_secs, phrase) {
            Ok(key) => Ok((timestamp_secs, key)),
            Err(e) => Err(e),
        }
    }

    /// Checks that `timestamp` lies within `window` seconds of
    /// `reference_time`, and builds the proof for it.
    ///
    /// A timestamp outside the window is turned down with
    /// `InvalidTimestamp`, whatever the phrase; inside the window the phrase
    /// decides as in [`Pallet::compute_temporal_key`].
    pub fn validate_temporal_proof(
        timestamp: u64,
        phrase: &[u8],
        reference_time: u64,
        window: u64,
    ) -> (result: Result<TemporalProof<u64>, Error>)
        ensures
            result is Ok <==> in_window(timestamp, reference_time, window) && valid_text(phrase@),
            match result {
                Ok(proof_of_time) => {
                    &&& proof_of_time.timestamp == timestamp
                    &&& proof_of_time.temporal_key@ == temporal_key(timestamp, phrase@)
                    &&& proof_of_time.phrase_hash@ == sha3_512_digest(phrase@)
                },
                Err(e) => e == if in_window(timestamp, reference_time, window) {
                    encoding_error(phrase@)
                } else {
                    Error::InvalidTimestamp
                },
            },
    {
        if !(timestamp >= reference_time.saturating_sub(window) && timestamp
            <= reference_time.saturating_add(window)) {
            return Err(Error::InvalidTimestamp);
        }
        let temporal_key = match Self::compute_temporal_key(timestamp, phrase) {
            Ok(key) => key,
            Err(e) => {
                return Err(e);
            },
        };
        let phrase_hash = Self::hash_phrase(phrase);
        Ok(TemporalProof { timestamp, temporal_key, phrase_hash })
    }

    /// The output verification gate: accepts `output_hmac` exactly when it
    /// is the digest of `output_hash` followed by `temporal_key`, and then
    /// returns the digest of `output_hmac` for the audit log.
    pub fn verify_ai_output_hmac(
        temporal_key: &H512,
        output_hash: &H256,
        output_hmac: &H512,
    ) -> (result: Result<H512, Error>)
        ensures
            result is Ok <==> output_hmac@ == expected_proof(temporal_key@, output_hash@),
            is_gate_outcome(temporal_key@, output_hash@, output_hmac@, result),
    {
        let mut combined: Vec<u8> = Vec::new();
        append_bytes(&mut combined, output_hash.as_bytes());
        append_bytes(&mut combined, temporal_key.as_bytes());
        let computed_hmac = sha3_512(combined.as_slice());
        if !computed_hmac.ct_eq(output_hmac) {
            return Err(Error::VerificationFailed);
        }
        Ok(sha3_512(output_hmac.as_bytes()))
    }
}

} // verus!
