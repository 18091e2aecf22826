//! What holds of the photonic encoding and of the message from which a
//! temporal key is derived: nothing is lost on the way to the hash.

use crate::temporal_crypto::{
    alphabet_index, binary_digits, bit_char, key_message, photonic_binary, symbol_value,
    time_bits, valid_text,
};
use vstd::arithmetic::power2::{lemma2_to64, pow2};
use vstd::prelude::*;

verus! {

/// The alphabet in order: `A` to `Z`, `0` to `9`, and the space.
pub open spec fn alphabet() -> Seq<u8> {
    seq![
        0x41u8, 0x42u8, 0x43u8, 0x44u8, 0x45u8, 0x46u8, 0x47u8, 0x48u8, 0x49u8, 0x4au8, 0x4bu8,
        0x4cu8, 0x4du8, 0x4eu8, 0x4fu8, 0x50u8, 0x51u8, 0x52u8, 0x53u8, 0x54u8, 0x55u8, 0x56u8,
        0x57u8, 0x58u8, 0x59u8, 0x5au8, 0x30u8, 0x31u8, 0x32u8, 0x33u8, 0x34u8, 0x35u8, 0x36u8,
        0x37u8, 0x38u8, 0x39u8, 0x20u8,
    ]
}

/// The alphabet has 37 symbols, and the position of a byte is its place in
/// the alphabet: a byte has a position exactly when the alphabet holds it.
pub proof fn lemma_alphabet_positions()
    ensures
        alphabet().len() == 37,
        forall|i: int| 0 <= i < 37 ==> alphabet_index(#[trigger] alphabet()[i]) == Some(i as nat),
        forall|b: u8|
            match #[trigger] alphabet_index(b) {
                Some(i) => i < 37 && alphabet()[i as int] == b,
                None => !alphabet().contains(b),
            },
{
    let symbols = alphabet();
    assert forall|i: int| 0 <= i < 37 implies alphabet_index(#[trigger] symbols[i]) == Some(
        i as nat,
    ) by {
        if i < 26 {
            assert(symbols[i] == 0x41 + i);
        } else if i < 36 {
            assert(symbols[i] == 0x30 + i - 26);
        } else {
            assert(symbols[i] == 0x20);
        }
    }
    assert forall|b: u8|
        match #[trigger] alphabet_index(b) {
            Some(i) => i < 37 && symbols[i as int] == b,
            None => !symbols.contains(b),
        } by {
        match alphabet_index(b) {
            Some(i) => {
                assert(alphabet_index(symbols[i as int]) == Some(i));
            },
            None => {
                if symbols.contains(b) {
                    let i = choose|i: int| 0 <= i < symbols.len() && symbols[i] == b;
                    assert(alphabet_index(symbols[i]) == Some(i as nat));
                }
            },
        }
    }
}

/// Two numbers below 64 whose six lowest bits agree are equal.
proof fn lemma_six_bits_determine(v: nat, w: nat)
    requires
        v < 64,
        w < 64,
        forall|j: nat| j < 6 ==> bit_char(v, j) == bit_char(w, j),
    ensures
        v == w,
{
    lemma2_to64();
    assert(bit_char(v, 0) == bit_char(w, 0));
    assert(bit_char(v, 1) == bit_char(w, 1));
    assert(bit_char(v, 2) == bit_char(w, 2));
    assert(bit_char(v, 3) == bit_char(w, 3));
    assert(bit_char(v, 4) == bit_char(w, 4));
    assert(bit_char(v, 5) == bit_char(w, 5));
    assert((v / 1) % 2 == (w / 1) % 2);
    assert((v / 2) % 2 == (w / 2) % 2);
    assert((v / 4) % 2 == (w / 4) % 2);
    assert((v / 8) % 2 == (w / 8) % 2);
    assert((v / 16) % 2 == (w / 16) % 2);
    assert((v / 32) % 2 == (w / 32) % 2);
}

/// Two numbers below `2^bits`, for at most six bits, with the same binary
/// digits are equal.
proof fn lemma_digits_determine(v: nat, w: nat, bits: nat)
    requires
        bits <= 6,
        v < pow2(bits),
        w < pow2(bits),
        binary_digits(v, bits) == binary_digits(w, bits),
    ensures
        v == w,
{
    lemma2_to64();
    assert forall|j: nat| j < 6 implies bit_char(v, j) == bit_char(w, j) by {
        if j < bits {
            let k = bits - 1 - j;
            assert(binary_digits(v, bits)[k] == bit_char(v, (bits - 1 - k) as nat));
            assert(binary_digits(w, bits)[k] == bit_char(w, (bits - 1 - k) as nat));
        } else {
            vstd::arithmetic::power2::lemma_pow2_strictly_increases(bits, j + 1);
            assert(pow2(bits) <= pow2(j)) by {
                if bits < j {
                    vstd::arithmetic::power2::lemma_pow2_strictly_increases(bits, j);
                }
            }
            vstd::arithmetic::div_mod::lemma_basic_div(v as int, pow2(j) as int);
            vstd::arithmetic::div_mod::lemma_basic_div(w as int, pow2(j) as int);
        }
    }
    lemma_six_bits_determine(v, w);
}

/// Two bytes of the alphabet at the same position are the same byte.
pub proof fn lemma_alphabet_index_injective(a: u8, b: u8)
    requires
        alphabet_index(a) is Some,
        alphabet_index(a) == alphabet_index(b),
    ensures
        a == b,
{
}

/// The bit string of a text holds, for the byte at position `i`, the six
/// binary digits of its alphabet position.
proof fn lemma_binary_group(text: Seq<u8>, i: int)
    requires
        0 <= i < text.len(),
    ensures
        photonic_binary(text).subrange(6 * i, 6 * i + 6) == binary_digits(symbol_value(text[i]), 6),
{
    let group = photonic_binary(text).subrange(6 * i, 6 * i + 6);
    let digits = binary_digits(symbol_value(text[i]), 6);
    assert forall|k: int| 0 <= k < 6 implies group[k] == digits[k] by {
        let j = 6 * i + k;
        assert(j / 6 == i);
        assert(j % 6 == k);
        assert(group[k] == photonic_binary(text)[j]);
    }
    assert(group =~= digits);
}

/// The photonic encoding loses nothing: two valid texts with the same bit
/// string are the same text.
pub proof fn lemma_photonic_binary_injective(a: Seq<u8>, b: Seq<u8>)
    requires
        valid_text(a),
        valid_text(b),
        photonic_binary(a) == photonic_binary(b),
    ensures
        a == b,
{
    assert(photonic_binary(a).len() == 6 * a.len());
    assert(photonic_binary(b).len() == 6 * b.len());
    assert(a.len() == b.len());
    lemma2_to64();
    assert forall|i: int| 0 <= i < a.len() implies a[i] == b[i] by {
        lemma_binary_group(a, i);
        lemma_binary_group(b, i);
        assert(alphabet_index(a[i]) is Some);
        assert(alphabet_index(b[i]) is Some);
        lemma_digits_determine(symbol_value(a[i]), symbol_value(b[i]), 6);
        lemma_alphabet_index_injective(a[i], b[i]);
    }
    assert(a =~= b);
}

/// The time bits keep the time of day: two timestamps with the same time
/// bits are the same second of the day.
pub proof fn lemma_time_bits_injective(first: u64, second: u64)
    requires
        time_bits(first) == time_bits(second),
    ensures
        first % 86400 == second % 86400,
{
    lemma2_to64();
    let h1 = ((first / 3600) % 24) as nat;
    let m1 = ((first / 60) % 60) as nat;
    let s1 = (first % 60) as nat;
    let h2 = ((second / 3600) % 24) as nat;
    let m2 = ((second / 60) % 60) as nat;
    let s2 = (second % 60) as nat;
    let t1 = time_bits(first);
    let t2 = time_bits(second);
    assert(t1.subrange(0, 5) =~= binary_digits(h1, 5));
    assert(t2.subrange(0, 5) =~= binary_digits(h2, 5));
    assert(t1.subrange(5, 11) =~= binary_digits(m1, 6));
    assert(t2.subrange(5, 11) =~= binary_digits(m2, 6));
    assert(t1.subrange(11, 17) =~= binary_digits(s1, 6));
    assert(t2.subrange(11, 17) =~= binary_digits(s2, 6));
    lemma_digits_determine(h1, h2, 5);
    lemma_digits_determine(m1, m2, 6);
    lemma_digits_determine(s1, s2, 6);
    assert(first % 86400 == h1 * 3600 + m1 * 60 + s1);
    assert(second % 86400 == h2 * 3600 + m2 * 60 + s2);
}

/// The message from which a key is derived keeps both inputs: two messages
/// are the same only for the same second of the day and the same phrase. So
/// a change of the phrase, or of the time of day, always changes what is
/// hashed.
pub proof fn lemma_key_message_injective(
    first_time: u64,
    first_phrase: Seq<u8>,
    second_time: u64,
    second_phrase: Seq<u8>,
)
    requires
        valid_text(first_phrase),
        valid_text(second_phrase),
        key_message(first_time, first_phrase) == key_message(second_time, second_phrase),
    ensures
        first_time % 86400 == second_time % 86400,
        first_phrase == second_phrase,
{
    let m1 = key_message(first_time, first_phrase);
    let m2 = key_message(second_time, second_phrase);
    assert(time_bits(first_time).len() == 17);
    assert(time_bits(second_time).len() == 17);
    assert(m1.subrange(0, 17) =~= time_bits(first_time));
    assert(m2.subrange(0, 17) =~= time_bits(second_time));
    assert(m1.subrange(17, m1.len() as int) =~= photonic_binary(first_phrase));
    assert(m2.subrange(17, m2.len() as int) =~= photonic_binary(second_phrase));
    lemma_time_bits_injective(first_time, second_time);
    lemma_photonic_binary_injective(first_phrase, second_phrase);
}

} // verus!
