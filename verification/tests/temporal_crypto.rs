use luxbin_core::hash::{H256, H512};
use luxbin_core::ldd::LddComponents;
use luxbin_core::temporal_crypto::{
    enhance_key, key_enhancement, psi_to_bytes, symbol_index, Error, Pallet as TemporalCrypto,
    PhotonicColor,
};
use sha3::{Digest, Sha3_512};

fn hex(s: &str) -> Vec<u8> {
    (0..s.len() / 2).map(|i| u8::from_str_radix(&s[2 * i..2 * i + 2], 16).unwrap()).collect()
}

fn h512(bytes: &[u8]) -> H512 {
    let mut out = [0u8; 64];
    out.copy_from_slice(bytes);
    H512(out)
}

#[test]
fn test_generate_temporal_key_works() {
    let phrase = b"SECURE PAYMENT".to_vec();
    let result = TemporalCrypto::generate_temporal_key(1000000, &phrase);
    assert!(result.is_ok());
    let (timestamp_secs, key) = result.unwrap();
    assert_eq!(timestamp_secs, 1000);
    assert_eq!(Ok(key), TemporalCrypto::compute_temporal_key(1000, &phrase));
}

#[test]
fn test_generate_temporal_key_fails_with_empty_phrase() {
    let empty_phrase = b"".to_vec();
    assert_eq!(
        TemporalCrypto::generate_temporal_key(1000000, &empty_phrase),
        Err(Error::EmptyInput)
    );
}

#[test]
fn test_photonic_encoding_works() {
    let text = b"HELLO WORLD".to_vec();
    let photonic_data = TemporalCrypto::luxbin_encode(&text).unwrap();
    assert_eq!(photonic_data.text, text);
    assert!(photonic_data.color.hue <= 360);
    assert!(photonic_data.color.saturation <= 100);
    assert!(photonic_data.color.lightness <= 100);
    assert!(!photonic_data.binary.is_empty());
}

#[test]
fn test_photonic_encoding_fails_with_invalid_chars() {
    let invalid_text = b"hello@world!".to_vec();
    assert_eq!(TemporalCrypto::luxbin_encode(&invalid_text), Err(Error::InvalidCharacter));
}

#[test]
fn test_photonic_encoding_empty_fails() {
    let empty = b"".to_vec();
    assert_eq!(TemporalCrypto::luxbin_encode(&empty), Err(Error::EmptyInput));
}

#[test]
fn test_temporal_proof_validation_works() {
    let timestamp = 1000;
    let phrase = b"SECRET PHRASE".to_vec();
    let result = TemporalCrypto::validate_temporal_proof(timestamp, &phrase, 1000, 30);
    assert!(result.is_ok());
    let proof = result.unwrap();
    assert_eq!(proof.timestamp, timestamp);
    assert_eq!(Ok(proof.temporal_key), TemporalCrypto::compute_temporal_key(timestamp, &phrase));
    assert_eq!(proof.phrase_hash, TemporalCrypto::hash_phrase(&phrase));
}

#[test]
fn test_temporal_proof_validation_fails_outside_window() {
    let old_timestamp = 900;
    let phrase = b"SECRET PHRASE".to_vec();
    assert_eq!(
        TemporalCrypto::validate_temporal_proof(old_timestamp, &phrase, 1000, 30),
        Err(Error::InvalidTimestamp)
    );
}

#[test]
fn test_timestamp_to_binary_conversion() {
    let hours = 12u64;
    let minutes = 34u64;
    let seconds = 56u64;
    let timestamp = hours * 3600 + minutes * 60 + seconds;

    let binary = TemporalCrypto::timestamp_to_binary(timestamp);

    assert_eq!(binary.len(), 17);
    for &byte in &binary {
        assert!(byte == b'0' || byte == b'1');
    }
    assert_eq!(binary, b"01100100010111000".to_vec());
}

#[test]
fn test_luxbin_alphabet_encoding() {
    let all_chars = b"ABCDEFGHIJKLMNOPQRSTUVWXYZ0123456789 ".to_vec();

    let result = TemporalCrypto::luxbin_encode(&all_chars);
    assert!(result.is_ok());

    let photonic_data = result.unwrap();
    assert_eq!(photonic_data.text, all_chars);
    assert!(photonic_data.color.saturation == 100);
    assert!(photonic_data.color.lightness == 70);
    assert_eq!(photonic_data.binary.len(), 222);
    assert_eq!(photonic_data.color.hue, 170);
}

#[test]
fn test_temporal_key_deterministic() {
    let timestamp = 1000u64;
    let phrase = b"TEST PHRASE".to_vec();

    let key1 = TemporalCrypto::compute_temporal_key(timestamp, &phrase).unwrap();
    let key2 = TemporalCrypto::compute_temporal_key(timestamp, &phrase).unwrap();

    assert_eq!(key1, key2);
}

#[test]
fn test_temporal_key_different_times() {
    let phrase = b"TEST PHRASE".to_vec();

    let key1 = TemporalCrypto::compute_temporal_key(1000, &phrase).unwrap();
    let key2 = TemporalCrypto::compute_temporal_key(2000, &phrase).unwrap();

    assert_ne!(key1, key2);
}

#[test]
fn test_temporal_key_different_phrases() {
    let timestamp = 1000u64;

    let key1 = TemporalCrypto::compute_temporal_key(timestamp, b"PHRASE ONE").unwrap();
    let key2 = TemporalCrypto::compute_temporal_key(timestamp, b"PHRASE TWO").unwrap();

    assert_ne!(key1, key2);
}

#[test]
fn test_verify_temporal_proof() {
    let timestamp = 1000u64;
    let phrase = b"SECRET".to_vec();

    let key = TemporalCrypto::compute_temporal_key(timestamp, &phrase).unwrap();

    assert!(TemporalCrypto::verify_temporal_proof(timestamp, &phrase, key));
    assert!(!TemporalCrypto::verify_temporal_proof(timestamp, b"WRONG", key));
    assert!(!TemporalCrypto::verify_temporal_proof(2000, &phrase, key));
}

#[test]
fn test_photonic_color_different_texts() {
    let text1 = b"ALICE".to_vec();
    let text2 = b"BOB".to_vec();

    let photonic1 = TemporalCrypto::luxbin_encode(&text1).unwrap();
    let photonic2 = TemporalCrypto::luxbin_encode(&text2).unwrap();

    assert_ne!(photonic1.color.hue, photonic2.color.hue);
    assert_eq!(photonic1.color.hue, 47);
    assert_eq!(photonic2.color.hue, 50);
}

#[test]
fn test_photonic_binary_length() {
    let text = b"HELLO".to_vec();

    let photonic = TemporalCrypto::luxbin_encode(&text).unwrap();

    assert_eq!(photonic.binary.len(), 30);
}

#[test]
fn encode_hello_exact() {
    let photonic = TemporalCrypto::luxbin_encode(b"HELLO").unwrap();
    assert_eq!(photonic.binary, b"000111000100001011001011001110".to_vec());
    assert_eq!(photonic.color, PhotonicColor { hue: 89, saturation: 100, lightness: 70 });
    assert_eq!(photonic.text, b"HELLO".to_vec());
}

#[test]
fn encode_rejects_lowercase_and_at_sign() {
    assert_eq!(TemporalCrypto::luxbin_encode(b"hello@world"), Err(Error::InvalidCharacter));
    assert_eq!(TemporalCrypto::luxbin_encode(b"HELLO@WORLD"), Err(Error::InvalidCharacter));
    assert_eq!(TemporalCrypto::luxbin_encode(b"hello"), Err(Error::InvalidCharacter));
}

#[test]
fn encode_rejects_bytes_that_are_not_text() {
    assert_eq!(TemporalCrypto::luxbin_encode(&[0x41, 0xff, 0x42]), Err(Error::InvalidCharacter));
    assert_eq!(TemporalCrypto::luxbin_encode(&[0xc3, 0x84]), Err(Error::InvalidCharacter));
}

#[test]
fn encode_length_limit() {
    let longest = vec![b'Z'; 1024];
    let data = TemporalCrypto::luxbin_encode(&longest).unwrap();
    assert_eq!(data.binary.len(), 6144);
    assert_eq!(data.color.hue, 236);
    let too_long = vec![b'Z'; 1025];
    assert_eq!(TemporalCrypto::luxbin_encode(&too_long), Err(Error::InvalidCharacter));
}

#[test]
fn encode_single_symbols() {
    assert_eq!(TemporalCrypto::luxbin_encode(b"A").unwrap().binary, b"000000".to_vec());
    assert_eq!(TemporalCrypto::luxbin_encode(b"A").unwrap().color.hue, 0);
    assert_eq!(TemporalCrypto::luxbin_encode(b" ").unwrap().binary, b"100100".to_vec());
    assert_eq!(TemporalCrypto::luxbin_encode(b" ").unwrap().color.hue, 341);
    assert_eq!(TemporalCrypto::luxbin_encode(b"0").unwrap().binary, b"011010".to_vec());
    assert_eq!(TemporalCrypto::luxbin_encode(b"9").unwrap().binary, b"100011".to_vec());
}

#[test]
fn symbol_index_covers_the_alphabet() {
    let alphabet = b"ABCDEFGHIJKLMNOPQRSTUVWXYZ0123456789 ";
    for (i, &b) in alphabet.iter().enumerate() {
        assert_eq!(symbol_index(b), Some(i as u8));
    }
    let mut inside = 0;
    for b in 0u8..=255 {
        if symbol_index(b).is_some() {
            inside += 1;
        }
    }
    assert_eq!(inside, 37);
}

#[test]
fn u64_to_binary_exact() {
    assert_eq!(TemporalCrypto::u64_to_binary(5, 3), b"101".to_vec());
    assert_eq!(TemporalCrypto::u64_to_binary(5, 6), b"000101".to_vec());
    assert_eq!(TemporalCrypto::u64_to_binary(255, 4), b"1111".to_vec());
    assert_eq!(TemporalCrypto::u64_to_binary(7, 0), Vec::<u8>::new());
    let all = TemporalCrypto::u64_to_binary(u64::MAX, 64);
    assert_eq!(all, vec![b'1'; 64]);
    let top = TemporalCrypto::u64_to_binary(1u64 << 63, 64);
    assert_eq!(top[0], b'1');
    assert!(top[1..].iter().all(|&b| b == b'0'));
}

#[test]
fn timestamp_to_binary_edges() {
    assert_eq!(TemporalCrypto::timestamp_to_binary(0), b"00000000000000000".to_vec());
    assert_eq!(TemporalCrypto::timestamp_to_binary(86399), b"10111111011111011".to_vec());
    assert_eq!(
        TemporalCrypto::timestamp_to_binary(86400),
        TemporalCrypto::timestamp_to_binary(0)
    );
    assert_eq!(TemporalCrypto::timestamp_to_binary(u64::MAX).len(), 17);
}

#[test]
fn hash_phrase_is_sha3_512() {
    let expected = hex("b751850b1a57168a5693cd924b6b096e08f621827444f70d884f5d0240d2712e10e116e9192af3c91a7ec57647e3934057340b4cf408d5a56592f8274eec53f0");
    assert_eq!(TemporalCrypto::hash_phrase(b"abc"), h512(&expected));
    assert_eq!(TemporalCrypto::hash_phrase(b"abc").as_bytes(), &expected[..]);
    assert_ne!(&TemporalCrypto::hash_phrase(b"abc").as_bytes()[..3], b"abc");
}

#[test]
fn temporal_key_exact() {
    let key = TemporalCrypto::compute_temporal_key(1000, b"TEST PHRASE").unwrap();
    assert_eq!(key, h512(&hex("f5e0677193c887e1a0b9cd12decbfba59ef855bcedf90f9caa32970869581d619edd1df9647bf918034ab1495aad5d52594ba3c511dc518a43881e2f966ba471")));
    let key = TemporalCrypto::compute_temporal_key(2000, b"TEST PHRASE").unwrap();
    assert_eq!(key, h512(&hex("28ef049c68809d751017295663ffd190b0b82f1baf3311680488f9e940e004ee2967876314c37751d73784f4b0770a12dc368ace59f3bf911192b4ed8ff9d8cd")));
    let key = TemporalCrypto::compute_temporal_key(1000, b"PHRASE ONE").unwrap();
    assert_eq!(key, h512(&hex("cf993e8a85750ac87f8bf455f9e8c76a06e271b968d4b3d4566363ebec30c9cfb9ed4332407c6b74c4435212c004c19caf30b63aed7f896b909c2fd8701fd86a")));
}

#[test]
fn temporal_key_is_the_enhanced_base_key() {
    let mut message = TemporalCrypto::timestamp_to_binary(1000);
    message.extend_from_slice(&TemporalCrypto::luxbin_encode(b"TEST PHRASE").unwrap().binary);
    let base = h512(&Sha3_512::digest(&message));
    let key = TemporalCrypto::compute_temporal_key(1000, b"TEST PHRASE").unwrap();
    assert_eq!(enhance_key(1000, &base), key);
    assert_ne!(key, base);

    let factors = key_enhancement(1000, &base);
    let mut second = psi_to_bytes(factors.psi());
    second.extend_from_slice(base.as_bytes());
    assert_eq!(h512(&Sha3_512::digest(&second)), key);
}

#[test]
fn temporal_key_errors() {
    assert_eq!(TemporalCrypto::compute_temporal_key(1000, b""), Err(Error::EmptyInput));
    assert_eq!(TemporalCrypto::compute_temporal_key(1000, b"nope"), Err(Error::InvalidCharacter));
}

#[test]
fn key_enhancement_exact() {
    let mut bytes = [0u8; 64];
    bytes[0] = 255;
    bytes[1] = 128;
    let base = H512(bytes);
    // t = 1800: half an hour into the day, 800 into the cycle of 1000.
    let factors = key_enhancement(1800, &base);
    assert_eq!(
        factors,
        LddComponents { stability: 1000, resonance: 952, entropy: 511, coupling: 1000, diffusion: 260 }
    );
    assert_eq!(factors.psi(), 1000 * 952 * 511 * 1000 * 260);

    let zero = H512([0u8; 64]);
    let factors = key_enhancement(0, &zero);
    assert_eq!(
        factors,
        LddComponents { stability: 1000, resonance: 1000, entropy: 500, coupling: 0, diffusion: 10 }
    );
    assert_eq!(factors.psi(), 0);

    let full = H512([255u8; 64]);
    let factors = key_enhancement(86399, &full);
    assert_eq!(
        factors,
        LddComponents { stability: 991, resonance: 1029, entropy: 1000, coupling: 1000, diffusion: 1009 }
    );
}

#[test]
fn psi_to_bytes_exact() {
    assert_eq!(psi_to_bytes(0), vec![0u8; 16]);
    assert_eq!(psi_to_bytes(1), [vec![0u8; 15], vec![1u8]].concat());
    assert_eq!(psi_to_bytes(0x0102), [vec![0u8; 14], vec![1u8, 2u8]].concat());
    assert_eq!(psi_to_bytes(u128::MAX), vec![255u8; 16]);
    assert_eq!(
        psi_to_bytes(0x000102030405060708090a0b0c0d0e0f),
        (0u8..16).collect::<Vec<u8>>()
    );
}

#[test]
fn psi_saturates() {
    let big = LddComponents {
        stability: u32::MAX,
        resonance: u32::MAX,
        entropy: u32::MAX,
        coupling: u32::MAX,
        diffusion: u32::MAX,
    };
    assert_eq!(big.psi(), u128::MAX);
    let zeroed = LddComponents { diffusion: 0, ..big };
    assert_eq!(zeroed.psi(), 0);
    let one = LddComponents { diffusion: 1, ..big };
    assert_eq!(one.psi(), (u32::MAX as u128).pow(4));
}

#[test]
fn validate_proof_window_edges() {
    let phrase = b"SECRET PHRASE";
    assert!(TemporalCrypto::validate_temporal_proof(970, phrase, 1000, 30).is_ok());
    assert!(TemporalCrypto::validate_temporal_proof(1030, phrase, 1000, 30).is_ok());
    assert_eq!(
        TemporalCrypto::validate_temporal_proof(969, phrase, 1000, 30),
        Err(Error::InvalidTimestamp)
    );
    assert_eq!(
        TemporalCrypto::validate_temporal_proof(1031, phrase, 1000, 30),
        Err(Error::InvalidTimestamp)
    );
    // The window saturates at zero and at the largest time.
    assert!(TemporalCrypto::validate_temporal_proof(0, phrase, 10, 30).is_ok());
    assert!(TemporalCrypto::validate_temporal_proof(u64::MAX, phrase, u64::MAX - 5, 30).is_ok());
    assert!(TemporalCrypto::validate_temporal_proof(5, phrase, u64::MAX, u64::MAX).is_ok());
    // Outside the window the timestamp is reported, whatever the phrase.
    assert_eq!(
        TemporalCrypto::validate_temporal_proof(900, b"", 1000, 30),
        Err(Error::InvalidTimestamp)
    );
    assert_eq!(
        TemporalCrypto::validate_temporal_proof(1000, b"", 1000, 30),
        Err(Error::EmptyInput)
    );
    assert_eq!(
        TemporalCrypto::validate_temporal_proof(1000, b"bad", 1000, 30),
        Err(Error::InvalidCharacter)
    );
}

#[test]
fn verify_output_accepts_the_expected_proof() {
    let key = TemporalCrypto::compute_temporal_key(1000, b"SECRET").unwrap();
    let output_hash = H256([7u8; 32]);
    let mut message = output_hash.as_bytes().to_vec();
    message.extend_from_slice(key.as_bytes());
    let claimed = h512(&Sha3_512::digest(&message));

    let audit = TemporalCrypto::verify_ai_output_hmac(&key, &output_hash, &claimed).unwrap();
    assert_eq!(audit, h512(&Sha3_512::digest(claimed.as_bytes())));
    assert_ne!(audit, claimed);
}

#[test]
fn verify_output_rejects_every_flipped_bit() {
    let key = TemporalCrypto::compute_temporal_key(1000, b"SECRET").unwrap();
    let output_hash = H256([7u8; 32]);
    let mut message = output_hash.as_bytes().to_vec();
    message.extend_from_slice(key.as_bytes());
    let claimed = h512(&Sha3_512::digest(&message));

    for position in 0..64 {
        for bit in 0..8 {
            let mut flipped = claimed;
            flipped.0[position] ^= 1 << bit;
            assert_eq!(
                TemporalCrypto::verify_ai_output_hmac(&key, &output_hash, &flipped),
                Err(Error::VerificationFailed)
            );
        }
    }
    // The proof is bound to the key and to the output.
    let other_key = TemporalCrypto::compute_temporal_key(1001, b"SECRET").unwrap();
    assert_eq!(
        TemporalCrypto::verify_ai_output_hmac(&other_key, &output_hash, &claimed),
        Err(Error::VerificationFailed)
    );
    assert_eq!(
        TemporalCrypto::verify_ai_output_hmac(&key, &H256([8u8; 32]), &claimed),
        Err(Error::VerificationFailed)
    );
}

#[test]
fn ct_eq_compares_all_bytes() {
    let a = H512([3u8; 64]);
    assert!(a.ct_eq(&a));
    for position in 0..64 {
        let mut b = a;
        b.0[position] = 4;
        assert!(!a.ct_eq(&b));
    }
}

#[test]
fn key_message_keeps_time_of_day_and_phrase() {
    let message = |t: u64, phrase: &[u8]| {
        let mut m = TemporalCrypto::timestamp_to_binary(t);
        m.extend_from_slice(&TemporalCrypto::luxbin_encode(phrase).unwrap().binary);
        m
    };
    assert_ne!(message(1000, b"PHRASE ONE"), message(1000, b"PHRASE TWO"));
    assert_ne!(message(1000, b"TEST PHRASE"), message(2000, b"TEST PHRASE"));
    assert_ne!(message(1000, b"AB"), message(1000, b"BA"));
    // Only the second of the day enters the message.
    assert_eq!(message(1000, b"TEST PHRASE"), message(1000 + 86400, b"TEST PHRASE"));
    assert_ne!(
        TemporalCrypto::compute_temporal_key(1000, b"TEST PHRASE"),
        TemporalCrypto::compute_temporal_key(1000 + 86400, b"TEST PHRASE")
    );
}
