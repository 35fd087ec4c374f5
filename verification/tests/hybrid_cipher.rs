use file_cipher::aes_ecc::AesECCCipher;
use file_cipher::cipher::Cipher;
use file_cipher::ecdh::uecc_mkae_key_with_secp256k1;
use file_cipher::error::FileCipherError;
use file_cipher::xor::XorCipher;

#[test]
fn hybrid_round_trip_empty_input() {
    let pair = uecc_mkae_key_with_secp256k1().unwrap();
    let enc = AesECCCipher::new(&pair.public_key);
    let ct = enc.encrypt(&Vec::new()).unwrap();
    // header (96) + one padding block (16)
    assert_eq!(ct.len(), 112);

    let dec = AesECCCipher::new(&pair.private_key);
    assert_eq!(dec.decrypt(&ct).unwrap(), Vec::<u8>::new());
}

#[test]
fn hybrid_round_trip_5000_bytes() {
    let input: Vec<u8> = (0..5000).map(|i| (i * 7 % 256) as u8).collect();
    let pair = uecc_mkae_key_with_secp256k1().unwrap();

    let enc = AesECCCipher::new(&pair.public_key);
    let ct = enc.encrypt(&input).unwrap();
    let body_len = ct.len() - 96;
    assert_eq!(body_len % 16, 0);
    assert_eq!(ct.len(), 96 + (5000 / 16 + 1) * 16);

    let dec = AesECCCipher::new(&pair.private_key);
    assert_eq!(dec.decrypt(&ct).unwrap(), input);
}

#[test]
fn two_encryptions_of_one_input_differ() {
    // a fresh ephemeral key pair is generated for every encryption
    let input = vec![5u8; 64];
    let pair = uecc_mkae_key_with_secp256k1().unwrap();
    let enc = AesECCCipher::new(&pair.public_key);
    let ct1 = enc.encrypt(&input).unwrap();
    let ct2 = enc.encrypt(&input).unwrap();
    assert_ne!(ct1, ct2);
}

#[test]
fn encrypt_rejects_wrong_key_length() {
    let enc = AesECCCipher::new("abcd");
    let r = enc.encrypt(&vec![1, 2, 3]);
    assert!(matches!(r, Err(FileCipherError::InvalidKeyLength { expected: 128, actual: 4 })));

    // one character short of the curve's public-key width
    let short = "a".repeat(127);
    let enc = AesECCCipher::new(&short);
    let r = enc.encrypt(&vec![1, 2, 3]);
    assert!(matches!(r, Err(FileCipherError::InvalidKeyLength { expected: 128, actual: 127 })));
}

#[test]
fn decrypt_rejects_wrong_key_length() {
    let dec = AesECCCipher::new("ab");
    let r = dec.decrypt(&vec![0u8; 200]);
    assert!(matches!(r, Err(FileCipherError::InvalidKeyLength { expected: 64, actual: 2 })));
}

#[test]
fn encrypt_rejects_malformed_hex_key() {
    let bad = "z".repeat(128);
    let enc = AesECCCipher::new(&bad);
    assert!(matches!(enc.encrypt(&Vec::new()), Err(FileCipherError::MalformedHex)));
}

#[test]
fn hybrid_file_is_rejected_by_the_xor_decoder() {
    let pair = uecc_mkae_key_with_secp256k1().unwrap();
    let enc = AesECCCipher::new(&pair.public_key);
    let ct = enc.encrypt(&vec![1, 2, 3]).unwrap();

    let xor = XorCipher::new(0x2a);
    let r = xor.decrypt(&ct);
    assert!(matches!(r, Err(FileCipherError::VersionMismatch { expected: 1, actual: 2 })));
}

#[test]
fn xor_file_is_rejected_by_the_hybrid_decoder() {
    let xor = XorCipher::new(0x2a);
    let ct = xor.encrypt(&vec![9u8; 100]).unwrap();

    let pair = uecc_mkae_key_with_secp256k1().unwrap();
    let dec = AesECCCipher::new(&pair.private_key);
    let r = dec.decrypt(&ct);
    assert!(matches!(r, Err(FileCipherError::VersionMismatch { expected: 2, actual: 1 })));
}

#[test]
fn decrypt_rejects_truncated_hybrid_header() {
    let pair = uecc_mkae_key_with_secp256k1().unwrap();
    let dec = AesECCCipher::new(&pair.private_key);
    let r = dec.decrypt(&vec![0x72u8; 20]);
    assert!(matches!(r, Err(FileCipherError::TruncatedHeader { expected: 96, actual: 20 })));
}

#[test]
fn decrypt_with_the_wrong_private_key_does_not_yield_the_plaintext() {
    let input: Vec<u8> = (0..500).map(|i| (i % 256) as u8).collect();
    let pair = uecc_mkae_key_with_secp256k1().unwrap();
    let other = uecc_mkae_key_with_secp256k1().unwrap();

    let enc = AesECCCipher::new(&pair.public_key);
    let ct = enc.encrypt(&input).unwrap();

    let dec = AesECCCipher::new(&other.private_key);
    match dec.decrypt(&ct) {
        Ok(out) => assert_ne!(out, input),
        Err(_) => {}
    }
}
