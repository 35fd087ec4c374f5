use file_cipher::error::FileCipherError;
use file_cipher::utils::{decode_hex, encode_hex};

#[test]
fn encode_hex_is_lowercase_two_digits_per_byte() {
    assert_eq!(encode_hex(&[0x00, 0xff, 0x2a, 0xab]), "00ff2aab");
    assert_eq!(encode_hex(&[]), "");
}

#[test]
fn decode_hex_inverts_encode_hex() {
    let bytes: Vec<u8> = (0..=255u16).map(|b| b as u8).collect();
    let s = encode_hex(&bytes);
    assert_eq!(s.len(), 512);
    assert_eq!(decode_hex(&s).unwrap(), bytes);
}

#[test]
fn decode_hex_accepts_upper_case() {
    assert_eq!(decode_hex("AbCd").unwrap(), vec![0xab, 0xcd]);
}

#[test]
fn decode_hex_rejects_odd_length() {
    assert!(matches!(decode_hex("abc"), Err(FileCipherError::MalformedHex)));
}

#[test]
fn decode_hex_rejects_bad_digit() {
    assert!(matches!(decode_hex("zz"), Err(FileCipherError::MalformedHex)));
    assert!(matches!(decode_hex("0g"), Err(FileCipherError::MalformedHex)));
}

#[test]
fn decode_hex_rejects_non_ascii() {
    assert!(matches!(decode_hex("ab\u{00e9}d"), Err(FileCipherError::MalformedHex)));
}
