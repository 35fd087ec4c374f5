use file_cipher::cipher::Cipher;
use file_cipher::error::FileCipherError;
use file_cipher::xor::XorCipher;

#[test]
fn encrypting_nothing_yields_exactly_the_header() {
    let c = XorCipher::new(0x2a);
    let ct = c.encrypt(&Vec::new()).unwrap();
    let mut expected = Vec::from(&b"rs_file_cipher"[..]);
    expected.push(0x00);
    expected.push(0x01);
    assert_eq!(ct, expected);

    let pt = c.decrypt(&ct).unwrap();
    assert_eq!(pt, Vec::<u8>::new());
}

#[test]
fn body_bytes_are_xored_with_the_key() {
    let c = XorCipher::new(0x2a);
    let ct = c.encrypt(&vec![0x01, 0x02, 0x03]).unwrap();
    assert_eq!(&ct[16..], &[0x2b, 0x28, 0x29]);
}

#[test]
fn round_trip_over_many_chunk_boundaries() {
    let input: Vec<u8> = (0..5000).map(|i| (i % 251) as u8).collect();
    let c = XorCipher::new(0x5d);
    let ct = c.encrypt(&input).unwrap();
    assert_eq!(ct.len(), 16 + input.len());
    assert_ne!(&ct[16..], &input[..]);
    assert_eq!(c.decrypt(&ct).unwrap(), input);
}

#[test]
fn decrypt_rejects_bad_magic() {
    let c = XorCipher::new(0x2a);
    let mut ct = c.encrypt(&vec![1, 2, 3]).unwrap();
    ct[3] ^= 0xff;
    assert!(matches!(c.decrypt(&ct), Err(FileCipherError::BadMagic)));
}

#[test]
fn decrypt_rejects_truncated_input() {
    let c = XorCipher::new(0x2a);
    let r = c.decrypt(&vec![0x72, 0x73]);
    assert!(matches!(r, Err(FileCipherError::TruncatedHeader { expected: 16, actual: 2 })));
}

#[test]
fn decrypt_rejects_unknown_version_code() {
    let mut ct = Vec::from(&b"rs_file_cipher"[..]);
    ct.push(0x00);
    ct.push(0x2a);
    let c = XorCipher::new(0x2a);
    assert!(matches!(c.decrypt(&ct), Err(FileCipherError::UnsupportedVersion(0x2a))));
}
