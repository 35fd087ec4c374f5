use file_cipher::error::FileCipherError;
use file_cipher::header::{AesECCHeader, XorHeader, decode_version, header_len};
use file_cipher::version::Version;

const MAGIC: &[u8] = b"rs_file_cipher";

#[test]
fn xor_header_encodes_magic_then_version() {
    let h = XorHeader::new();
    let bytes = h.encode();
    assert_eq!(bytes.len(), 16);
    assert_eq!(&bytes[..14], MAGIC);
    assert_eq!(&bytes[14..], &[0x00, 0x01]);
}

#[test]
fn xor_header_decodes_its_own_encoding() {
    let bytes = XorHeader::new().encode();
    let h = XorHeader::try_from(&bytes).unwrap();
    assert_eq!(h.format(), 1);
}

#[test]
fn truncated_header_is_rejected() {
    let r = XorHeader::try_from(&[0x72, 0x73, 0x5f]);
    assert!(matches!(r, Err(FileCipherError::TruncatedHeader { expected: 16, actual: 3 })));
}

#[test]
fn bad_magic_is_rejected() {
    let mut bytes = XorHeader::new().encode();
    bytes[0] = b'x';
    assert!(matches!(XorHeader::try_from(&bytes), Err(FileCipherError::BadMagic)));
}

#[test]
fn unknown_version_code_is_rejected() {
    let mut bytes = Vec::from(MAGIC);
    bytes.push(0x00);
    bytes.push(0x63);
    assert!(matches!(
        XorHeader::try_from(&bytes),
        Err(FileCipherError::UnsupportedVersion(0x63))
    ));
    assert!(matches!(
        decode_version(&bytes),
        Err(FileCipherError::UnsupportedVersion(0x63))
    ));
}

#[test]
fn registry_resolves_both_versions() {
    let v1 = decode_version(&XorHeader::new().encode()).unwrap();
    assert_eq!(v1, Version::V1);
    assert_eq!(header_len(v1), 16);

    let key = vec![7u8; 64];
    let iv = vec![9u8; 16];
    let v2 = decode_version(&AesECCHeader::new(&key, &iv).encode()).unwrap();
    assert_eq!(v2, Version::V2);
    assert_eq!(header_len(v2), 96);
}

#[test]
fn version_try_from_codes() {
    assert_eq!(Version::try_from(1).unwrap(), Version::V1);
    assert_eq!(Version::try_from(2).unwrap(), Version::V2);
    assert!(matches!(Version::try_from(7), Err(FileCipherError::UnsupportedVersion(7))));
    assert_eq!(Version::V1.code(), 1);
    assert_eq!(Version::V2.code(), 2);
}

#[test]
fn aes_ecc_header_round_trip() {
    let key: Vec<u8> = (0..64u8).collect();
    let iv: Vec<u8> = (100..116u8).collect();
    let h = AesECCHeader::new(&key, &iv);
    let bytes = h.encode();
    assert_eq!(bytes.len(), 96);
    assert_eq!(&bytes[..14], MAGIC);
    assert_eq!(&bytes[14..16], &[0x00, 0x02]);
    assert_eq!(&bytes[16..80], &key[..]);
    assert_eq!(&bytes[80..96], &iv[..]);

    let back = AesECCHeader::try_from(&bytes).unwrap();
    assert_eq!(back.format(), 2);
    assert_eq!(back.key_bytes(), &key);
    assert_eq!(back.iv_bytes(), &iv);
}

#[test]
fn aes_ecc_header_truncated_is_rejected() {
    let bytes = XorHeader::new().encode();
    assert!(matches!(
        AesECCHeader::try_from(&bytes),
        Err(FileCipherError::TruncatedHeader { expected: 96, actual: 16 })
    ));
}

#[test]
fn error_messages_name_the_violated_bound() {
    let e = FileCipherError::TruncatedHeader { expected: 16, actual: 3 };
    assert_eq!(e.message(), "truncated header: need 16 bytes, have 3");

    let e = FileCipherError::InvalidKeyLength { expected: 128, actual: 127 };
    assert_eq!(e.message(), "the key string must be 128 hex characters, got 127");

    let e = FileCipherError::VersionMismatch { expected: 1, actual: 2 };
    assert_eq!(e.message(), "the file carries format version 2, this cipher handles only version 1");

    let e = FileCipherError::UnsupportedVersion(0);
    assert_eq!(e.message(), "unsupported format version code 0");

    let e = FileCipherError::UnsupportedVersion(40960);
    assert_eq!(e.message(), "unsupported format version code 40960");

    assert!(!FileCipherError::KeyExchangeFailed.message().is_empty());
}
