use file_cipher::ecdh::{
    Curve, derive_shared_secret, generate_key_pair, ucc_shared_secret_whith_secp256k1,
    ucc_shared_secret_whith_secp256r1, uecc_mkae_key_with_secp256k1, uecc_mkae_key_with_secp256r1,
};
use file_cipher::error::FileCipherError;
use file_cipher::utils::decode_hex;

#[test]
fn gen_secp256k1_key_pair() {
    match uecc_mkae_key_with_secp256k1() {
        Err(ref err) => println!("{:?}", err),
        Ok(pair) => {
            println!("private_key: {}", pair.private_key);
            println!("public_key: {}", pair.public_key);
        }
    };
}

#[test]
fn gen_secp256r1_key_pair() {
    match uecc_mkae_key_with_secp256r1() {
        Err(ref err) => println!("{:?}", err),
        Ok(pair) => {
            println!("private_key: {}", pair.private_key);
            println!("public_key: {}", pair.public_key);
        }
    };
}

#[test]
fn key_pairs_have_the_curve_widths() {
    let pair = uecc_mkae_key_with_secp256k1().unwrap();
    assert_eq!(pair.private_key.len(), 64);
    assert_eq!(pair.public_key.len(), 128);
    assert_eq!(decode_hex(&pair.private_key).unwrap().len(), 32);
    assert_eq!(decode_hex(&pair.public_key).unwrap().len(), 64);
}

#[test]
fn two_generated_key_pairs_differ() {
    let a = uecc_mkae_key_with_secp256k1().unwrap();
    let b = uecc_mkae_key_with_secp256k1().unwrap();
    assert_ne!(a.private_key, b.private_key);
    assert_ne!(a.public_key, b.public_key);
}

#[test]
fn shared_secret_is_symmetric_on_secp256k1() {
    let a = uecc_mkae_key_with_secp256k1().unwrap();
    let b = uecc_mkae_key_with_secp256k1().unwrap();
    let a_public = decode_hex(&a.public_key).unwrap();
    let a_private = decode_hex(&a.private_key).unwrap();
    let b_public = decode_hex(&b.public_key).unwrap();
    let b_private = decode_hex(&b.private_key).unwrap();

    let s1 = ucc_shared_secret_whith_secp256k1(&a_public, &b_private).unwrap();
    let s2 = ucc_shared_secret_whith_secp256k1(&b_public, &a_private).unwrap();
    assert_eq!(s1.len(), 32);
    assert_eq!(s1, s2);
}

#[test]
fn shared_secret_is_symmetric_on_secp256r1() {
    let a = uecc_mkae_key_with_secp256r1().unwrap();
    let b = uecc_mkae_key_with_secp256r1().unwrap();
    let a_public = decode_hex(&a.public_key).unwrap();
    let a_private = decode_hex(&a.private_key).unwrap();
    let b_public = decode_hex(&b.public_key).unwrap();
    let b_private = decode_hex(&b.private_key).unwrap();

    let s1 = ucc_shared_secret_whith_secp256r1(&a_public, &b_private).unwrap();
    let s2 = ucc_shared_secret_whith_secp256r1(&b_public, &a_private).unwrap();
    assert_eq!(s1.len(), 32);
    assert_eq!(s1, s2);
}

#[test]
fn derive_rejects_wrong_key_widths() {
    let a = uecc_mkae_key_with_secp256k1().unwrap();
    let a_public = decode_hex(&a.public_key).unwrap();
    let short_private = vec![1u8; 31];
    let r = derive_shared_secret(Curve::Secp256k1, &short_private, &a_public);
    assert!(matches!(r, Err(FileCipherError::KeyExchangeFailed)));

    let a_private = decode_hex(&a.private_key).unwrap();
    let short_public = vec![1u8; 63];
    let r = derive_shared_secret(Curve::Secp256k1, &a_private, &short_public);
    assert!(matches!(r, Err(FileCipherError::KeyExchangeFailed)));
}

#[test]
fn curves_report_their_metadata() {
    assert!(Curve::Secp256k1.supported());
    assert!(Curve::Secp256r1.supported());
    assert_eq!(Curve::Secp256k1.private_key_len(), 32);
    assert_eq!(Curve::Secp256k1.public_key_len(), 64);
    let pair = generate_key_pair(Curve::Secp256r1).unwrap();
    assert_eq!(pair.public_key.len(), 2 * 64);
}
