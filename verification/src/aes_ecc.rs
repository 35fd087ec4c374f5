//! The hybrid cipher: format `V2`.
//!
//! Configuration is a hex-encoded key string: the encrypting side holds the
//! remote party's long-term public key, the decrypting side its own long-term
//! private key. Encryption generates a fresh ephemeral key pair and IV,
//! derives the 32-byte shared secret from (remote public, ephemeral private),
//! writes a header carrying the ephemeral public key and the IV, and streams
//! the body through AES-256 keyed by the secret. Decryption reads the header,
//! derives the same secret from (ephemeral public, local private) by
//! Diffie-Hellman symmetry, and inverts the stream.

use vstd::prelude::*;
use vstd::slice::{slice_subrange, slice_to_vec};
use vstd::string::StrSliceExecFns;
use crate::aes::{aes_enc_of, aes_stream_decrypt, aes_stream_encrypt, is_cipher_failure};
use crate::cipher::Cipher;
use crate::ecdh::{
    Curve, derive_shared_secret, ec_pub_of, ecdh_of, generate_key_pair,
};
use crate::error::FileCipherError;
use crate::header::{
    AES_ECC_HEADER_LEN, AesECCHeader, ECC_PRIVATE_KEY_LEN, ECC_PUBLIC_KEY_LEN, IV_LEN,
    spec_aes_ecc_header_bytes, spec_aes_ecc_header_decode,
};
use crate::utils::{
    decode_hex, generate_random_iv, hex_decoded, hex_encoded, lemma_hex_round_trip, valid_hex,
};
use crate::version::Version;

verus! {

/// The whole hybrid-format file determined by a remote public key, an
/// ephemeral private key, an IV and a plaintext: the header carrying the
/// ephemeral public key and the IV, then the padded AES ciphertext keyed by
/// the shared secret of the two parties.
pub open spec fn spec_hybrid_ct(
    remote_pub: Seq<u8>,
    eph_priv: Seq<u8>,
    iv: Seq<u8>,
    pt: Seq<u8>,
) -> Seq<u8> {
    spec_aes_ecc_header_bytes(
        Version::V2.spec_code(),
        ec_pub_of(Curve::Secp256k1, eph_priv),
        iv,
    ) + aes_enc_of(ecdh_of(Curve::Secp256k1, remote_pub, eph_priv), iv, pt)
}

/// The hybrid cipher, configured with a hex key string.
pub struct AesECCCipher {
    pub key: String,
}

impl AesECCCipher {
    /// Configures the cipher with a hex key string: the remote public key
    /// for encryption, the local private key for decryption. The string is
    /// validated when the cipher is used.
    pub fn new(key: &str) -> (c: Self)
        ensures
            c.key@ == key@,
            c.wf(),
    {
        AesECCCipher { key: key.to_owned() }
    }
}

impl Cipher for AesECCCipher {
    open spec fn wf(&self) -> bool {
        true
    }

    open spec fn encrypt_ens(&self, src: Seq<u8>, r: Result<Vec<u8>, FileCipherError>) -> bool {
        let k = self.key@;
        &&& (k.len() != 2 * ECC_PUBLIC_KEY_LEN ==> r == Err::<Vec<u8>, FileCipherError>(
            FileCipherError::InvalidKeyLength {
                expected: (2 * ECC_PUBLIC_KEY_LEN) as usize,
                actual: k.len() as usize,
            },
        ))
        &&& (k.len() == 2 * ECC_PUBLIC_KEY_LEN && !valid_hex(k) ==> r == Err::<
            Vec<u8>,
            FileCipherError,
        >(FileCipherError::MalformedHex))
        &&& (r matches Ok(out) ==> {
            &&& k.len() == 2 * ECC_PUBLIC_KEY_LEN
            &&& valid_hex(k)
            &&& (exists|eph_priv: Seq<u8>, iv: Seq<u8>|
                {
                    &&& iv.len() == IV_LEN
                    &&& ec_pub_of(Curve::Secp256k1, eph_priv).len() == ECC_PUBLIC_KEY_LEN
                    &&& out@ == (#[trigger] spec_hybrid_ct(hex_decoded(k), eph_priv, iv, src))
                })
            &&& out@.len() == AES_ECC_HEADER_LEN + 16 * ((src.len() / 16) + 1)
        })
        &&& (r matches Err(e) ==> {
            ||| e == (FileCipherError::InvalidKeyLength {
                expected: (2 * ECC_PUBLIC_KEY_LEN) as usize,
                actual: k.len() as usize,
            })
            ||| e == FileCipherError::MalformedHex
            ||| e == FileCipherError::KeyGenerationFailed
            ||| e == FileCipherError::KeyExchangeFailed
            ||| e == FileCipherError::UnsupportedCurve
            ||| is_cipher_failure(e)
        })
    }

    open spec fn decrypt_ens(&self, src: Seq<u8>, r: Result<Vec<u8>, FileCipherError>) -> bool {
        let k = self.key@;
        let server_priv = hex_decoded(k);
        &&& (k.len() != 2 * ECC_PRIVATE_KEY_LEN ==> r == Err::<Vec<u8>, FileCipherError>(
            FileCipherError::InvalidKeyLength {
                expected: (2 * ECC_PRIVATE_KEY_LEN) as usize,
                actual: k.len() as usize,
            },
        ))
        &&& (k.len() == 2 * ECC_PRIVATE_KEY_LEN && !valid_hex(k) ==> r == Err::<
            Vec<u8>,
            FileCipherError,
        >(FileCipherError::MalformedHex))
        &&& (k.len() == 2 * ECC_PRIVATE_KEY_LEN && valid_hex(k) ==> match spec_aes_ecc_header_decode(
            src,
        ) {
            Err(e) => r == Err::<Vec<u8>, FileCipherError>(e),
            Ok((code, key_field, iv_field)) => {
                if code != Version::V2.spec_code() {
                    r == Err::<Vec<u8>, FileCipherError>(
                        FileCipherError::VersionMismatch {
                            expected: Version::V2.spec_code(),
                            actual: code,
                        },
                    )
                } else {
                    r matches Ok(_) || (r matches Err(e) && (e == FileCipherError::KeyExchangeFailed
                        || e == FileCipherError::UnsupportedCurve || is_cipher_failure(e)))
                }
            },
        })
        &&& (r matches Ok(out) ==> forall|eph_priv: Seq<u8>, iv: Seq<u8>, pt: Seq<u8>|
            {
                (iv.len() == IV_LEN && ec_pub_of(Curve::Secp256k1, eph_priv).len()
                    == ECC_PUBLIC_KEY_LEN && src == (#[trigger] spec_hybrid_ct(
                    ec_pub_of(Curve::Secp256k1, server_priv),
                    eph_priv,
                    iv,
                    pt,
                ))) ==> out@ == pt
            })
    }

    fn encrypt(&self, src: &Vec<u8>) -> (r: Result<Vec<u8>, FileCipherError>) {
        let key_len = self.key.as_str().unicode_len();
        if key_len != 2 * ECC_PUBLIC_KEY_LEN {
            return Err(
                FileCipherError::InvalidKeyLength {
                    expected: 2 * ECC_PUBLIC_KEY_LEN,
                    actual: key_len,
                },
            );
        }
        let server_public = match decode_hex(self.key.as_str()) {
            Ok(v) => v,
            Err(e) => return Err(e),
        };
        let pair = match generate_key_pair(Curve::Secp256k1) {
            Ok(p) => p,
            Err(e) => return Err(e),
        };
        let ghost sk = choose|sk: Seq<u8>|
            {
                &&& sk.len() == ECC_PRIVATE_KEY_LEN
                &&& pair.private_key@ == hex_encoded(sk)
                &&& pair.public_key@ == (#[trigger] hex_encoded(ec_pub_of(Curve::Secp256k1, sk)))
                &&& ec_pub_of(Curve::Secp256k1, sk).len() == ECC_PUBLIC_KEY_LEN
            };
        proof {
            lemma_hex_round_trip(sk);
            lemma_hex_round_trip(ec_pub_of(Curve::Secp256k1, sk));
        }
        let eph_priv = match decode_hex(pair.private_key.as_str()) {
            Ok(v) => v,
            Err(_) => return Err(FileCipherError::KeyGenerationFailed),
        };
        let eph_pub = match decode_hex(pair.public_key.as_str()) {
            Ok(v) => v,
            Err(_) => return Err(FileCipherError::KeyGenerationFailed),
        };
        let secret = match derive_shared_secret(Curve::Secp256k1, &eph_priv, &server_public) {
            Ok(s) => s,
            Err(e) => return Err(e),
        };
        let iv = generate_random_iv();
        let header = AesECCHeader::new(&eph_pub, &iv);
        let mut out = header.encode();
        let mut body = match aes_stream_encrypt(&secret, &iv, src) {
            Ok(b) => b,
            Err(e) => return Err(e),
        };
        out.append(&mut body);
        proof {
            assert(out@ =~= spec_hybrid_ct(hex_decoded(self.key@), sk, iv@, src@));
        }
        Ok(out)
    }

    fn decrypt(&self, src: &Vec<u8>) -> (r: Result<Vec<u8>, FileCipherError>) {
        let key_len = self.key.as_str().unicode_len();
        if key_len != 2 * ECC_PRIVATE_KEY_LEN {
            return Err(
                FileCipherError::InvalidKeyLength {
                    expected: 2 * ECC_PRIVATE_KEY_LEN,
                    actual: key_len,
                },
            );
        }
        let server_private = match decode_hex(self.key.as_str()) {
            Ok(v) => v,
            Err(e) => return Err(e),
        };
        let header = match AesECCHeader::try_from(src.as_slice()) {
            Ok(h) => h,
            Err(e) => return Err(e),
        };
        if header.format() != Version::V2.code() {
            return Err(
                FileCipherError::VersionMismatch {
                    expected: Version::V2.code(),
                    actual: header.format(),
                },
            );
        }
        let secret = match derive_shared_secret(
            Curve::Secp256k1,
            &server_private,
            header.key_bytes(),
        ) {
            Ok(s) => s,
            Err(e) => return Err(e),
        };
        let body = slice_to_vec(slice_subrange(src.as_slice(), AES_ECC_HEADER_LEN, src.len()));
        let out = match aes_stream_decrypt(&secret, header.iv_bytes(), &body) {
            Ok(o) => o,
            Err(e) => return Err(e),
        };
        proof {
            assert forall|eph_priv: Seq<u8>, iv: Seq<u8>, pt: Seq<u8>|
                (iv.len() == IV_LEN && ec_pub_of(Curve::Secp256k1, eph_priv).len()
                    == ECC_PUBLIC_KEY_LEN && src@ == (#[trigger] spec_hybrid_ct(
                    ec_pub_of(Curve::Secp256k1, hex_decoded(self.key@)),
                    eph_priv,
                    iv,
                    pt,
                ))) implies out@ == pt by {
                let ct = spec_hybrid_ct(
                    ec_pub_of(Curve::Secp256k1, hex_decoded(self.key@)),
                    eph_priv,
                    iv,
                    pt,
                );
                assert(header.key@ =~= ec_pub_of(Curve::Secp256k1, eph_priv));
                assert(header.iv@ =~= iv);
                assert(body@ =~= aes_enc_of(
                    ecdh_of(
                        Curve::Secp256k1,
                        ec_pub_of(Curve::Secp256k1, hex_decoded(self.key@)),
                        eph_priv,
                    ),
                    iv,
                    pt,
                ));
            };
        }
        Ok(out)
    }
}

} // verus!
