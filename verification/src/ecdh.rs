//! The key-exchange adapter.
//!
//! Wraps the linked elliptic-curve provider behind a curve-agnostic contract:
//! key-pair generation and shared-secret derivation, with per-curve size
//! metadata. The shared secret is fixed at 32 bytes to match the symmetric
//! cipher's key size. The correctness anchor of the whole hybrid scheme is
//! Diffie-Hellman symmetry: the secret derived from (A-public, B-private)
//! equals the secret derived from (B-public, A-private); it is stated on the
//! derivation contract.

use vstd::prelude::*;
use crate::error::FileCipherError;
use crate::header::{ECC_PRIVATE_KEY_LEN, ECC_PUBLIC_KEY_LEN};
use crate::utils::{encode_hex, hex_encoded};
use openssl::bn::{BigNum, BigNumContext};
use openssl::ec::{EcGroup, EcKey, EcPoint, PointConversionForm};
use openssl::nid::Nid;

verus! {

/// The curves the adapter can be asked for.
#[derive(Debug, Clone, Copy, PartialEq, Eq, Structural)]
pub enum Curve {
    Secp256k1,
    Secp256r1,
}

impl Curve {
    /// Whether the linked provider supports the curve. Both named curves are
    /// built into the provider this library links against.
    pub open spec fn spec_supported(self) -> bool {
        true
    }

    /// The executable counterpart of [`Self::spec_supported`].
    pub fn supported(self) -> (b: bool)
        ensures
            b == self.spec_supported(),
    {
        true
    }

    /// The raw private-key width of the curve, in bytes.
    pub fn private_key_len(self) -> (n: usize)
        ensures
            n == ECC_PRIVATE_KEY_LEN,
    {
        ECC_PRIVATE_KEY_LEN
    }

    /// The raw public-key width of the curve, in bytes.
    pub fn public_key_len(self) -> (n: usize)
        ensures
            n == ECC_PUBLIC_KEY_LEN,
    {
        ECC_PUBLIC_KEY_LEN
    }
}

/// openssl's error type; the trusted wrappers return it and verified callers
/// map it into the library's taxonomy.
#[verifier::external_type_specification]
#[verifier::external_body]
pub struct ExErrorStack(openssl::error::ErrorStack);

/// The raw 64-byte public key the provider derives from a 32-byte private
/// key on `curve`: the scalar multiple of the curve's generator, a function
/// of the private key alone.
pub uninterp spec fn ec_pub_of(curve: Curve, private_key: Seq<u8>) -> Seq<u8>;

/// The 32-byte shared secret the provider derives on `curve` from a raw
/// remote public key and a local private key: the x-coordinate of the remote
/// point multiplied by the local scalar, a function of the arguments alone.
pub uninterp spec fn ecdh_of(curve: Curve, remote_public: Seq<u8>, local_private: Seq<u8>) -> Seq<
    u8,
>;

/// Relies on openssl's `EcKey::generate` (EC_KEY_generate_key): a fresh
/// random key pair on the curve. The private key is returned as 32
/// big-endian bytes (`BigNumRef::to_vec_padded`); the public key as the 64
/// bytes that follow the leading `0x04` of the SEC1 uncompressed encoding
/// (`EcPointRef::to_bytes`). The public key is determined by the private key
/// alone (it is the scalar multiple of the generator), which is what the
/// name `ec_pub_of` stands for.
#[verifier::external_body]
fn ec_generate_key_raw(curve: Curve) -> (r: Result<(Vec<u8>, Vec<u8>), openssl::error::ErrorStack>)
    ensures
        r matches Ok(kp) ==> kp.0@.len() == 32 && kp.1@ == ec_pub_of(curve, kp.0@) && kp.1@.len()
            == 64,
{
    let nid = match curve {
        Curve::Secp256k1 => Nid::SECP256K1,
        Curve::Secp256r1 => Nid::X9_62_PRIME256V1,
    };
    let group = EcGroup::from_curve_name(nid)?;
    let key = EcKey::generate(&group)?;
    let private_key = key.private_key().to_vec_padded(32)?;
    let mut ctx = BigNumContext::new()?;
    let sec1 = key.public_key().to_bytes(&group, PointConversionForm::UNCOMPRESSED, &mut ctx)?;
    Ok((private_key, sec1[1..].to_vec()))
}

/// Relies on openssl's `EcPointRef::mul2` (EC_POINT_mul) and
/// `EcPointRef::affine_coordinates`: the shared secret is the x-coordinate
/// of `remote_public * local_private`, padded to 32 bytes -- a function of
/// the arguments alone, which is what the name `ecdh_of` stands for. The
/// final ensures clause is Diffie-Hellman symmetry, the documented point of
/// the construction: when the remote key is the public half of some private
/// key `q`, the peer holding `q` and seeing our public key derives the same
/// point, since `(q * G) * d == (d * G) * q`.
#[verifier::external_body]
fn ec_shared_secret_raw(curve: Curve, remote_public: &Vec<u8>, local_private: &Vec<u8>) -> (r:
    Result<Vec<u8>, openssl::error::ErrorStack>)
    requires
        remote_public@.len() == 64,
        local_private@.len() == 32,
    ensures
        r matches Ok(s) ==> s@ == ecdh_of(curve, remote_public@, local_private@) && s@.len() == 32
            && (forall|q: Seq<u8>|
            remote_public@ == ec_pub_of(curve, q) ==> s@ == ecdh_of(
                curve,
                ec_pub_of(curve, local_private@),
                q,
            )),
{
    let nid = match curve {
        Curve::Secp256k1 => Nid::SECP256K1,
        Curve::Secp256r1 => Nid::X9_62_PRIME256V1,
    };
    let group = EcGroup::from_curve_name(nid)?;
    let mut ctx = BigNumContext::new()?;
    let mut sec1 = vec![4u8];
    sec1.extend_from_slice(remote_public);
    let point = EcPoint::from_bytes(&group, &sec1, &mut ctx)?;
    let scalar = BigNum::from_slice(local_private)?;
    let mut shared = EcPoint::new(&group)?;
    shared.mul2(&group, &point, &scalar, &mut ctx)?;
    let (mut x, mut y) = (BigNum::new()?, BigNum::new()?);
    shared.affine_coordinates(&group, &mut x, &mut y, &mut ctx)?;
    x.to_vec_padded(32)
}

/// An ephemeral key pair, both halves hex-encoded: created fresh for every
/// encryption, never persisted.
pub struct UEcckeyPair {
    pub private_key: String,
    pub public_key: String,
}

/// What key-pair generation promises: on success, both strings are the hex
/// encodings of a 32-byte private key and of its 64-byte public counterpart.
pub open spec fn key_pair_ens(curve: Curve, r: Result<UEcckeyPair, FileCipherError>) -> bool {
    &&& (r matches Ok(pair) ==> exists|sk: Seq<u8>|
        {
            &&& sk.len() == ECC_PRIVATE_KEY_LEN
            &&& pair.private_key@ == hex_encoded(sk)
            &&& pair.public_key@ == (#[trigger] hex_encoded(ec_pub_of(curve, sk)))
            &&& ec_pub_of(curve, sk).len() == ECC_PUBLIC_KEY_LEN
        })
    &&& (r matches Err(e) ==> e == FileCipherError::KeyGenerationFailed || e
        == FileCipherError::UnsupportedCurve)
    &&& (!curve.spec_supported() ==> r == Err::<UEcckeyPair, FileCipherError>(
        FileCipherError::UnsupportedCurve,
    ))
}

/// Generates exactly one fresh key pair on `curve`, failing fast with
/// [`FileCipherError::UnsupportedCurve`] for a curve the provider does not
/// support and with [`FileCipherError::KeyGenerationFailed`] when the
/// provider reports failure.
pub fn generate_key_pair(curve: Curve) -> (r: Result<UEcckeyPair, FileCipherError>)
    ensures
        key_pair_ens(curve, r),
{
    if !curve.supported() {
        return Err(FileCipherError::UnsupportedCurve);
    }
    match ec_generate_key_raw(curve) {
        Ok((sk, pk)) => {
            let private_key = encode_hex(sk.as_slice());
            let public_key = encode_hex(pk.as_slice());
            let pair = UEcckeyPair { private_key, public_key };
            proof {
                assert(pair.private_key@ == hex_encoded(sk@) && pair.public_key@ == hex_encoded(
                    ec_pub_of(curve, sk@),
                ));
            }
            Ok(pair)
        },
        Err(_) => Err(FileCipherError::KeyGenerationFailed),
    }
}

/// What shared-secret derivation promises. On success the result is the
/// 32-byte secret `ecdh_of(curve, remote_public, local_private)`; the last
/// conjunct of the success case is Diffie-Hellman symmetry. Length
/// mismatches and provider failures are
/// [`FileCipherError::KeyExchangeFailed`].
pub open spec fn shared_secret_ens(
    curve: Curve,
    local_private: Seq<u8>,
    remote_public: Seq<u8>,
    r: Result<Vec<u8>, FileCipherError>,
) -> bool {
    &&& (!curve.spec_supported() ==> r == Err::<Vec<u8>, FileCipherError>(
        FileCipherError::UnsupportedCurve,
    ))
    &&& (curve.spec_supported() && (local_private.len() != ECC_PRIVATE_KEY_LEN
        || remote_public.len() != ECC_PUBLIC_KEY_LEN) ==> r == Err::<Vec<u8>, FileCipherError>(
        FileCipherError::KeyExchangeFailed,
    ))
    &&& (r matches Ok(s) ==> {
        &&& s@ == ecdh_of(curve, remote_public, local_private)
        &&& s@.len() == 32
        &&& (forall|q: Seq<u8>|
            remote_public == ec_pub_of(curve, q) ==> s@ == ecdh_of(
                curve,
                ec_pub_of(curve, local_private),
                q,
            ))
    })
    &&& (r matches Err(e) ==> e == FileCipherError::UnsupportedCurve || e
        == FileCipherError::KeyExchangeFailed)
}

/// Derives the 32-byte shared secret from a local private key and a remote
/// public key, rejecting wrong key widths before touching the provider.
pub fn derive_shared_secret(curve: Curve, local_private: &Vec<u8>, remote_public: &Vec<u8>) -> (r:
    Result<Vec<u8>, FileCipherError>)
    ensures
        shared_secret_ens(curve, local_private@, remote_public@, r),
{
    if !curve.supported() {
        return Err(FileCipherError::UnsupportedCurve);
    }
    if local_private.len() != ECC_PRIVATE_KEY_LEN || remote_public.len() != ECC_PUBLIC_KEY_LEN {
        return Err(FileCipherError::KeyExchangeFailed);
    }
    match ec_shared_secret_raw(curve, remote_public, local_private) {
        Ok(secret) => Ok(secret),
        Err(_) => Err(FileCipherError::KeyExchangeFailed),
    }
}

/// Generates a fresh key pair on secp256k1.
pub fn uecc_mkae_key_with_secp256k1() -> (r: Result<UEcckeyPair, FileCipherError>)
    ensures
        key_pair_ens(Curve::Secp256k1, r),
{
    generate_key_pair(Curve::Secp256k1)
}

/// Generates a fresh key pair on secp256r1.
pub fn uecc_mkae_key_with_secp256r1() -> (r: Result<UEcckeyPair, FileCipherError>)
    ensures
        key_pair_ens(Curve::Secp256r1, r),
{
    generate_key_pair(Curve::Secp256r1)
}

/// Derives the secp256k1 shared secret from a raw public key and a raw
/// private key.
pub fn ucc_shared_secret_whith_secp256k1(pub_key_buf: &Vec<u8>, priv_key_buf: &Vec<u8>) -> (r:
    Result<Vec<u8>, FileCipherError>)
    ensures
        shared_secret_ens(Curve::Secp256k1, priv_key_buf@, pub_key_buf@, r),
{
    derive_shared_secret(Curve::Secp256k1, priv_key_buf, pub_key_buf)
}

/// Derives the secp256r1 shared secret from a raw public key and a raw
/// private key.
pub fn ucc_shared_secret_whith_secp256r1(pub_key_buf: &Vec<u8>, priv_key_buf: &Vec<u8>) -> (r:
    Result<Vec<u8>, FileCipherError>)
    ensures
        shared_secret_ens(Curve::Secp256r1, priv_key_buf@, pub_key_buf@, r),
{
    derive_shared_secret(Curve::Secp256r1, priv_key_buf, pub_key_buf)
}

} // verus!
