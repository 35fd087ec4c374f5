//! The fixed-width binary header codec.
//!
//! Every file starts with a generic prefix: a fixed magic tag (the ASCII bytes
//! of `rs_file_cipher`) followed by the format code as a two-byte big-endian
//! integer. The hybrid format's header additionally carries the sender's
//! ephemeral public key and a 16-byte initialization vector. Field order and
//! endianness are part of the wire contract; a header's width is fixed by its
//! format code alone, so magic and version are validated before any
//! length-dependent field is read.

use vstd::prelude::*;
use vstd::slice::{slice_index_get, slice_subrange, slice_to_vec};
use crate::error::FileCipherError;
use crate::version::Version;

verus! {

/// Length of the magic tag.
pub const MAGIC_BYTES_LEN: usize = 14;

/// Width of the generic prefix, and so of the whole XOR-format header: the
/// magic tag plus the two-byte format code.
pub const HEADER_LEN: usize = 16;

/// Width of a raw elliptic-curve public key (both supported curves).
pub const ECC_PUBLIC_KEY_LEN: usize = 64;

/// Width of a raw elliptic-curve private key (both supported curves).
pub const ECC_PRIVATE_KEY_LEN: usize = 32;

/// Width of the initialization vector.
pub const IV_LEN: usize = 16;

/// Fixed width of the hybrid format's header: prefix, public key, IV.
pub const AES_ECC_HEADER_LEN: usize = 96;

/// The magic tag: the ASCII bytes of `rs_file_cipher`.
pub open spec fn spec_magic() -> Seq<u8> {
    seq![
        0x72u8, 0x73u8, 0x5fu8, 0x66u8, 0x69u8, 0x6cu8, 0x65u8, 0x5fu8, 0x63u8, 0x69u8, 0x70u8,
        0x68u8, 0x65u8, 0x72u8,
    ]
}

/// The magic tag as a buffer.
pub fn magic_bytes() -> (v: Vec<u8>)
    ensures
        v@ =~= spec_magic(),
{
    let mut v: Vec<u8> = Vec::new();
    v.push(0x72);
    v.push(0x73);
    v.push(0x5f);
    v.push(0x66);
    v.push(0x69);
    v.push(0x6c);
    v.push(0x65);
    v.push(0x5f);
    v.push(0x63);
    v.push(0x69);
    v.push(0x70);
    v.push(0x68);
    v.push(0x65);
    v.push(0x72);
    v
}

/// A 16-bit value in big-endian byte order.
pub open spec fn spec_be16(v: u16) -> Seq<u8> {
    seq![(v / 256) as u8, (v % 256) as u8]
}

/// The 16-bit value two big-endian bytes stand for.
pub open spec fn spec_u16_from_be(b0: u8, b1: u8) -> u16 {
    ((b0 as int) * 256 + (b1 as int)) as u16
}

/// Reading back the two bytes of a big-endian 16-bit value yields the value.
pub proof fn lemma_be16_round_trip(v: u16)
    ensures
        spec_u16_from_be(spec_be16(v)[0], spec_be16(v)[1]) == v,
{
    assert(((v as int / 256) * 256 + v as int % 256) == v as int) by {
        vstd::arithmetic::div_mod::lemma_fundamental_div_mod(v as int, 256);
    };
}

/// The serialized generic prefix: the magic tag, then the format code.
pub open spec fn spec_prefix_bytes(code: u16) -> Seq<u8> {
    spec_magic() + spec_be16(code)
}

/// Decoding a serialized prefix, whatever follows it, yields the format code
/// it was written with.
pub proof fn lemma_prefix_decode(code: u16, rest: Seq<u8>, width: usize)
    requires
        HEADER_LEN <= width,
        width <= HEADER_LEN + rest.len(),
    ensures
        spec_decode_prefix(spec_prefix_bytes(code) + rest, width) == Ok::<u16, FileCipherError>(
            code,
        ),
{
    let b = spec_prefix_bytes(code) + rest;
    assert(b.subrange(0, MAGIC_BYTES_LEN as int) =~= spec_magic());
    lemma_be16_round_trip(code);
    assert(b[MAGIC_BYTES_LEN as int] == spec_be16(code)[0]);
    assert(b[MAGIC_BYTES_LEN as int + 1] == spec_be16(code)[1]);
}

/// What decoding the generic prefix of `b` yields when the header being read
/// is `width` bytes wide: the available bytes are measured against the fixed
/// width first, then the magic tag is compared, then the format code is read.
pub open spec fn spec_decode_prefix(b: Seq<u8>, width: usize) -> Result<u16, FileCipherError> {
    if b.len() < width {
        Err(FileCipherError::TruncatedHeader { expected: width, actual: b.len() as usize })
    } else if b.subrange(0, MAGIC_BYTES_LEN as int) != spec_magic() {
        Err(FileCipherError::BadMagic)
    } else {
        Ok(spec_u16_from_be(b[MAGIC_BYTES_LEN as int], b[MAGIC_BYTES_LEN as int + 1]))
    }
}

/// Decodes the generic prefix of a header whose fixed width is `width`.
pub fn decode_prefix(bytes: &[u8], width: usize) -> (r: Result<u16, FileCipherError>)
    requires
        HEADER_LEN <= width,
    ensures
        r == spec_decode_prefix(bytes@, width),
{
    if bytes.len() < width {
        return Err(FileCipherError::TruncatedHeader { expected: width, actual: bytes.len() });
    }
    let magic = magic_bytes();
    let mut i: usize = 0;
    while i < MAGIC_BYTES_LEN
        invariant
            i <= MAGIC_BYTES_LEN,
            magic@ =~= spec_magic(),
            HEADER_LEN <= width <= bytes@.len(),
            forall|j: int| 0 <= j < i ==> #[trigger] bytes@[j] == spec_magic()[j],
        decreases MAGIC_BYTES_LEN - i,
    {
        if *slice_index_get(bytes, i) != magic[i] {
            proof {
                assert(bytes@.subrange(0, MAGIC_BYTES_LEN as int)[i as int] != spec_magic()[i as int]);
            }
            return Err(FileCipherError::BadMagic);
        }
        i = i + 1;
    }
    proof {
        assert(bytes@.subrange(0, MAGIC_BYTES_LEN as int) =~= spec_magic());
    }
    let b0 = *slice_index_get(bytes, 14);
    let b1 = *slice_index_get(bytes, 15);
    Ok((b0 as u16) * 256 + (b1 as u16))
}

/// What decoding the generic prefix and looking the format code up in the
/// version registry yields.
pub open spec fn spec_decode_version(b: Seq<u8>) -> Result<Version, FileCipherError> {
    match spec_decode_prefix(b, HEADER_LEN) {
        Ok(code) => Version::spec_from_code(code),
        Err(e) => Err(e),
    }
}

/// The version registry's generic entry: decodes magic and format code, and
/// resolves the code to the variant responsible for the rest of the file.
pub fn decode_version(bytes: &[u8]) -> (r: Result<Version, FileCipherError>)
    ensures
        r == spec_decode_version(bytes@),
{
    match decode_prefix(bytes, HEADER_LEN) {
        Ok(code) => Version::try_from(code),
        Err(e) => Err(e),
    }
}

/// The fixed header width of each registered format.
pub open spec fn spec_header_len(v: Version) -> usize {
    match v {
        Version::V1 => HEADER_LEN,
        Version::V2 => AES_ECC_HEADER_LEN,
    }
}

/// The executable counterpart of [`spec_header_len`].
pub fn header_len(v: Version) -> (n: usize)
    ensures
        n == spec_header_len(v),
{
    match v {
        Version::V1 => HEADER_LEN,
        Version::V2 => AES_ECC_HEADER_LEN,
    }
}

/// The header of the XOR format: the generic prefix alone.
#[derive(Debug, Clone, Copy, PartialEq, Eq, Structural)]
pub struct XorHeader {
    pub format: u16,
}

/// What decoding an XOR-format header yields: the prefix taxonomy, then the
/// format code resolved against the registry.
pub open spec fn spec_xor_header_decode(b: Seq<u8>) -> Result<XorHeader, FileCipherError> {
    match spec_decode_prefix(b, HEADER_LEN) {
        Ok(code) => match Version::spec_from_code(code) {
            Ok(_) => Ok(XorHeader { format: code }),
            Err(e) => Err(e),
        },
        Err(e) => Err(e),
    }
}

impl XorHeader {
    /// A fresh header carrying the XOR format's code.
    pub fn new() -> (h: Self)
        ensures
            h.format == Version::V1.spec_code(),
    {
        XorHeader { format: Version::V1.code() }
    }

    /// The format code this header carries.
    pub fn format(&self) -> (c: u16)
        ensures
            c == self.format,
    {
        self.format
    }

    /// Serializes the header: magic tag, then the format code big-endian.
    pub fn encode(&self) -> (r: Vec<u8>)
        ensures
            r@ =~= spec_prefix_bytes(self.format),
            r@.len() == HEADER_LEN,
    {
        let mut r = magic_bytes();
        r.push((self.format / 256) as u8);
        r.push((self.format % 256) as u8);
        r
    }

    /// Decodes a header from the front of `bytes`; bytes past the fixed
    /// width are ignored.
    pub fn try_from(bytes: &[u8]) -> (r: Result<Self, FileCipherError>)
        ensures
            r == spec_xor_header_decode(bytes@),
    {
        let code = match decode_prefix(bytes, HEADER_LEN) {
            Ok(code) => code,
            Err(e) => return Err(e),
        };
        match Version::try_from(code) {
            Ok(_) => Ok(XorHeader { format: code }),
            Err(e) => Err(e),
        }
    }
}

/// The header of the hybrid format: the generic prefix, the sender's
/// ephemeral public key, and the initialization vector.
#[derive(Debug, Clone, PartialEq, Eq)]
pub struct AesECCHeader {
    pub format: u16,
    pub key: Vec<u8>,
    pub iv: Vec<u8>,
}

/// The serialized hybrid header: prefix, then key and IV verbatim.
pub open spec fn spec_aes_ecc_header_bytes(code: u16, key: Seq<u8>, iv: Seq<u8>) -> Seq<u8> {
    spec_magic() + spec_be16(code) + key + iv
}

/// What decoding a hybrid-format header yields: the prefix taxonomy measured
/// against the hybrid width, the format code resolved against the registry,
/// and then the fixed-width key and IV fields.
pub open spec fn spec_aes_ecc_header_decode(b: Seq<u8>) -> Result<
    (u16, Seq<u8>, Seq<u8>),
    FileCipherError,
> {
    match spec_decode_prefix(b, AES_ECC_HEADER_LEN) {
        Ok(code) => match Version::spec_from_code(code) {
            Ok(_) => Ok(
                (
                    code,
                    b.subrange(HEADER_LEN as int, (HEADER_LEN + ECC_PUBLIC_KEY_LEN) as int),
                    b.subrange((HEADER_LEN + ECC_PUBLIC_KEY_LEN) as int, AES_ECC_HEADER_LEN as int),
                ),
            ),
            Err(e) => Err(e),
        },
        Err(e) => Err(e),
    }
}

impl AesECCHeader {
    /// The key and IV fields have their fixed wire widths.
    pub open spec fn wf(self) -> bool {
        self.key@.len() == ECC_PUBLIC_KEY_LEN && self.iv@.len() == IV_LEN
    }

    /// A fresh header carrying the hybrid format's code and the given
    /// ephemeral public key and IV.
    pub fn new(public_key: &Vec<u8>, iv: &Vec<u8>) -> (h: Self)
        requires
            public_key@.len() == ECC_PUBLIC_KEY_LEN,
            iv@.len() == IV_LEN,
        ensures
            h.wf(),
            h.format == Version::V2.spec_code(),
            h.key@ == public_key@,
            h.iv@ == iv@,
    {
        AesECCHeader {
            format: Version::V2.code(),
            key: slice_to_vec(public_key.as_slice()),
            iv: slice_to_vec(iv.as_slice()),
        }
    }

    /// The format code this header carries.
    pub fn format(&self) -> (c: u16)
        ensures
            c == self.format,
    {
        self.format
    }

    /// The ephemeral public key field.
    pub fn key_bytes(&self) -> (k: &Vec<u8>)
        ensures
            k@ == self.key@,
    {
        &self.key
    }

    /// The initialization-vector field.
    pub fn iv_bytes(&self) -> (iv: &Vec<u8>)
        ensures
            iv@ == self.iv@,
    {
        &self.iv
    }

    /// Serializes the header: magic, format code, key, IV, in that order.
    pub fn encode(&self) -> (r: Vec<u8>)
        requires
            self.wf(),
        ensures
            r@ =~= spec_aes_ecc_header_bytes(self.format, self.key@, self.iv@),
            r@.len() == AES_ECC_HEADER_LEN,
    {
        let mut r = magic_bytes();
        r.push((self.format / 256) as u8);
        r.push((self.format % 256) as u8);
        r.extend_from_slice(self.key.as_slice());
        r.extend_from_slice(self.iv.as_slice());
        r
    }

    /// Decodes a header from the front of `bytes`; bytes past the fixed
    /// width (the body) are ignored.
    pub fn try_from(bytes: &[u8]) -> (r: Result<Self, FileCipherError>)
        ensures
            r matches Ok(h) ==> spec_aes_ecc_header_decode(bytes@) == Ok::<
                (u16, Seq<u8>, Seq<u8>),
                FileCipherError,
            >((h.format, h.key@, h.iv@)) && h.wf(),
            r matches Err(e) ==> spec_aes_ecc_header_decode(bytes@) == Err::<
                (u16, Seq<u8>, Seq<u8>),
                FileCipherError,
            >(e),
    {
        let code = match decode_prefix(bytes, AES_ECC_HEADER_LEN) {
            Ok(code) => code,
            Err(e) => return Err(e),
        };
        match Version::try_from(code) {
            Ok(_) => {
                let key = slice_to_vec(slice_subrange(bytes, HEADER_LEN, HEADER_LEN
                    + ECC_PUBLIC_KEY_LEN));
                let iv = slice_to_vec(slice_subrange(bytes, HEADER_LEN + ECC_PUBLIC_KEY_LEN,
                    AES_ECC_HEADER_LEN));
                Ok(AesECCHeader { format: code, key, iv })
            },
            Err(e) => Err(e),
        }
    }
}

} // verus!
