//! The error taxonomy of the library.
//!
//! Every failure of decoding, configuration or key exchange is reported as one
//! of these variants; each carries the data that names the violated invariant
//! (an expected length against the actual one, or the offending format code).
//! The rendered message of each variant is fixed by [`spec_message`], a
//! function of the variant and its fields alone: raw key material can never
//! appear in an error.

use vstd::prelude::*;
use vstd::string::StringExecFns;
use crate::utils::{decimal_string, spec_decimal};

verus! {

/// What can go wrong while encrypting or decrypting a buffer.
#[derive(Debug, Clone, PartialEq, Eq)]
pub enum FileCipherError {
    /// A hex string has an odd length or holds a character outside `0-9a-fA-F`.
    MalformedHex,
    /// Fewer bytes were available than the fixed header width of the
    /// format being decoded.
    TruncatedHeader { expected: usize, actual: usize },
    /// The leading bytes do not equal the magic tag.
    BadMagic,
    /// The format code decodes to no known version.
    UnsupportedVersion(u16),
    /// The decoder is pinned to one version and the file carries another.
    VersionMismatch { expected: u16, actual: u16 },
    /// A configured key string has the wrong length for the selected curve.
    InvalidKeyLength { expected: usize, actual: usize },
    /// The linked elliptic-curve provider does not support the selected curve.
    UnsupportedCurve,
    /// The elliptic-curve provider failed to generate a key pair.
    KeyGenerationFailed,
    /// Shared-secret derivation failed (bad lengths or an invalid point).
    KeyExchangeFailed,
    /// The block-cipher provider reported a failure (for instance a bad
    /// final padding block while decrypting).
    Other(String),
}

/// The text [`FileCipherError::message`] renders: fixed per variant, built
/// from the variant's own fields alone.
pub open spec fn spec_message(e: FileCipherError) -> Seq<char> {
    match e {
        FileCipherError::MalformedHex => "malformed hex string: odd length or a character outside 0-9a-fA-F"@,
        FileCipherError::TruncatedHeader { expected, actual } => "truncated header: need "@
            + spec_decimal(expected as nat) + " bytes, have "@ + spec_decimal(actual as nat),
        FileCipherError::BadMagic => "the input does not start with the file_cipher magic tag"@,
        FileCipherError::UnsupportedVersion(code) => "unsupported format version code "@
            + spec_decimal(code as nat),
        FileCipherError::VersionMismatch { expected, actual } => "the file carries format version "@
            + spec_decimal(actual as nat) + ", this cipher handles only version "@ + spec_decimal(
            expected as nat,
        ),
        FileCipherError::InvalidKeyLength { expected, actual } => "the key string must be "@
            + spec_decimal(expected as nat) + " hex characters, got "@ + spec_decimal(
            actual as nat,
        ),
        FileCipherError::UnsupportedCurve => "the selected curve is not supported by this build"@,
        FileCipherError::KeyGenerationFailed => "the elliptic-curve provider failed to generate a key pair"@,
        FileCipherError::KeyExchangeFailed => "shared-secret derivation failed: wrong key widths or an invalid point"@,
        FileCipherError::Other(message) => message@,
    }
}

impl FileCipherError {
    /// A short human-readable description of the failure, naming the
    /// violated invariant: exactly the text of [`spec_message`].
    pub fn message(&self) -> (r: String)
        ensures
            r@ == spec_message(*self),
    {
        match self {
            FileCipherError::MalformedHex => String::from_str(
                "malformed hex string: odd length or a character outside 0-9a-fA-F",
            ),
            FileCipherError::TruncatedHeader { expected, actual } => {
                let mut s = String::from_str("truncated header: need ");
                let e = decimal_string(*expected as u64);
                s.append(e.as_str());
                s.append(" bytes, have ");
                let a = decimal_string(*actual as u64);
                s.append(a.as_str());
                proof {
                    assert(s@ =~= spec_message(*self));
                }
                s
            },
            FileCipherError::BadMagic => String::from_str(
                "the input does not start with the file_cipher magic tag",
            ),
            FileCipherError::UnsupportedVersion(code) => {
                let mut s = String::from_str("unsupported format version code ");
                let c = decimal_string(*code as u64);
                s.append(c.as_str());
                proof {
                    assert(s@ =~= spec_message(*self));
                }
                s
            },
            FileCipherError::VersionMismatch { expected, actual } => {
                let mut s = String::from_str("the file carries format version ");
                let a = decimal_string(*actual as u64);
                s.append(a.as_str());
                s.append(", this cipher handles only version ");
                let e = decimal_string(*expected as u64);
                s.append(e.as_str());
                proof {
                    assert(s@ =~= spec_message(*self));
                }
                s
            },
            FileCipherError::InvalidKeyLength { expected, actual } => {
                let mut s = String::from_str("the key string must be ");
                let e = decimal_string(*expected as u64);
                s.append(e.as_str());
                s.append(" hex characters, got ");
                let a = decimal_string(*actual as u64);
                s.append(a.as_str());
                proof {
                    assert(s@ =~= spec_message(*self));
                }
                s
            },
            FileCipherError::UnsupportedCurve => String::from_str(
                "the selected curve is not supported by this build",
            ),
            FileCipherError::KeyGenerationFailed => String::from_str(
                "the elliptic-curve provider failed to generate a key pair",
            ),
            FileCipherError::KeyExchangeFailed => String::from_str(
                "shared-secret derivation failed: wrong key widths or an invalid point",
            ),
            FileCipherError::Other(message) => message.clone(),
        }
    }
}

} // verus!
