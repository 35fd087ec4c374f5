//! The format versions of the on-disk layout.
//!
//! A format code is stable forever once shipped: decoding an unknown code is a
//! hard failure, never a silent fallback.

use vstd::prelude::*;
use crate::error::FileCipherError;

verus! {

/// One entry per on-disk layout: `V1` is the byte-XOR format, `V2` the hybrid
/// elliptic-curve + AES format.
#[derive(Debug, Clone, Copy, PartialEq, Eq, Structural)]
pub enum Version {
    V1,
    V2,
}

impl Version {
    /// The two-byte format code written after the magic tag.
    pub open spec fn spec_code(self) -> u16 {
        match self {
            Version::V1 => 1,
            Version::V2 => 2,
        }
    }

    /// The executable counterpart of [`Self::spec_code`].
    pub fn code(self) -> (c: u16)
        ensures
            c == self.spec_code(),
    {
        match self {
            Version::V1 => 1,
            Version::V2 => 2,
        }
    }

    /// Which version a format code names, if any.
    pub open spec fn spec_from_code(code: u16) -> Result<Version, FileCipherError> {
        if code == 1 {
            Ok(Version::V1)
        } else if code == 2 {
            Ok(Version::V2)
        } else {
            Err(FileCipherError::UnsupportedVersion(code))
        }
    }

    /// Decodes a format code, failing on any code outside the registry.
    pub fn try_from(code: u16) -> (r: Result<Version, FileCipherError>)
        ensures
            r == Self::spec_from_code(code),
    {
        if code == 1 {
            Ok(Version::V1)
        } else if code == 2 {
            Ok(Version::V2)
        } else {
            Err(FileCipherError::UnsupportedVersion(code))
        }
    }
}

} // verus!
