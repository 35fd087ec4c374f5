//! The cipher capability.
//!
//! Both variants transform a whole in-memory buffer: `encrypt` writes the
//! format header and then the transformed body, `decrypt` validates the
//! fixed-width header and then inverts the transform. What exactly each
//! promises is stated per variant through the two contract spec functions, so
//! code generic over the capability still gets the variant's full contract.

use vstd::prelude::*;
use crate::error::FileCipherError;

verus! {

/// The capability every cipher variant implements.
pub trait Cipher {
    /// The variant's configuration is usable.
    spec fn wf(&self) -> bool;

    /// The variant's exact contract for [`Self::encrypt`].
    spec fn encrypt_ens(&self, src: Seq<u8>, r: Result<Vec<u8>, FileCipherError>) -> bool;

    /// The variant's exact contract for [`Self::decrypt`].
    spec fn decrypt_ens(&self, src: Seq<u8>, r: Result<Vec<u8>, FileCipherError>) -> bool;

    /// Writes the format header, then streams the transformed body.
    fn encrypt(&self, src: &Vec<u8>) -> (r: Result<Vec<u8>, FileCipherError>)
        requires
            self.wf(),
        ensures
            self.encrypt_ens(src@, r),
    ;

    /// Reads and validates the fixed-width header, then streams the inverse
    /// transform of the body.
    fn decrypt(&self, src: &Vec<u8>) -> (r: Result<Vec<u8>, FileCipherError>)
        requires
            self.wf(),
        ensures
            self.decrypt_ens(src@, r),
    ;
}

} // verus!
