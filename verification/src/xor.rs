//! The XOR cipher: format `V1`.
//!
//! Configuration is a single non-zero key byte; every body byte is XORed with
//! it. The transform is stateless per byte and self-inverse, so `encrypt` and
//! `decrypt` apply the identical operation once the header has been written
//! or consumed, and chunk boundaries cannot affect the output.

use vstd::prelude::*;
use crate::cipher::Cipher;
use crate::error::FileCipherError;
use crate::header::{
    HEADER_LEN, XorHeader, lemma_prefix_decode, spec_prefix_bytes, spec_xor_header_decode,
};
use crate::version::Version;

verus! {

/// Every byte XORed with the key byte `k`.
pub open spec fn xor_seq(b: Seq<u8>, k: u8) -> Seq<u8> {
    Seq::new(b.len(), |i: int| b[i] ^ k)
}

/// XOR with a fixed key is an involution: applying the transform twice gives
/// back the input.
pub proof fn lemma_xor_involution(b: Seq<u8>, k: u8)
    ensures
        xor_seq(xor_seq(b, k), k) =~= b,
{
    assert forall|i: int| 0 <= i < b.len() implies xor_seq(xor_seq(b, k), k)[i] == b[i] by {
        let x = b[i];
        assert((x ^ k) ^ k == x) by (bit_vector);
    };
}

/// The transform is stateless per byte, so chunk boundaries cannot affect the
/// output: transforming a concatenation is concatenating the transforms.
pub proof fn lemma_xor_seq_concat(a: Seq<u8>, b: Seq<u8>, k: u8)
    ensures
        xor_seq(a + b, k) =~= xor_seq(a, k) + xor_seq(b, k),
{
}

/// What the XOR cipher's encrypt returns, for every input: the `V1` header,
/// then the body XORed byte for byte.
pub open spec fn spec_xor_encrypt(k: u8, src: Seq<u8>) -> Seq<u8> {
    spec_prefix_bytes(Version::V1.spec_code()) + xor_seq(src, k)
}

/// What the XOR cipher's decrypt returns: the header taxonomy, the pin to
/// `V1`, and then the inverse transform of the body.
pub open spec fn spec_xor_decrypt(k: u8, src: Seq<u8>) -> Result<Seq<u8>, FileCipherError> {
    match spec_xor_header_decode(src) {
        Ok(h) => if h.format == Version::V1.spec_code() {
            Ok(xor_seq(src.skip(HEADER_LEN as int), k))
        } else {
            Err(
                FileCipherError::VersionMismatch {
                    expected: Version::V1.spec_code(),
                    actual: h.format,
                },
            )
        },
        Err(e) => Err(e),
    }
}

/// Round trip: decrypting an encryption under the same key byte gives back
/// the plaintext, for every key byte and every byte sequence.
pub proof fn lemma_xor_round_trip(k: u8, b: Seq<u8>)
    ensures
        spec_xor_decrypt(k, spec_xor_encrypt(k, b)) == Ok::<Seq<u8>, FileCipherError>(b),
{
    let ct = spec_xor_encrypt(k, b);
    lemma_prefix_decode(Version::V1.spec_code(), xor_seq(b, k), HEADER_LEN);
    assert(ct.skip(HEADER_LEN as int) =~= xor_seq(b, k));
    lemma_xor_involution(b, k);
    assert(xor_seq(ct.skip(HEADER_LEN as int), k) =~= b);
}

/// The XOR cipher. A zero key byte would make the transform the identity, so
/// it is rejected at configuration time as a caller error.
pub struct XorCipher {
    pub xor: u8,
}

impl XorCipher {
    /// Configures the cipher with the non-zero key byte `xor`.
    pub fn new(xor: u8) -> (c: Self)
        requires
            xor != 0,
        ensures
            c.xor == xor,
            c.wf(),
    {
        XorCipher { xor }
    }
}

impl Cipher for XorCipher {
    open spec fn wf(&self) -> bool {
        self.xor != 0
    }

    open spec fn encrypt_ens(&self, src: Seq<u8>, r: Result<Vec<u8>, FileCipherError>) -> bool {
        r matches Ok(out) && out@ == spec_xor_encrypt(self.xor, src)
    }

    open spec fn decrypt_ens(&self, src: Seq<u8>, r: Result<Vec<u8>, FileCipherError>) -> bool {
        match r {
            Ok(out) => spec_xor_decrypt(self.xor, src) == Ok::<Seq<u8>, FileCipherError>(out@),
            Err(e) => spec_xor_decrypt(self.xor, src) == Err::<Seq<u8>, FileCipherError>(e),
        }
    }

    fn encrypt(&self, src: &Vec<u8>) -> (r: Result<Vec<u8>, FileCipherError>) {
        let header = XorHeader::new();
        let mut out = header.encode();
        let mut i: usize = 0;
        while i < src.len()
            invariant
                i <= src@.len(),
                out@ =~= spec_prefix_bytes(Version::V1.spec_code()) + xor_seq(
                    src@.subrange(0, i as int),
                    self.xor,
                ),
            decreases src@.len() - i,
        {
            out.push(src[i] ^ self.xor);
            proof {
                assert(xor_seq(src@.subrange(0, i as int + 1), self.xor) =~= xor_seq(
                    src@.subrange(0, i as int),
                    self.xor,
                ).push(src@[i as int] ^ self.xor));
            }
            i = i + 1;
        }
        proof {
            assert(src@.subrange(0, src@.len() as int) =~= src@);
        }
        Ok(out)
    }

    fn decrypt(&self, src: &Vec<u8>) -> (r: Result<Vec<u8>, FileCipherError>) {
        let header = match XorHeader::try_from(src.as_slice()) {
            Ok(h) => h,
            Err(e) => return Err(e),
        };
        let version = match Version::try_from(header.format()) {
            Ok(v) => v,
            Err(e) => return Err(e),
        };
        if version != Version::V1 {
            return Err(
                FileCipherError::VersionMismatch {
                    expected: Version::V1.code(),
                    actual: header.format(),
                },
            );
        }
        proof {
            assert(src@.len() >= HEADER_LEN);
        }
        let mut out: Vec<u8> = Vec::new();
        let mut i: usize = HEADER_LEN;
        while i < src.len()
            invariant
                HEADER_LEN <= i <= src@.len(),
                out@ =~= xor_seq(src@.subrange(HEADER_LEN as int, i as int), self.xor),
            decreases src@.len() - i,
        {
            out.push(src[i] ^ self.xor);
            proof {
                assert(xor_seq(src@.subrange(HEADER_LEN as int, i as int + 1), self.xor)
                    =~= xor_seq(src@.subrange(HEADER_LEN as int, i as int), self.xor).push(
                    src@[i as int] ^ self.xor,
                ));
            }
            i = i + 1;
        }
        proof {
            assert(src@.subrange(HEADER_LEN as int, src@.len() as int) =~= src@.skip(
                HEADER_LEN as int,
            ));
        }
        Ok(out)
    }
}

} // verus!
