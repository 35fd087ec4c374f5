//! The streaming AES-256 driver of the hybrid cipher.
//!
//! The block-cipher provider is consumed, not reimplemented: a streaming
//! context is fed the buffer in fixed-size chunks and emits output as it
//! goes; the last partial block and the padding are only emitted by the
//! mandatory finalization step. The ciphertext a key, IV and plaintext
//! determine is named [`aes_enc_of`]; the chunked driver loops are verified
//! against it, so chunk boundaries cannot affect the result.
//!
//! The provider runs AES-256 in ECB mode with PKCS padding, as the `V2` wire
//! format fixes. ECB does not mix the IV into the blocks, so repeated
//! plaintext blocks leak; the IV is still carried for wire compatibility.

use vstd::prelude::*;
use vstd::slice::slice_subrange;
use vstd::string::StringExecFns;
use crate::error::FileCipherError;
use openssl::symm::{Cipher as AesCipher, Crypter, Mode};

verus! {

/// Chunk width of the streaming loops.
pub const BUFFER_SIZE: usize = 4096;

/// The block width of the cipher.
pub const BLOCK_SIZE: usize = 16;

/// openssl's streaming cipher context.
#[verifier::external_type_specification]
#[verifier::external_body]
pub struct ExCrypter(Crypter);

/// The ciphertext that AES-256-ECB with PKCS padding produces from a 32-byte
/// key, an IV and a plaintext: a function of the three arguments alone, the
/// same in every process and on every machine.
pub uninterp spec fn aes_enc_of(key: Seq<u8>, iv: Seq<u8>, plaintext: Seq<u8>) -> Seq<u8>;

/// A streaming AES-256 context, tracking as ghost state the key and IV it
/// was created with, the direction, the bytes fed so far and the bytes
/// emitted so far.
pub struct AesStream {
    inner: Crypter,
    pub key: Ghost<Seq<u8>>,
    pub iv: Ghost<Seq<u8>>,
    pub encrypting: Ghost<bool>,
    pub fed: Ghost<Seq<u8>>,
    pub emitted: Ghost<Seq<u8>>,
}

/// Relies on openssl's `Crypter::new` with `Cipher::aes_256_ecb` and
/// `Crypter::pad(true)`: a fresh streaming AES-256-ECB context with PKCS
/// padding enabled, keyed as given, in the given direction.
#[verifier::external_body]
fn crypter_new(encrypting: bool, key: &Vec<u8>, iv: &Vec<u8>) -> (r: Result<
    Crypter,
    openssl::error::ErrorStack,
>)
    requires
        key@.len() == 32,
        iv@.len() == BLOCK_SIZE,
{
    let mode = if encrypting { Mode::Encrypt } else { Mode::Decrypt };
    let mut inner = Crypter::new(AesCipher::aes_256_ecb(), mode, key, Some(iv))?;
    inner.pad(true);
    Ok(inner)
}

impl AesStream {
    /// A fresh streaming context in the given direction that has been fed
    /// nothing and has emitted nothing.
    fn new(encrypting: bool, key: &Vec<u8>, iv: &Vec<u8>) -> (r: Result<
        AesStream,
        openssl::error::ErrorStack,
    >)
        requires
            key@.len() == 32,
            iv@.len() == BLOCK_SIZE,
        ensures
            r matches Ok(s) ==> s.key@ == key@ && s.iv@ == iv@ && s.encrypting@ == encrypting
                && s.fed@ == Seq::<u8>::empty() && s.emitted@ == Seq::<u8>::empty(),
    {
        match crypter_new(encrypting, key, iv) {
            Ok(inner) => Ok(
                AesStream {
                    inner,
                    key: Ghost(key@),
                    iv: Ghost(iv@),
                    encrypting: Ghost(encrypting),
                    fed: Ghost(Seq::empty()),
                    emitted: Ghost(Seq::empty()),
                },
            ),
            Err(e) => Err(e),
        }
    }

    /// Relies on openssl's `Crypter::update`: feeds `input` to the context
    /// and returns whatever it emits now; full blocks may be emitted at
    /// once, buffered bytes wait for the next call or for finalization. The
    /// output buffer handed to the provider leaves room for one extra block
    /// beyond the input, as the provider requires. The input is bounded by
    /// the chunk width: the provider converts the length to a 32-bit signed
    /// count and panics past that, so an unbounded slice is left out.
    #[verifier::external_body]
    fn update(&mut self, input: &[u8]) -> (r: Result<Vec<u8>, openssl::error::ErrorStack>)
        requires
            input@.len() <= BUFFER_SIZE,
        ensures
            r matches Ok(out) ==> final(self).key@ == old(self).key@ && final(self).iv@ == old(
                self,
            ).iv@ && final(self).encrypting@ == old(self).encrypting@ && final(self).fed@ == old(
                self,
            ).fed@ + input@ && final(self).emitted@ == old(self).emitted@ + out@,
    {
        let mut buf = vec![0u8; input.len() + 16];
        let n = self.inner.update(input, &mut buf)?;
        buf.truncate(n);
        Ok(buf)
    }

    /// Relies on openssl's `Crypter::finalize`. Nothing is stated of the
    /// context's state afterwards; callers drop it. Encrypting: the bytes
    /// emitted so far plus this final block are exactly the padded
    /// AES-256-ECB ciphertext of everything fed, so its length is the
    /// plaintext length rounded up to the next block boundary (PKCS padding
    /// always adds between 1 and 16 bytes). Decrypting: if everything fed is
    /// the ciphertext of some plaintext, finalization succeeds, strips the
    /// padding, and the bytes emitted so far plus this final block are
    /// exactly that plaintext -- block-cipher decryption inverts encryption.
    #[verifier::external_body]
    fn finalize(&mut self) -> (r: Result<Vec<u8>, openssl::error::ErrorStack>)
        ensures
            old(self).encrypting@ ==> (r matches Ok(out) ==> old(self).emitted@ + out@
                == aes_enc_of(old(self).key@, old(self).iv@, old(self).fed@) && (old(self).emitted@
                + out@).len() == 16 * ((old(self).fed@.len() / 16) + 1)),
            !old(self).encrypting@ ==> forall|pt: Seq<u8>|
                old(self).fed@ == aes_enc_of(old(self).key@, old(self).iv@, pt) ==> (r matches Ok(
                    out,
                ) && old(self).emitted@ + out@ == pt),
    {
        let mut buf = vec![0u8; 32];
        let n = self.inner.finalize(&mut buf)?;
        buf.truncate(n);
        Ok(buf)
    }
}

/// The text of the one error the streaming drivers make up themselves. It is
/// a constant: no key, secret or data byte can reach an error message.
pub open spec fn spec_cipher_failure_text() -> Seq<char> {
    "block-cipher provider failure"@
}

/// Whether `e` is the drivers' provider-failure error, carrying exactly the
/// constant text of [`spec_cipher_failure_text`].
pub open spec fn is_cipher_failure(e: FileCipherError) -> bool {
    e matches FileCipherError::Other(m) && m@ == spec_cipher_failure_text()
}

/// The error returned when the block-cipher provider fails.
fn cipher_failure() -> (e: FileCipherError)
    ensures
        is_cipher_failure(e),
{
    FileCipherError::Other(String::from_str("block-cipher provider failure"))
}

/// Encrypts a whole buffer through the streaming context in fixed-size
/// chunks. On success the result is exactly the padded ciphertext of the
/// whole input, whose length is the input length rounded up to the next
/// block boundary.
pub fn aes_stream_encrypt(key: &Vec<u8>, iv: &Vec<u8>, input: &Vec<u8>) -> (r: Result<
    Vec<u8>,
    FileCipherError,
>)
    requires
        key@.len() == 32,
        iv@.len() == BLOCK_SIZE,
    ensures
        r matches Ok(out) ==> out@ == aes_enc_of(key@, iv@, input@) && out@.len() == 16 * ((
        input@.len() / 16) + 1),
        r matches Err(e) ==> is_cipher_failure(e),
{
    let mut stream = match AesStream::new(true, key, iv) {
        Ok(s) => s,
        Err(_) => return Err(cipher_failure()),
    };
    let mut out: Vec<u8> = Vec::new();
    let mut i: usize = 0;
    proof {
        assert(input@.subrange(0, 0) =~= Seq::<u8>::empty());
    }
    while i < input.len()
        invariant
            i <= input@.len(),
            stream.key@ == key@,
            stream.iv@ == iv@,
            stream.encrypting@ == true,
            stream.fed@ == input@.subrange(0, i as int),
            out@ == stream.emitted@,
        decreases input@.len() - i,
    {
        let end = if input.len() - i < BUFFER_SIZE {
            input.len()
        } else {
            i + BUFFER_SIZE
        };
        let chunk = slice_subrange(input.as_slice(), i, end);
        match stream.update(chunk) {
            Ok(mut part) => out.append(&mut part),
            Err(_) => return Err(cipher_failure()),
        }
        proof {
            assert(input@.subrange(0, i as int) + input@.subrange(i as int, end as int) =~= input@
                .subrange(0, end as int));
        }
        i = end;
    }
    proof {
        assert(input@.subrange(0, input@.len() as int) =~= input@);
    }
    match stream.finalize() {
        Ok(mut tail) => {
            out.append(&mut tail);
            Ok(out)
        },
        Err(_) => Err(cipher_failure()),
    }
}

/// Decrypts a whole buffer through the streaming context in fixed-size
/// chunks. Whenever the call succeeds, the result is the unique plaintext
/// whose padded ciphertext under this key and IV is the input -- so
/// decrypting what [`aes_stream_encrypt`] produced gives back its input.
pub fn aes_stream_decrypt(key: &Vec<u8>, iv: &Vec<u8>, input: &Vec<u8>) -> (r: Result<
    Vec<u8>,
    FileCipherError,
>)
    requires
        key@.len() == 32,
        iv@.len() == BLOCK_SIZE,
    ensures
        r matches Ok(out) ==> forall|pt: Seq<u8>|
            input@ == aes_enc_of(key@, iv@, pt) ==> out@ == pt,
        r matches Err(e) ==> is_cipher_failure(e),
{
    let mut stream = match AesStream::new(false, key, iv) {
        Ok(s) => s,
        Err(_) => return Err(cipher_failure()),
    };
    let mut out: Vec<u8> = Vec::new();
    let mut i: usize = 0;
    proof {
        assert(input@.subrange(0, 0) =~= Seq::<u8>::empty());
    }
    while i < input.len()
        invariant
            i <= input@.len(),
            stream.key@ == key@,
            stream.iv@ == iv@,
            stream.encrypting@ == false,
            stream.fed@ == input@.subrange(0, i as int),
            out@ == stream.emitted@,
        decreases input@.len() - i,
    {
        let end = if input.len() - i < BUFFER_SIZE {
            input.len()
        } else {
            i + BUFFER_SIZE
        };
        let chunk = slice_subrange(input.as_slice(), i, end);
        match stream.update(chunk) {
            Ok(mut part) => out.append(&mut part),
            Err(_) => return Err(cipher_failure()),
        }
        proof {
            assert(input@.subrange(0, i as int) + input@.subrange(i as int, end as int) =~= input@
                .subrange(0, end as int));
        }
        i = end;
    }
    proof {
        assert(input@.subrange(0, input@.len() as int) =~= input@);
    }
    match stream.finalize() {
        Ok(mut tail) => {
            out.append(&mut tail);
            Ok(out)
        },
        Err(_) => Err(cipher_failure()),
    }
}

} // verus!
