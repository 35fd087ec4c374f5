//! A versioned file-encryption library with two wire formats: a symmetric
//! byte-XOR scheme (format `V1`) and a hybrid scheme that combines
//! elliptic-curve Diffie-Hellman key agreement with AES-256 (format `V2`).
//!
//! Every file starts with a fixed magic tag and a two-byte big-endian format
//! code; the remaining header fields and the body layout are fixed by the
//! format code. The ciphers operate on in-memory byte buffers; reading and
//! writing files is the caller's concern.

pub mod aes;
pub mod aes_ecc;
pub mod cipher;
pub mod ecdh;
pub mod error;
pub mod header;
pub mod utils;
pub mod version;
pub mod xor;
