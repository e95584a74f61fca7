//! Symmetric authenticated encryption for short messages and files.
//!
//! The library builds on the XChaCha20-Poly1305 construction of libsodium
//! (through the `sodiumoxide` crate): a key is read from raw bytes, generated
//! fresh, or derived from a password, and a payload is sealed under a fresh
//! random nonce into a self-contained framed ciphertext, `nonce || sealed`.
//! A text layer wraps the framed bytes in standard base64 for exchange as
//! strings. Every decryption fails closed: tampering, truncation and a wrong
//! key are reported as typed errors, never as partial plaintext.

use vstd::prelude::*;

pub mod aead;
pub mod errors;
pub mod keys;
mod sodium;
pub mod text;

pub use aead::{decrypt, decrypt_file, encrypt, encrypt_file};
pub use errors::{CodecError, DecryptError, EncryptionError, ErrorKind, KeyError};
pub use keys::{derive_key_from_password, gen_key, Key};
pub use text::{decrypt_text, encrypt_text};

verus! {

/// Number of bytes in a symmetric key (XChaCha20-Poly1305).
pub const KEY_LEN: usize = 32;

/// Number of bytes in a nonce (the extended 192-bit nonce).
pub const NONCE_LEN: usize = 24;

/// Number of bytes in the authentication tag appended by sealing.
pub const TAG_LEN: usize = 16;

/// Number of bytes in the salt of the password-based key derivation.
pub const SALT_LEN: usize = 32;

} // verus!
