//! Typed, recoverable errors for every failure the library can report.

use vstd::prelude::*;

verus! {

/// Failure to obtain a key.
#[derive(Clone, Copy, Debug, PartialEq, Eq, Structural)]
pub enum KeyError {
    /// The key source could not be read, or held too few bytes.
    Io,
    /// The raw bytes do not have the required key length.
    InvalidLength,
    /// The password-based derivation reported an internal failure.
    Derivation,
}

/// Failure to open a framed ciphertext.
#[derive(Clone, Copy, Debug, PartialEq, Eq, Structural)]
pub enum DecryptError {
    /// The input is shorter than the smallest possible framed ciphertext.
    Truncated,
    /// The authentication tag did not verify: the data was corrupted or the
    /// key is wrong. No plaintext is returned in this case.
    AuthenticationFailed,
}

/// Failure of the text layer.
#[derive(Clone, Copy, Debug, PartialEq, Eq, Structural)]
pub enum CodecError {
    /// The input is not a standard base64 encoding.
    Base64,
    /// The decoded bytes failed to decrypt.
    Decrypt(DecryptError),
    /// Decryption succeeded but produced bytes that are not valid UTF-8.
    Utf8,
}

/// The category a failure of the library falls under.
#[derive(Clone, Copy, Debug, PartialEq, Eq, Structural)]
pub enum ErrorKind {
    Key(KeyError),
    Decrypt(DecryptError),
    Codec(CodecError),
}

/// Any failure of the library as one value, for a caller that reports
/// failures uniformly.
#[derive(Clone, Copy, Debug, PartialEq, Eq, Structural)]
pub struct EncryptionError {
    pub kind: ErrorKind,
}

impl EncryptionError {
    /// Wraps a key failure.
    pub fn key(e: KeyError) -> (r: Self)
        ensures
            r.kind == ErrorKind::Key(e),
    {
        EncryptionError { kind: ErrorKind::Key(e) }
    }

    /// Wraps a decryption failure.
    pub fn decrypt(e: DecryptError) -> (r: Self)
        ensures
            r.kind == ErrorKind::Decrypt(e),
    {
        EncryptionError { kind: ErrorKind::Decrypt(e) }
    }

    /// Wraps a text-layer failure.
    pub fn codec(e: CodecError) -> (r: Self)
        ensures
            r.kind == ErrorKind::Codec(e),
    {
        EncryptionError { kind: ErrorKind::Codec(e) }
    }

    /// A short human-readable description of the failure.
    pub fn message(&self) -> &'static str {
        match self.kind {
            ErrorKind::Key(KeyError::Io) => "failed to read key",
            ErrorKind::Key(KeyError::InvalidLength) => "key has the wrong length",
            ErrorKind::Key(KeyError::Derivation) => "failed to derive key from password",
            ErrorKind::Decrypt(DecryptError::Truncated) => "ciphertext is truncated",
            ErrorKind::Decrypt(DecryptError::AuthenticationFailed) => {
                "failed to decrypt ciphertext"
            },
            ErrorKind::Codec(CodecError::Base64) => "ciphertext is not valid base64",
            ErrorKind::Codec(CodecError::Decrypt(DecryptError::Truncated)) => {
                "ciphertext is truncated"
            },
            ErrorKind::Codec(CodecError::Decrypt(DecryptError::AuthenticationFailed)) => {
                "failed to decrypt ciphertext"
            },
            ErrorKind::Codec(CodecError::Utf8) => "decrypted message is not valid UTF-8",
        }
    }
}

} // verus!
