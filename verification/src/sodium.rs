//! Trusted wrappers around the libsodium primitives (`sodiumoxide` crate).
//!
//! Everything the library assumes of the outside cryptographic code is
//! collected here: each wrapper makes exactly one call and states, over the
//! uninterpreted names below, what that call's source and documentation show.

use vstd::prelude::*;

use crate::{KEY_LEN, NONCE_LEN, SALT_LEN, TAG_LEN};
use sodiumoxide::base64;
use sodiumoxide::crypto::aead::xchacha20poly1305_ietf as aead_impl;
use sodiumoxide::crypto::pwhash;

verus! {

/// The sealed bytes (ciphertext plus tag) that XChaCha20-Poly1305 produces
/// for message `m` under nonce `n` and key `k`, with no associated data.
/// Sealing is deterministic: a function of these three arguments alone.
pub uninterp spec fn seal_bytes(m: Seq<u8>, n: Seq<u8>, k: Seq<u8>) -> Seq<u8>;

/// The standard base64 encoding (RFC 4648, with padding) of the bytes `b`.
pub uninterp spec fn base64_of(b: Seq<u8>) -> Seq<char>;

/// The key that libsodium's default password hash (scrypt, interactive
/// limits) derives from password `pw` and salt `salt`, at the key length
/// this library uses. Derivation is deterministic in both arguments.
pub uninterp spec fn scrypt_of(pw: Seq<u8>, salt: Seq<u8>) -> Seq<u8>;

/// Relies on sodiumoxide::init: one-time library initialization, documented
/// as safe to call redundantly from any call site.
#[verifier::external_body]
pub(crate) fn crypto_init() {
    let _ = sodiumoxide::init();
}

/// Relies on xchacha20poly1305_ietf::gen_nonce: returns NONCEBYTES fresh
/// random bytes. Nothing is assumed of the values drawn.
#[verifier::external_body]
pub(crate) fn gen_nonce_bytes() -> (r: Vec<u8>)
    ensures
        r@.len() == NONCE_LEN,
{
    aead_impl::gen_nonce().0.to_vec()
}

/// Relies on xchacha20poly1305_ietf::gen_key: returns KEYBYTES fresh random
/// bytes. Nothing is assumed of the values drawn.
#[verifier::external_body]
pub(crate) fn gen_key_bytes() -> (r: Vec<u8>)
    ensures
        r@.len() == KEY_LEN,
{
    aead_impl::gen_key().0.to_vec()
}

/// Relies on xchacha20poly1305_ietf::seal: encrypts and authenticates `m`
/// under `(n, k)` with no associated data, appending a TAGBYTES tag. The
/// result is a function of the three arguments alone.
#[verifier::external_body]
pub(crate) fn seal_with(m: &[u8], n: &[u8], k: &[u8]) -> (r: Vec<u8>)
    requires
        n@.len() == NONCE_LEN,
        k@.len() == KEY_LEN,
    ensures
        r@ == seal_bytes(m@, n@, k@),
        r@.len() == m@.len() + TAG_LEN,
{
    let nonce = aead_impl::Nonce::from_slice(n).unwrap();
    let key = aead_impl::Key::from_slice(k).unwrap();
    aead_impl::seal(m, None, &nonce, &key)
}

/// Relies on xchacha20poly1305_ietf::open: verifies and decrypts `c` under
/// `(n, k)`. On the sealed bytes of a message it returns that message;
/// decryption inverts the deterministic sealing, so a successful open means
/// `c` is exactly the seal of the returned plaintext. When the tag does not
/// verify it fails, returning no plaintext at all.
#[verifier::external_body]
pub(crate) fn open_with(c: &[u8], n: &[u8], k: &[u8]) -> (r: Option<Vec<u8>>)
    requires
        n@.len() == NONCE_LEN,
        k@.len() == KEY_LEN,
    ensures
        (r is None ==> forall|m: Seq<u8>| c@ != #[trigger] seal_bytes(m, n@, k@)),
        (r matches Some(p) ==> c@ == seal_bytes(p@, n@, k@)),
        (r matches Some(p) ==> forall|m: Seq<u8>|
            c@ == #[trigger] seal_bytes(m, n@, k@) ==> p@ == m),
{
    let nonce = aead_impl::Nonce::from_slice(n).unwrap();
    let key = aead_impl::Key::from_slice(k).unwrap();
    match aead_impl::open(c, None, &nonce, &key) {
        Ok(p) => Some(p),
        Err(()) => None,
    }
}

/// Relies on base64::encode with Variant::Original: standard RFC 4648
/// base64 with padding, a function of the input bytes alone.
#[verifier::external_body]
pub(crate) fn base64_encode(b: &[u8]) -> (r: String)
    ensures
        r@ == base64_of(b@),
{
    base64::encode(b, base64::Variant::Original)
}

/// Relies on base64::decode with Variant::Original: inverts the encoding on
/// every encoded string, and rejects anything else — libsodium's decoder
/// accepts only canonical base64 (valid alphabet, correct padding, zero
/// trailing bits), so whatever it accepts re-encodes to the input.
#[verifier::external_body]
pub(crate) fn base64_decode(s: &str) -> (r: Option<Vec<u8>>)
    ensures
        (r is None ==> forall|b: Seq<u8>| s@ != #[trigger] base64_of(b)),
        (r matches Some(p) ==> s@ == base64_of(p@)),
        (r matches Some(p) ==> forall|b: Seq<u8>| s@ == #[trigger] base64_of(b) ==> p@ == b),
{
    match base64::decode(s, base64::Variant::Original) {
        Ok(v) => Some(v),
        Err(()) => None,
    }
}

/// Relies on pwhash::derive_key (libsodium's default password hash, scrypt,
/// with the interactive ops and memory limits): fills a KEYBYTES buffer with
/// a key that is a deterministic function of password and salt alone. The
/// call fails only on an internal resource error.
#[verifier::external_body]
pub(crate) fn pwhash_derive(pw: &[u8], salt: &[u8]) -> (r: Option<Vec<u8>>)
    requires
        salt@.len() == SALT_LEN,
    ensures
        (r matches Some(k) ==> k@ == scrypt_of(pw@, salt@) && k@.len() == KEY_LEN),
{
    let salt = pwhash::Salt::from_slice(salt).unwrap();
    let mut key = [0u8; aead_impl::KEYBYTES];
    match pwhash::derive_key(
        &mut key,
        pw,
        &salt,
        pwhash::OPSLIMIT_INTERACTIVE,
        pwhash::MEMLIMIT_INTERACTIVE,
    ) {
        Ok(_) => Some(key.to_vec()),
        Err(()) => None,
    }
}

} // verus!
