//! Keys: raw-byte validation, fresh generation, and password derivation.

use vstd::prelude::*;
use vstd::utf8::encode_utf8;

use crate::errors::KeyError;
use crate::sodium;
use crate::sodium::scrypt_of;
use crate::{KEY_LEN, SALT_LEN};

verus! {

/// A symmetric key: exactly [`KEY_LEN`] bytes, held only in memory.
///
/// A key is only ever built from exactly [`KEY_LEN`] bytes, by generation,
/// by validated raw bytes, or by password derivation; the caller decides any
/// persistence.
pub struct Key {
    bytes: Vec<u8>,
}

impl View for Key {
    type V = Seq<u8>;

    closed spec fn view(&self) -> Seq<u8> {
        self.bytes@
    }
}

impl Key {
    #[verifier::type_invariant]
    spec fn wf(self) -> bool {
        self.bytes@.len() == KEY_LEN
    }

    /// Builds a key from raw bytes, e.g. the contents of a key file.
    /// Succeeds exactly when `bytes` has the required length.
    pub fn from_bytes(bytes: Vec<u8>) -> (r: Result<Key, KeyError>)
        ensures
            (bytes@.len() == KEY_LEN <==> r is Ok),
            (r matches Ok(k) ==> k@ == bytes@),
            (r matches Err(e) ==> e == KeyError::InvalidLength),
    {
        if bytes.len() == KEY_LEN {
            Ok(Key { bytes })
        } else {
            Err(KeyError::InvalidLength)
        }
    }

    /// The raw key bytes, e.g. for writing a key file.
    pub fn bytes(&self) -> (r: &[u8])
        ensures
            r@ == self@,
            r@.len() == KEY_LEN,
    {
        proof {
            use_type_invariant(self);
        }
        self.bytes.as_slice()
    }
}

/// Generates a fresh random key. Nothing is promised of the value beyond its
/// length: the caller decides persistence.
pub fn gen_key() -> (k: Key)
    ensures
        k@.len() == KEY_LEN,
{
    sodium::crypto_init();
    let bytes = sodium::gen_key_bytes();
    Key { bytes }
}

/// The fixed salt of the password-based derivation.
///
/// The salt is a constant baked into the library, so the same password
/// always yields the same key, with no per-user or per-file salt. That makes
/// the derivation reproducible without separate salt storage, and is a
/// deliberate, known limitation: suitable for single-user local use only.
pub open spec fn fixed_salt() -> Seq<u8> {
    seq![
        160u8,
        66u8,
        33u8,
        129u8,
        96u8,
        8u8,
        178u8,
        106u8,
        87u8,
        231u8,
        251u8,
        168u8,
        70u8,
        29u8,
        30u8,
        202u8,
        58u8,
        27u8,
        239u8,
        107u8,
        20u8,
        136u8,
        115u8,
        242u8,
        183u8,
        237u8,
        31u8,
        138u8,
        153u8,
        84u8,
        132u8,
        99u8,
    ]
}

/// The key that password `pw` derives to: the password hash of its UTF-8
/// bytes under the fixed salt.
pub open spec fn derived_key(pw: Seq<char>) -> Seq<u8> {
    scrypt_of(encode_utf8(pw), fixed_salt())
}

/// Law: password derivation is deterministic — two keys derived from the
/// same password are equal.
pub proof fn lemma_password_determinism(pw: Seq<char>, k1: Seq<u8>, k2: Seq<u8>)
    requires
        k1 == derived_key(pw),
        k2 == derived_key(pw),
    ensures
        k1 == k2,
{
}

fn fixed_salt_bytes() -> (r: Vec<u8>)
    ensures
        r@ == fixed_salt(),
        r@.len() == SALT_LEN,
{
    let mut v: Vec<u8> = Vec::new();
    v.push(160);
    v.push(66);
    v.push(33);
    v.push(129);
    v.push(96);
    v.push(8);
    v.push(178);
    v.push(106);
    v.push(87);
    v.push(231);
    v.push(251);
    v.push(168);
    v.push(70);
    v.push(29);
    v.push(30);
    v.push(202);
    v.push(58);
    v.push(27);
    v.push(239);
    v.push(107);
    v.push(20);
    v.push(136);
    v.push(115);
    v.push(242);
    v.push(183);
    v.push(237);
    v.push(31);
    v.push(138);
    v.push(153);
    v.push(84);
    v.push(132);
    v.push(99);
    proof {
        assert(v@ =~= fixed_salt());
    }
    v
}

/// Derives a key from a password with a memory-hard password hash under the
/// fixed salt: deterministic, so the same password always yields the same
/// key. Fails only if the underlying derivation reports an internal
/// resource error, which indicates misconfiguration, not user error.
pub fn derive_key_from_password(password: &str) -> (r: Result<Key, KeyError>)
    ensures
        (r matches Ok(k) ==> k@ == derived_key(password@)),
        (r matches Err(e) ==> e == KeyError::Derivation),
{
    sodium::crypto_init();
    let salt = fixed_salt_bytes();
    let pw = password.as_bytes();
    assert(pw@ == encode_utf8(password@));
    match sodium::pwhash_derive(pw, salt.as_slice()) {
        Some(kb) => Ok(Key { bytes: kb }),
        None => Err(KeyError::Derivation),
    }
}

} // verus!
