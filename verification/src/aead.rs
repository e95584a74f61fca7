//! The authenticated-encryption engine: framing a fresh nonce with the
//! sealed payload, and opening such frames, failing closed on any tampering.

use vstd::prelude::*;
use vstd::slice::slice_subrange;

use crate::errors::DecryptError;
use crate::keys::Key;
use crate::sodium;
use crate::sodium::seal_bytes;
use crate::{NONCE_LEN, TAG_LEN};

verus! {

/// The framed ciphertext for message `m`, nonce `n` and key `k`: the nonce
/// followed by the sealed bytes.
pub open spec fn framed(m: Seq<u8>, n: Seq<u8>, k: Seq<u8>) -> Seq<u8> {
    n + seal_bytes(m, n, k)
}

/// True when the framed ciphertext `c` decrypts to message `m` under key
/// `k`: `c` carries a nonce and the sealed bytes of `m` under that nonce.
pub open spec fn decrypts_to(c: Seq<u8>, k: Seq<u8>, m: Seq<u8>) -> bool {
    &&& c.len() >= NONCE_LEN
    &&& c.subrange(NONCE_LEN as int, c.len() as int) == seal_bytes(
        m,
        c.subrange(0, NONCE_LEN as int),
        k,
    )
}

/// Law: a framed ciphertext decrypts to the message it frames, whatever the
/// nonce was.
pub proof fn lemma_frame_round_trip(m: Seq<u8>, n: Seq<u8>, k: Seq<u8>)
    requires
        n.len() == NONCE_LEN,
    ensures
        decrypts_to(framed(m, n, k), k, m),
{
    let c = framed(m, n, k);
    assert(c.subrange(0, NONCE_LEN as int) =~= n);
    assert(c.subrange(NONCE_LEN as int, c.len() as int) =~= seal_bytes(m, n, k));
}

/// Encrypts `plaintext` under `key`: generates a fresh random nonce, seals
/// the plaintext under it, and returns `nonce || sealed`. Never fails.
pub fn encrypt(plaintext: &[u8], key: &Key) -> (r: Vec<u8>)
    ensures
        r@.len() == NONCE_LEN + TAG_LEN + plaintext@.len(),
        decrypts_to(r@, key@, plaintext@),
{
    sodium::crypto_init();
    let kb = key.bytes();
    let mut out = sodium::gen_nonce_bytes();
    let mut sealed = sodium::seal_with(plaintext, out.as_slice(), kb);
    let ghost n = out@;
    out.append(&mut sealed);
    proof {
        assert(out@.subrange(0, NONCE_LEN as int) =~= n);
        assert(out@.subrange(NONCE_LEN as int, out@.len() as int) =~= seal_bytes(
            plaintext@,
            n,
            key@,
        ));
    }
    out
}

/// Decrypts a framed ciphertext under `key`. Fails with `Truncated` exactly
/// when the input cannot even carry a nonce; splits off the embedded nonce
/// and opens the rest, failing with `AuthenticationFailed` exactly when the
/// remainder is not a sealing under the embedded nonce and this key.
pub fn decrypt(ciphertext: &[u8], key: &Key) -> (r: Result<Vec<u8>, DecryptError>)
    ensures
        (r == Err::<Vec<u8>, DecryptError>(DecryptError::Truncated) <==> ciphertext@.len()
            < NONCE_LEN),
        (r matches Ok(p) ==> decrypts_to(ciphertext@, key@, p@)),
        (forall|m: Seq<u8>| #[trigger]
            decrypts_to(ciphertext@, key@, m) ==> (r matches Ok(p) && p@ == m)),
        (r == Err::<Vec<u8>, DecryptError>(DecryptError::AuthenticationFailed) <==> (
        ciphertext@.len() >= NONCE_LEN && !(exists|m: Seq<u8>| #[trigger]
            decrypts_to(ciphertext@, key@, m)))),
{
    sodium::crypto_init();
    if ciphertext.len() < NONCE_LEN {
        return Err(DecryptError::Truncated);
    }
    let kb = key.bytes();
    let nonce = slice_subrange(ciphertext, 0, NONCE_LEN);
    let sealed = slice_subrange(ciphertext, NONCE_LEN, ciphertext.len());
    match sodium::open_with(sealed, nonce, kb) {
        Some(p) => {
            proof {
                assert(decrypts_to(ciphertext@, key@, p@));
                assert forall|m: Seq<u8>| #[trigger]
                    decrypts_to(ciphertext@, key@, m) implies p@ == m by {
                    assert(sealed@ == seal_bytes(m, nonce@, key@));
                }
            }
            Ok(p)
        },
        None => {
            proof {
                assert forall|m: Seq<u8>| !(#[trigger] decrypts_to(
                    ciphertext@,
                    key@,
                    m,
                )) by {
                    if decrypts_to(ciphertext@, key@, m) {
                        assert(sealed@ == seal_bytes(m, nonce@, key@));
                    }
                }
            }
            Err(DecryptError::AuthenticationFailed)
        },
    }
}

/// Encrypts an opaque byte payload, e.g. a file's contents: identical
/// framing to [`encrypt`], with no text layer. The caller persists the
/// result.
pub fn encrypt_file(bytes: &[u8], key: &Key) -> (r: Vec<u8>)
    ensures
        r@.len() == NONCE_LEN + TAG_LEN + bytes@.len(),
        decrypts_to(r@, key@, bytes@),
{
    encrypt(bytes, key)
}

/// Decrypts an opaque byte payload: identical to [`decrypt`]. On failure no
/// plaintext is returned, so a caller never writes partial output.
pub fn decrypt_file(bytes: &[u8], key: &Key) -> (r: Result<Vec<u8>, DecryptError>)
    ensures
        (r == Err::<Vec<u8>, DecryptError>(DecryptError::Truncated) <==> bytes@.len()
            < NONCE_LEN),
        (r matches Ok(p) ==> decrypts_to(bytes@, key@, p@)),
        (forall|m: Seq<u8>| #[trigger]
            decrypts_to(bytes@, key@, m) ==> (r matches Ok(p) && p@ == m)),
        (r == Err::<Vec<u8>, DecryptError>(DecryptError::AuthenticationFailed) <==> (bytes@.len()
            >= NONCE_LEN && !(exists|m: Seq<u8>| #[trigger] decrypts_to(bytes@, key@, m)))),
{
    decrypt(bytes, key)
}

} // verus!
