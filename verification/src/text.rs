//! The text codec: framed ciphertexts as base64 strings, for exchanging
//! encrypted messages as human-readable text.

use vstd::prelude::*;
use vstd::string::StringSliceAdditionalSpecFns;
use vstd::utf8::{decode_utf8, encode_utf8, valid_utf8};

use crate::aead::{decrypt, decrypts_to, encrypt, framed};
use crate::errors::{CodecError, DecryptError};
use crate::keys::Key;
use crate::sodium;
use crate::sodium::base64_of;
use crate::NONCE_LEN;

verus! {

broadcast use vstd::utf8::group_utf8_lib;

/// Relies on String::from_utf8: succeeds exactly on valid UTF-8 and returns
/// the string those bytes encode.
#[verifier::external_body]
fn bytes_to_string(bytes: Vec<u8>) -> (r: Option<String>)
    ensures
        (r is Some <==> valid_utf8(bytes@)),
        (r matches Some(s) ==> s@ == decode_utf8(bytes@)),
{
    String::from_utf8(bytes).ok()
}

/// True when the text ciphertext `s` decrypts under key `k` to the message
/// `msg`: `s` is the base64 encoding of a framed ciphertext that carries the
/// UTF-8 bytes of `msg`.
pub open spec fn text_decrypts_to(s: Seq<char>, k: Seq<u8>, msg: Seq<char>) -> bool {
    exists|c: Seq<u8>| s == #[trigger] base64_of(c) && decrypts_to(c, k, encode_utf8(msg))
}

/// Law: the base64 text of a framed ciphertext for `msg` decrypts, as text,
/// back to `msg`, whatever the nonce was.
pub proof fn lemma_text_round_trip(msg: Seq<char>, n: Seq<u8>, k: Seq<u8>)
    requires
        n.len() == NONCE_LEN,
    ensures
        text_decrypts_to(base64_of(framed(encode_utf8(msg), n, k)), k, msg),
{
    crate::aead::lemma_frame_round_trip(encode_utf8(msg), n, k);
}

/// Encrypts a UTF-8 message under `key` and returns the framed ciphertext
/// as a base64 string. Never fails.
pub fn encrypt_text(message: &str, key: &Key) -> (r: String)
    ensures
        text_decrypts_to(r@, key@, message@),
{
    let mb = message.as_bytes();
    let framed_bytes = encrypt(mb, key);
    let out = sodium::base64_encode(framed_bytes.as_slice());
    proof {
        assert(mb@ == encode_utf8(message@));
        assert(out@ == base64_of(framed_bytes@) && decrypts_to(
            framed_bytes@,
            key@,
            encode_utf8(message@),
        ));
    }
    out
}

/// Decrypts a base64 text ciphertext under `key` back to the UTF-8 message.
/// Fails with `Base64` exactly on input that is not a base64 encoding; with
/// `Decrypt(_)` when the decoded frame is truncated or does not
/// authenticate; and with `Utf8` when the decrypted bytes are not UTF-8.
pub fn decrypt_text(ciphertext: &str, key: &Key) -> (r: Result<String, CodecError>)
    ensures
        (forall|msg: Seq<char>| #[trigger]
            text_decrypts_to(ciphertext@, key@, msg) ==> (r matches Ok(t) && t@ == msg)),
        (r == Err::<String, CodecError>(CodecError::Base64) <==> !(exists|b: Seq<u8>|
            ciphertext@ == #[trigger] base64_of(b))),
        (forall|b: Seq<u8>|
            ciphertext@ == #[trigger] base64_of(b) && b.len() < NONCE_LEN ==> r == Err::<
                String,
                CodecError,
            >(CodecError::Decrypt(DecryptError::Truncated))),
        (forall|b: Seq<u8>|
            ciphertext@ == #[trigger] base64_of(b) && b.len() >= NONCE_LEN && !(exists|
                m: Seq<u8>,
            | #[trigger] decrypts_to(b, key@, m)) ==> r == Err::<String, CodecError>(
                CodecError::Decrypt(DecryptError::AuthenticationFailed),
            )),
        (forall|b: Seq<u8>, m: Seq<u8>|
            ciphertext@ == #[trigger] base64_of(b) && #[trigger] decrypts_to(b, key@, m)
                && !valid_utf8(m) ==> r == Err::<String, CodecError>(CodecError::Utf8)),
{
    let decoded = match sodium::base64_decode(ciphertext) {
        Some(d) => d,
        None => {
            proof {
                assert forall|msg: Seq<char>| !(#[trigger] text_decrypts_to(
                    ciphertext@,
                    key@,
                    msg,
                )) by {
                    if text_decrypts_to(ciphertext@, key@, msg) {
                        let c = choose|c: Seq<u8>|
                            ciphertext@ == #[trigger] base64_of(c) && decrypts_to(
                                c,
                                key@,
                                encode_utf8(msg),
                            );
                        assert(ciphertext@ == base64_of(c));
                    }
                }
            }
            return Err(CodecError::Base64);
        },
    };
    let plain = match decrypt(decoded.as_slice(), key) {
        Ok(p) => p,
        Err(e) => {
            proof {
                assert(ciphertext@ == base64_of(decoded@));
                assert forall|msg: Seq<char>| !(#[trigger] text_decrypts_to(
                    ciphertext@,
                    key@,
                    msg,
                )) by {
                    if text_decrypts_to(ciphertext@, key@, msg) {
                        let c = choose|c: Seq<u8>|
                            ciphertext@ == #[trigger] base64_of(c) && decrypts_to(
                                c,
                                key@,
                                encode_utf8(msg),
                            );
                        assert(c == decoded@);
                        assert(decrypts_to(decoded@, key@, encode_utf8(msg)));
                    }
                }
            }
            return Err(CodecError::Decrypt(e));
        },
    };
    match bytes_to_string(plain) {
        Some(t) => {
            proof {
                assert(ciphertext@ == base64_of(decoded@));
                assert(decrypts_to(decoded@, key@, plain@));
                assert forall|msg: Seq<char>| #[trigger]
                    text_decrypts_to(ciphertext@, key@, msg) implies t@ == msg by {
                    let c = choose|c: Seq<u8>|
                        ciphertext@ == #[trigger] base64_of(c) && decrypts_to(
                            c,
                            key@,
                            encode_utf8(msg),
                        );
                    assert(c == decoded@);
                    assert(decrypts_to(decoded@, key@, encode_utf8(msg)));
                    assert(plain@ == encode_utf8(msg));
                    assert(decode_utf8(encode_utf8(msg)) == msg);
                }
            }
            Ok(t)
        },
        None => {
            proof {
                assert(ciphertext@ == base64_of(decoded@));
                assert(decrypts_to(decoded@, key@, plain@));
                assert(!valid_utf8(plain@));
                assert forall|msg: Seq<char>| !(#[trigger] text_decrypts_to(
                    ciphertext@,
                    key@,
                    msg,
                )) by {
                    if text_decrypts_to(ciphertext@, key@, msg) {
                        let c = choose|c: Seq<u8>|
                            ciphertext@ == #[trigger] base64_of(c) && decrypts_to(
                                c,
                                key@,
                                encode_utf8(msg),
                            );
                        assert(c == decoded@);
                        assert(decrypts_to(decoded@, key@, encode_utf8(msg)));
                        assert(plain@ == encode_utf8(msg));
                        assert(valid_utf8(encode_utf8(msg)));
                    }
                }
            }
            Err(CodecError::Utf8)
        },
    }
}

} // verus!
