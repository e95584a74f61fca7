use kcrypt::{
    decrypt_text, encrypt, encrypt_text, gen_key, CodecError, DecryptError, EncryptionError, Key,
    KeyError, KEY_LEN,
};

#[test]
fn zero_key_hello_world() {
    let key = Key::from_bytes(vec![0u8; KEY_LEN]).unwrap();
    let c = encrypt_text("Hello, world!", &key);
    assert_eq!(decrypt_text(&c, &key).unwrap(), "Hello, world!");
}

#[test]
fn round_trip_text() {
    let key = gen_key();
    for msg in ["", "short", "non-ascii: déjà vu — ☃", "newline\nand\ttab"] {
        let c = encrypt_text(msg, &key);
        assert!(c.is_ascii());
        assert_eq!(decrypt_text(&c, &key).unwrap(), msg);
    }
}

#[test]
fn malformed_base64_rejected() {
    let key = gen_key();
    assert_eq!(
        decrypt_text("not-valid-base64!!", &key),
        Err(CodecError::Base64)
    );
}

#[test]
fn text_wrong_key_rejected() {
    let k1 = gen_key();
    let k2 = gen_key();
    let c = encrypt_text("message", &k1);
    assert_eq!(
        decrypt_text(&c, &k2),
        Err(CodecError::Decrypt(DecryptError::AuthenticationFailed))
    );
}

#[test]
fn text_truncated_frame_rejected() {
    let key = gen_key();
    // A canonical base64 string that decodes to fewer bytes than a nonce.
    let short = sodiumoxide::base64::encode(b"short", sodiumoxide::base64::Variant::Original);
    assert_eq!(
        decrypt_text(&short, &key),
        Err(CodecError::Decrypt(DecryptError::Truncated))
    );
}

#[test]
fn invalid_utf8_plaintext_rejected() {
    let key = gen_key();
    // Encrypt bytes that are not valid UTF-8, then present the frame as text.
    let framed = encrypt(&[0xff, 0xfe, 0xfd], &key);
    let text = sodiumoxide::base64::encode(&framed, sodiumoxide::base64::Variant::Original);
    assert_eq!(decrypt_text(&text, &key), Err(CodecError::Utf8));
}

#[test]
fn error_messages_are_nonempty() {
    let errors = [
        EncryptionError::key(KeyError::Io),
        EncryptionError::key(KeyError::InvalidLength),
        EncryptionError::key(KeyError::Derivation),
        EncryptionError::decrypt(DecryptError::Truncated),
        EncryptionError::decrypt(DecryptError::AuthenticationFailed),
        EncryptionError::codec(CodecError::Base64),
        EncryptionError::codec(CodecError::Decrypt(DecryptError::Truncated)),
        EncryptionError::codec(CodecError::Utf8),
    ];
    for e in errors {
        assert!(!e.message().is_empty());
    }
}
