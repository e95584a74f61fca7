use kcrypt::{decrypt, encrypt, gen_key, DecryptError, NONCE_LEN};

#[test]
fn tamper_any_bit_fails() {
    let key = gen_key();
    let p = b"hello".to_vec();
    let c = encrypt(&p, &key);
    for i in 0..c.len() {
        for bit in 0..8 {
            let mut t = c.clone();
            t[i] ^= 1u8 << bit;
            assert_eq!(decrypt(&t, &key), Err(DecryptError::AuthenticationFailed));
        }
    }
}

#[test]
fn wrong_key_rejected() {
    let k1 = gen_key();
    let k2 = gen_key();
    assert_ne!(k1.bytes(), k2.bytes());
    let c = encrypt(b"secret", &k1);
    assert_eq!(decrypt(&c, &k2), Err(DecryptError::AuthenticationFailed));
}

#[test]
fn truncated_input() {
    let key = gen_key();
    for n in 0..NONCE_LEN {
        let short = vec![0u8; n];
        assert_eq!(decrypt(&short, &key), Err(DecryptError::Truncated));
    }
    // Long enough to carry a nonce, but the rest cannot authenticate.
    for n in NONCE_LEN..NONCE_LEN + 20 {
        let short = vec![0u8; n];
        assert_eq!(decrypt(&short, &key), Err(DecryptError::AuthenticationFailed));
    }
}

#[test]
fn extended_input_rejected() {
    let key = gen_key();
    let mut c = encrypt(b"payload", &key);
    c.push(0);
    assert_eq!(decrypt(&c, &key), Err(DecryptError::AuthenticationFailed));
}
