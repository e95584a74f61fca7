use kcrypt::{decrypt, decrypt_file, encrypt, encrypt_file, gen_key, NONCE_LEN, TAG_LEN};

#[test]
fn round_trip_bytes() {
    let key = gen_key();
    let payloads: Vec<Vec<u8>> = vec![
        vec![],
        vec![0u8],
        vec![1, 2, 3, 4, 5],
        (0u8..=255).collect(),
    ];
    for p in payloads {
        let c = encrypt(&p, &key);
        assert_eq!(c.len(), NONCE_LEN + TAG_LEN + p.len());
        let r = decrypt(&c, &key).unwrap();
        assert_eq!(r, p);
    }
}

#[test]
fn round_trip_file() {
    let key = gen_key();
    let p = b"file contents, possibly binary \x00\x01\xff".to_vec();
    let c = encrypt_file(&p, &key);
    let r = decrypt_file(&c, &key).unwrap();
    assert_eq!(r, p);
}

#[test]
fn encrypt_is_nondeterministic() {
    let key = gen_key();
    let p = b"same plaintext".to_vec();
    let c1 = encrypt(&p, &key);
    let c2 = encrypt(&p, &key);
    assert_ne!(c1, c2);
    assert_eq!(decrypt(&c1, &key).unwrap(), p);
    assert_eq!(decrypt(&c2, &key).unwrap(), p);
}
