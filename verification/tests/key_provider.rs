use kcrypt::{decrypt, derive_key_from_password, encrypt, gen_key, Key, KeyError, KEY_LEN};

#[test]
fn password_determinism() {
    let k1 = derive_key_from_password("correct horse battery staple").unwrap();
    let k2 = derive_key_from_password("correct horse battery staple").unwrap();
    assert_eq!(k1.bytes(), k2.bytes());
}

#[test]
fn different_passwords_differ() {
    let k1 = derive_key_from_password("password one").unwrap();
    let k2 = derive_key_from_password("password two").unwrap();
    assert_ne!(k1.bytes(), k2.bytes());
}

#[test]
fn derived_key_is_not_the_password() {
    let k = derive_key_from_password("a password that is 32 chars long").unwrap();
    assert_eq!(k.bytes().len(), KEY_LEN);
    assert_ne!(k.bytes(), b"a password that is 32 chars long");
}

#[test]
fn derived_key_round_trips() {
    let k = derive_key_from_password("s3cret").unwrap();
    let c = encrypt(b"hi", &k);
    assert_eq!(decrypt(&c, &k).unwrap(), b"hi".to_vec());
}

#[test]
fn from_bytes_validates_length() {
    assert_eq!(Key::from_bytes(vec![7u8; 31]).err(), Some(KeyError::InvalidLength));
    assert_eq!(Key::from_bytes(vec![7u8; 33]).err(), Some(KeyError::InvalidLength));
    assert_eq!(Key::from_bytes(vec![]).err(), Some(KeyError::InvalidLength));
    let k = match Key::from_bytes(vec![7u8; KEY_LEN]) {
        Ok(k) => k,
        Err(_) => panic!("a 32-byte key must be accepted"),
    };
    assert_eq!(k.bytes(), vec![7u8; KEY_LEN].as_slice());
}

#[test]
fn generated_keys_are_fresh() {
    let k1 = gen_key();
    let k2 = gen_key();
    assert_eq!(k1.bytes().len(), KEY_LEN);
    assert_eq!(k2.bytes().len(), KEY_LEN);
    assert_ne!(k1.bytes(), k2.bytes());
}

#[test]
fn key_bytes_round_trip_through_from_bytes() {
    let k1 = gen_key();
    let k2 = Key::from_bytes(k1.bytes().to_vec()).unwrap();
    let c = encrypt(b"shared", &k1);
    assert_eq!(decrypt(&c, &k2).unwrap(), b"shared".to_vec());
}
