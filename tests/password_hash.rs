use channel_builder::password_hash_version::{
    get_pw_ver, hash_pw, hash_pw_ver, validate_pw_ver, PWHashError,
};

#[test]
fn hash_round_trip() {
    let hash = hash_pw("a@b.com", "correct horse").unwrap();
    assert!(hash.starts_with("$argon2"));
    assert_ne!(hash, "correct horse");
    let ver = get_pw_ver();
    assert_eq!(1, ver);
    assert!(validate_pw_ver("a@b.com", "correct horse", &hash, ver).unwrap());
    assert!(!validate_pw_ver("a@b.com", "wrong horse", &hash, ver).unwrap());
}

#[test]
fn hash_unregistered_version() {
    let hash = hash_pw_ver("a@b.com", "correct horse", 1).unwrap();
    assert!(matches!(
        validate_pw_ver("a@b.com", "correct horse", &hash, 2),
        Err(PWHashError::InvalidHashVer)
    ));
    assert!(matches!(
        hash_pw_ver("a@b.com", "correct horse", 0),
        Err(PWHashError::InvalidHashVer)
    ));
}

#[test]
fn hash_unparsable() {
    assert!(matches!(
        validate_pw_ver("a@b.com", "pw", "not a hash", 1),
        Err(PWHashError::HashParseError { .. })
    ));
}

#[test]
fn hash_salted() {
    let h1 = hash_pw("a@b.com", "same password").unwrap();
    let h2 = hash_pw("a@b.com", "same password").unwrap();
    assert_ne!(h1, h2);
}
