use uchat::crypto::{
    deserialize_hash, hash_password, hash_password_with_salt, new_salt, verify_password, Error,
};

#[test]
fn hashes_password_with_salt() {
    let password = "password";
    let salt = new_salt();
    let hashed = hash_password_with_salt(password, &salt).expect("failed to hash password");
    assert_ne!(hashed.as_str(), password);
    let parsed = password_hash::PasswordHashString::new(hashed.as_str()).unwrap();
    assert_eq!(parsed.encoding(), password_hash::Encoding::B64);
}

#[test]
fn matching_passwords_are_properly_verified() {
    let password = "password";
    let hashed = hash_password(password).unwrap();
    let hashed = deserialize_hash(hashed.as_str()).unwrap();
    verify_password(password, &hashed).expect("failed to verify password");
}

#[test]
fn mismatching_passwords_fail_verification() {
    let password = "password";
    let hashed = hash_password(password).unwrap();
    let hashed = deserialize_hash(hashed.as_str()).unwrap();
    assert!(verify_password("wrong", &hashed).is_err());
}

#[test]
fn deserializes() {
    let password = "password";
    let hashed = hash_password(password).unwrap();
    assert!(deserialize_hash(hashed.as_str()).is_ok());
}

#[test]
fn same_password_and_salt_hash_alike() {
    let salt = new_salt();
    let a = hash_password_with_salt("password", &salt).unwrap();
    let b = hash_password_with_salt("password", &salt).unwrap();
    assert_eq!(a, b);
    let c = hash_password_with_salt("passwore", &salt).unwrap();
    assert_ne!(a, c);
}

#[test]
fn hash_is_an_argon2id_phc_string() {
    let hashed = hash_password("password").unwrap();
    assert!(hashed.starts_with("$argon2id$v=19$"));
}

#[test]
fn salts_are_22_b64_characters_and_differ() {
    let a = new_salt();
    let b = new_salt();
    assert_eq!(a.as_str().chars().count(), 22);
    assert!(a
        .as_str()
        .chars()
        .all(|c| c.is_ascii_alphanumeric() || c == '+' || c == '/'));
    assert_ne!(a.as_str(), b.as_str());
}

#[test]
fn malformed_hash_is_a_hash_error() {
    match deserialize_hash("not a phc string") {
        Err(Error::HashError(msg)) => assert!(!msg.is_empty()),
        _ => panic!("expected a hash error"),
    }
}

#[test]
fn wrong_password_error_text() {
    assert_eq!(Error::WrongPassword.to_string(), "password doesn't match");
    assert_eq!(Error::HashError("bad".to_string()).to_string(), "hash error: bad");
}
