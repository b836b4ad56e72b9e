use authentication_service::register_user::HashedUserPassword;
use authentication_service::security::hash_password;
use authentication_service::security::is_valid;
use authentication_service::user_password::UserPassword;

#[test]
fn security_test_valid_password_hashing() {
    let password = "password".to_string();
    let hashed_password = hash_password(&password).unwrap();

    assert!(is_valid(&password, &hashed_password));
}

#[test]
fn security_test_invalid_password_hashing() {
    let hashed_password = hash_password("password").unwrap();

    assert!(!is_valid("1234", &hashed_password));
}

#[test]
fn test_hashed_user_password_verifies() {
    let hashed = HashedUserPassword::new(UserPassword::new("pw123456").unwrap()).unwrap();
    assert!(is_valid("pw123456", hashed.get()));
    assert!(!is_valid("pw1234567", hashed.get()));
}

#[test]
fn test_hashes_are_salted() {
    let h1 = hash_password("password").unwrap();
    let h2 = hash_password("password").unwrap();
    assert_ne!(h1, h2);
    assert!(is_valid("password", &h1));
    assert!(is_valid("password", &h2));
}
