use authentication_service::auth::AuthRequest;
use authentication_service::auth_service::Service;
use authentication_service::config::Config;
use authentication_service::jwt::verify_jwt;
use authentication_service::login_user::LoginUserError;
use authentication_service::login_user::LoginUserRequest;
use authentication_service::logout::LogoutRequest;
use authentication_service::refresh_token::RefreshRequest;
use authentication_service::refresh_token::RefreshTokenError;
use authentication_service::register_user::HashedUserPassword;
use authentication_service::register_user::RegisterUserError;
use authentication_service::register_user::RegisterUserRequest;
use authentication_service::session_cache::SessionCache;
use authentication_service::user_email::UserEmail;
use authentication_service::user_password::UserPassword;
use authentication_service::user_store::UserStore;
use base64::Engine;
use rsa::pkcs1::EncodeRsaPrivateKey;
use rsa::pkcs1::EncodeRsaPublicKey;

fn key_pair() -> (String, String) {
    let mut rng = rand::thread_rng();
    let key = rsa::RsaPrivateKey::new(&mut rng, 1024).unwrap();
    let private_pem = key.to_pkcs1_pem(rsa::pkcs1::LineEnding::LF).unwrap().to_string();
    let public_pem = key.to_public_key().to_pkcs1_pem(rsa::pkcs1::LineEnding::LF).unwrap();
    let engine = base64::engine::general_purpose::STANDARD;
    (engine.encode(private_pem.as_bytes()), engine.encode(public_pem.as_bytes()))
}

fn test_service() -> Service {
    let (access_private, access_public) = key_pair();
    let (refresh_private, refresh_public) = key_pair();
    let config = Config {
        database_url: String::new(),
        access_token_private_key: access_private,
        access_token_public_key: access_public,
        access_token_expires_in: "15m".to_string(),
        access_token_max_age: 15,
        refresh_token_private_key: refresh_private,
        refresh_token_public_key: refresh_public,
        refresh_token_expires_in: "60m".to_string(),
        refresh_token_max_age: 60,
        redis_url: String::new(),
    };
    Service { repo: UserStore::new(), cache: SessionCache::new(), config }
}

fn register_request(email: &str, password: &str) -> RegisterUserRequest {
    RegisterUserRequest::new(
        UserEmail::new(email).unwrap(),
        HashedUserPassword::new(UserPassword::new(password).unwrap()).unwrap(),
    )
}

fn login_request(email: &str, password: &str) -> LoginUserRequest {
    LoginUserRequest::new(UserEmail::new(email).unwrap(), UserPassword::new(password).unwrap())
}

#[test]
fn test_register_success() {
    let mut service = test_service();

    let result = service.register(&register_request("adrian@email.com", "password"));

    assert_eq!(result.unwrap().email, "adrian@email.com")
}

#[test]
fn test_register_normalizes_email_case() {
    let mut service = test_service();

    let result = service.register(&register_request("Adrian@Email.COM", "password"));

    assert_eq!(result.unwrap().email, "adrian@email.com")
}

#[test]
fn test_register_existing_user_failure() {
    let mut service = test_service();

    service.register(&register_request("adrian@email.com", "password")).unwrap();
    let second = service.register(&register_request("adrian@email.com", "other password"));

    assert!(matches!(second, Err(RegisterUserError::Duplicate { .. })));
}

#[test]
fn test_register_duplicate_detected_across_case() {
    let mut service = test_service();

    service.register(&register_request("adrian@email.com", "password")).unwrap();
    let second = service.register(&register_request("ADRIAN@EMAIL.COM", "password"));

    assert!(matches!(second, Err(RegisterUserError::Duplicate { .. })));
}

#[test]
fn test_login_success() {
    let mut service = test_service();
    service.register(&register_request("adrian@email.com", "password")).unwrap();

    let result = service.login(&login_request("adrian@email.com", "password")).unwrap();

    assert!(!result.access_token.is_empty());
    assert!(!result.refresh_token.is_empty());
    assert!(result.access_token_max_age < result.refresh_token_max_age);
}

#[test]
fn test_login_invalid_password_failure() {
    let mut service = test_service();
    service.register(&register_request("adrian@email.com", "password")).unwrap();

    let result = service.login(&login_request("adrian@email.com", "wrong password"));

    assert!(matches!(result, Err(LoginUserError::InvalidCredentials)));
}

#[test]
fn test_login_failure() {
    let mut service = test_service();

    let result = service.login(&login_request("nobody@email.com", "password"));

    assert!(matches!(result, Err(LoginUserError::InvalidCredentials)));
}

#[test]
fn test_login_failures_indistinguishable() {
    let mut service = test_service();
    service.register(&register_request("adrian@email.com", "password")).unwrap();

    let wrong_password = service.login(&login_request("adrian@email.com", "wrong password"));
    let unknown_email = service.login(&login_request("nobody@email.com", "password"));

    assert!(matches!(wrong_password, Err(LoginUserError::InvalidCredentials)));
    assert!(matches!(unknown_email, Err(LoginUserError::InvalidCredentials)));
}

#[test]
fn test_auth_success() {
    let mut service = test_service();
    service.register(&register_request("adrian@email.com", "password")).unwrap();
    let login = service.login(&login_request("adrian@email.com", "password")).unwrap();

    let result = service.auth(&AuthRequest::new(login.access_token));

    let identity = result.unwrap();
    assert_eq!(identity.user.email, "adrian@email.com");
}

#[test]
fn test_invalid_token_failure() {
    let mut service = test_service();
    service.register(&register_request("adrian@email.com", "password")).unwrap();

    let result = service.auth(&AuthRequest::new("Invalid token".to_string()));

    assert!(result.is_err())
}

#[test]
fn test_refresh_token_with_access_token_fails() {
    // The two token kinds are signed with distinct key pairs: an access
    // token presented to refresh must be refused.
    let mut service = test_service();
    service.register(&register_request("adrian@email.com", "password")).unwrap();
    let login = service.login(&login_request("adrian@email.com", "password")).unwrap();

    let result = service.refresh(&RefreshRequest::new(login.access_token));

    assert!(matches!(result, Err(RefreshTokenError::InvalidCredentials { .. })));
}

#[test]
fn test_login_bad_key_internal_error() {
    // Valid credentials with unusable signing material: the failure must
    // be internal, never a credential failure.
    let mut service = test_service();
    service.register(&register_request("adrian@email.com", "password")).unwrap();
    service.config.access_token_private_key = "!!!".to_string();

    let result = service.login(&login_request("adrian@email.com", "password"));

    assert!(matches!(result, Err(LoginUserError::Unknown)));
}

#[test]
fn test_refresh_bad_key_internal_error() {
    let mut service = test_service();
    service.register(&register_request("adrian@email.com", "password")).unwrap();
    let login = service.login(&login_request("adrian@email.com", "password")).unwrap();
    service.config.access_token_private_key = "!!!".to_string();

    let result = service.refresh(&RefreshRequest::new(login.refresh_token));

    assert!(matches!(result, Err(RefreshTokenError::Unknown)));
}

#[test]
fn test_logout_success() {
    let mut service = test_service();

    let result = service.logout(&LogoutRequest::new(uuid::Uuid::new_v4().as_u128()));

    assert_eq!(result.unwrap().message(), "User logged out");
}

#[test]
fn test_logout_idempotent() {
    let mut service = test_service();
    let tid = uuid::Uuid::new_v4().as_u128();

    assert!(service.logout(&LogoutRequest::new(tid)).is_ok());
    assert!(service.logout(&LogoutRequest::new(tid)).is_ok());
}

#[test]
fn test_logout_revokes_access_token() {
    let mut service = test_service();
    service.register(&register_request("adrian@email.com", "password")).unwrap();
    let login = service.login(&login_request("adrian@email.com", "password")).unwrap();

    let details =
        verify_jwt(&service.config.access_token_public_key, &login.access_token).unwrap();
    service.logout(&LogoutRequest::new(details.token_uuid)).unwrap();

    let result = service.auth(&AuthRequest::new(login.access_token));
    assert!(result.is_err());
}

#[test]
fn test_refresh_token_success() {
    let mut service = test_service();
    service.register(&register_request("adrian@email.com", "password")).unwrap();
    let login = service.login(&login_request("adrian@email.com", "password")).unwrap();

    let result = service.refresh(&RefreshRequest::new(login.refresh_token)).unwrap();

    assert!(!result.access_token.is_empty());
}

#[test]
fn test_refresh_token_invalid_token_failure() {
    let mut service = test_service();

    let result = service.refresh(&RefreshRequest::new("invalid_token".to_string()));

    assert!(result.is_err())
}

#[test]
fn test_refresh_token_tampered_failure() {
    let mut service = test_service();
    service.register(&register_request("adrian@email.com", "password")).unwrap();
    let login = service.login(&login_request("adrian@email.com", "password")).unwrap();

    let mut tampered = login.refresh_token.clone();
    let last = tampered.pop().unwrap();
    tampered.push(if last == 'A' { 'B' } else { 'A' });

    let result = service.refresh(&RefreshRequest::new(tampered));

    assert!(matches!(result, Err(RefreshTokenError::InvalidCredentials { .. })));
}

#[test]
fn test_session_lifecycle_scenario() {
    // Register and log in, then revoke the access token: authentication
    // with it fails even though signature and expiry are intact, while the
    // refresh token's independent session still mints a fresh, different
    // access token.
    let mut service = test_service();
    service.register(&register_request("a@test.com", "pw123456")).unwrap();

    let login = service.login(&login_request("a@test.com", "pw123456")).unwrap();
    assert!(!login.access_token.is_empty());
    assert!(!login.refresh_token.is_empty());
    assert!(login.access_token_max_age < login.refresh_token_max_age);

    let access_details =
        verify_jwt(&service.config.access_token_public_key, &login.access_token).unwrap();
    service.logout(&LogoutRequest::new(access_details.token_uuid)).unwrap();

    let auth_after_logout = service.auth(&AuthRequest::new(login.access_token.clone()));
    assert!(auth_after_logout.is_err());

    let refreshed = service.refresh(&RefreshRequest::new(login.refresh_token)).unwrap();
    assert!(!refreshed.access_token.is_empty());
    assert_ne!(refreshed.access_token, login.access_token);

    let new_details =
        verify_jwt(&service.config.access_token_public_key, &refreshed.access_token).unwrap();
    assert_ne!(new_details.token_uuid, access_details.token_uuid);

    let auth_with_new = service.auth(&AuthRequest::new(refreshed.access_token));
    assert!(auth_with_new.is_ok());
}
