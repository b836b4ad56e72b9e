use authentication_service::auth_repo_errors::AuthRepositoryError;
use authentication_service::cache_errors::CacheOperationError;
use authentication_service::login_user::LoginUserRequest;
use authentication_service::register_user::HashedUserPassword;
use authentication_service::register_user::RegisterUserRequest;
use authentication_service::session_cache::SessionCache;
use authentication_service::token::CacheToken;
use authentication_service::token::TokenDetails;
use authentication_service::token_uuid::TokenUuid;
use authentication_service::user::UserId;
use authentication_service::user_email::UserEmail;
use authentication_service::user_password::UserPassword;
use authentication_service::user_store::UserStore;

fn details(token_uuid: u128, user_id: u128) -> TokenDetails {
    TokenDetails { token: None, token_uuid, user_id, expires_in: None }
}

#[test]
fn test_cache_put_then_exists() {
    let mut cache = SessionCache::new();
    let now = 1_000_000;

    cache.save_token_data(&CacheToken::new(1, 10, 15), now).unwrap();

    assert!(cache.verify_active_session(&details(1, 10), now).is_ok());
    // still alive one second before the fifteen-minute expiry
    assert!(cache.verify_active_session(&details(1, 10), now + 15 * 60 - 1).is_ok());
}

#[test]
fn test_cache_exists_checks_owner() {
    let mut cache = SessionCache::new();
    let now = 1_000_000;

    cache.save_token_data(&CacheToken::new(1, 10, 15), now).unwrap();

    let wrong_owner = cache.verify_active_session(&details(1, 99), now);
    assert!(matches!(wrong_owner, Err(CacheOperationError::Invalid { .. })));
}

#[test]
fn test_cache_ttl_lapse_rejected() {
    let mut cache = SessionCache::new();
    let now = 1_000_000;

    cache.save_token_data(&CacheToken::new(1, 10, 15), now).unwrap();

    let lapsed = cache.verify_active_session(&details(1, 10), now + 15 * 60);
    assert!(matches!(lapsed, Err(CacheOperationError::Invalid { .. })));
}

#[test]
fn test_cache_missing_record_rejected() {
    let cache = SessionCache::new();

    let missing = cache.verify_active_session(&details(1, 10), 0);
    assert!(matches!(missing, Err(CacheOperationError::Invalid { .. })));
}

#[test]
fn test_cache_delete_revokes_and_is_idempotent() {
    let mut cache = SessionCache::new();
    let now = 1_000_000;
    cache.save_token_data(&CacheToken::new(1, 10, 15), now).unwrap();

    assert!(cache.delete_token(&TokenUuid::new(1)).is_ok());
    assert!(cache.verify_active_session(&details(1, 10), now).is_err());
    assert!(cache.delete_token(&TokenUuid::new(1)).is_ok());
}

#[test]
fn test_cache_put_pair_both_present() {
    let mut cache = SessionCache::new();
    let now = 1_000_000;

    cache
        .save_tokens_data(&CacheToken::new(1, 10, 15), &CacheToken::new(2, 10, 60), now)
        .unwrap();

    assert!(cache.verify_active_session(&details(1, 10), now).is_ok());
    assert!(cache.verify_active_session(&details(2, 10), now).is_ok());
}

#[test]
fn test_cache_unrepresentable_expiry_is_save_error() {
    let mut cache = SessionCache::new();

    let overflowing = cache.save_token_data(&CacheToken::new(1, 10, i64::MAX), 0);
    assert!(matches!(overflowing, Err(CacheOperationError::Save)));
    // nothing was written
    assert!(cache.verify_active_session(&details(1, 10), 0).is_err());
}

fn register_request(email: &str, password: &str) -> RegisterUserRequest {
    RegisterUserRequest::new(
        UserEmail::new(email).unwrap(),
        HashedUserPassword::new(UserPassword::new(password).unwrap()).unwrap(),
    )
}

#[test]
fn test_store_register_and_find() {
    let mut store = UserStore::new();

    let filtered = store.register(&register_request("Adrian@Email.com", "password")).unwrap();
    assert_eq!(filtered.email, "adrian@email.com");

    let by_email = store
        .login(&LoginUserRequest::new(
            UserEmail::new("ADRIAN@email.COM").unwrap(),
            UserPassword::new("password").unwrap(),
        ))
        .unwrap();
    assert_eq!(by_email.id, filtered.id);
    assert_eq!(by_email.email, "adrian@email.com");

    let by_id = store.fetch_user_by_id(&UserId::new(filtered.id)).unwrap();
    assert_eq!(by_id.email, "adrian@email.com");
}

#[test]
fn test_store_duplicate_email_rejected() {
    let mut store = UserStore::new();
    store.register(&register_request("a@test.com", "pw")).unwrap();

    let second = store.register(&register_request("a@test.com", "pw2"));
    match second {
        Err(AuthRepositoryError::Duplicate { email }) => assert_eq!(email.get(), "a@test.com"),
        _ => panic!("expected a duplicate error"),
    }
}

#[test]
fn test_store_missing_lookups_fail() {
    let store = UserStore::new();

    let by_email = store.login(&LoginUserRequest::new(
        UserEmail::new("nobody@test.com").unwrap(),
        UserPassword::new("pw").unwrap(),
    ));
    assert!(matches!(by_email, Err(AuthRepositoryError::InvalidCredentials { .. })));

    let by_id = store.fetch_user_by_id(&UserId::new(42));
    assert!(matches!(by_id, Err(AuthRepositoryError::InvalidCredentials { .. })));
}
