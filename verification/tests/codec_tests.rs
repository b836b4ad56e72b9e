use authentication_service::api_error::ApiError;
use authentication_service::auth::bearer_token;
use authentication_service::auth::select_access_token;
use authentication_service::config::parse_i64;
use authentication_service::register_user::RegisterUserError;
use authentication_service::schemas::LoginUserSchema;
use authentication_service::status::Status;
use authentication_service::token_uuid::parse_uuid;
use authentication_service::token_uuid::uuid_string;
use authentication_service::token_uuid::TokenUuid;
use authentication_service::user_email::UserEmail;
use authentication_service::user_password::UserPassword;

#[test]
fn test_uuid_string_exact() {
    let v: u128 = 0x00112233445566778899aabbccddeeff;
    assert_eq!(uuid_string(v), "00112233-4455-6677-8899-aabbccddeeff");
    assert_eq!(uuid_string(0), "00000000-0000-0000-0000-000000000000");
    assert_eq!(uuid_string(u128::MAX), "ffffffff-ffff-ffff-ffff-ffffffffffff");
}

#[test]
fn test_uuid_string_matches_uuid_crate() {
    let v: u128 = 0xfeedface0123456789abcdef01234567;
    assert_eq!(uuid_string(v), uuid::Uuid::from_u128(v).to_string());
}

#[test]
fn test_parse_uuid_round_trip() {
    let v: u128 = 0xdeadbeef00112233445566778899aabb;
    assert_eq!(parse_uuid(&uuid_string(v)), Some(v));
}

#[test]
fn test_parse_uuid_accepts_upper_case() {
    let v: u128 = 0x00112233445566778899aabbccddeeff;
    assert_eq!(parse_uuid("00112233-4455-6677-8899-AABBCCDDEEFF"), Some(v));
}

#[test]
fn test_parse_uuid_rejects_malformed() {
    assert_eq!(parse_uuid(""), None);
    assert_eq!(parse_uuid("00112233445566778899aabbccddeeff"), None);
    assert_eq!(parse_uuid("00112233-4455-6677-8899-aabbccddeefg"), None);
    assert_eq!(parse_uuid("00112233_4455_6677_8899_aabbccddeeff"), None);
    assert_eq!(parse_uuid("00112233-4455-6677-8899-aabbccddeef"), None);
}

#[test]
fn test_token_uuid_get_string() {
    let t = TokenUuid::new(0xabc);
    assert_eq!(t.get_string(), "00000000-0000-0000-0000-000000000abc");
    assert_eq!(t.get(), 0xabc);
}

#[test]
fn test_parse_i64_exact() {
    assert_eq!(parse_i64("0"), Some(0));
    assert_eq!(parse_i64("15"), Some(15));
    assert_eq!(parse_i64("-60"), Some(-60));
    assert_eq!(parse_i64("9223372036854775807"), Some(i64::MAX));
    assert_eq!(parse_i64("-9223372036854775808"), Some(i64::MIN));
}

#[test]
fn test_parse_i64_rejects() {
    assert_eq!(parse_i64(""), None);
    assert_eq!(parse_i64("-"), None);
    assert_eq!(parse_i64("12a"), None);
    assert_eq!(parse_i64(" 12"), None);
    assert_eq!(parse_i64("9223372036854775808"), None);
    assert_eq!(parse_i64("-9223372036854775809"), None);
}

#[test]
fn test_bearer_token_extraction() {
    assert_eq!(bearer_token("Bearer abc.def.ghi"), Some("abc.def.ghi".to_string()));
    assert_eq!(bearer_token("Token abc"), None);
    assert_eq!(bearer_token("Bearer"), None);
    assert_eq!(bearer_token(""), None);
}

#[test]
fn test_select_access_token_cookie_precedence() {
    assert_eq!(
        select_access_token(Some("c".to_string()), Some("h".to_string())),
        Some("c".to_string())
    );
    assert_eq!(select_access_token(None, Some("h".to_string())), Some("h".to_string()));
    assert_eq!(select_access_token(None, None), None);
}

#[test]
fn test_user_email_trims_and_rejects_empty() {
    let e = UserEmail::new("  a@test.com  ").unwrap();
    assert_eq!(e.get(), "a@test.com");
    assert!(UserEmail::new("").is_err());
    assert!(UserEmail::new("   ").is_err());
}

#[test]
fn test_user_password_trims_and_rejects_empty() {
    let p = UserPassword::new(" pw123456 ").unwrap();
    assert_eq!(p.get(), "pw123456");
    assert!(UserPassword::new("").is_err());
    assert!(UserPassword::new("  \t ").is_err());
}

#[test]
fn test_status_raw_value() {
    assert_eq!(Status::Success.raw_value(), "success");
    assert_eq!(Status::Failure.raw_value(), "failure");
}

#[test]
fn test_api_error_duplicate_message() {
    let email = UserEmail::new("a@test.com").unwrap();
    let err = ApiError::from_register_user_error(&RegisterUserError::Duplicate { email });
    assert_eq!(err.message(), "User with email a@test.com already exists");
    assert!(matches!(err, ApiError::UnprocessableEntity(_)));
}

#[test]
fn test_user_new_fields() {
    let u = authentication_service::user::User::new("a@test.com", "hash");
    assert_eq!(u.email, "a@test.com");
    assert_eq!(u.password, "hash");
    assert!(u.created_at.is_some());
    assert_eq!(u.created_at, u.updated_at);
}

#[test]
fn test_api_error_missing_credentials_message() {
    let err = ApiError::from_refresh_token_error(
        authentication_service::refresh_token::RefreshTokenError::MissingCredentials,
    );
    assert_eq!(err.message(), "Missing credentials");
    assert!(matches!(err, ApiError::Unauthorized(_)));
}

#[test]
fn test_login_schema_validation() {
    let ok = LoginUserSchema { email: " A@Test.com ".to_string(), password: "pw".to_string() };
    let req = ok.try_into_domain().unwrap();
    assert_eq!(req.email.get(), "A@Test.com");
    assert_eq!(req.password.get(), "pw");

    let bad = LoginUserSchema { email: "  ".to_string(), password: "pw".to_string() };
    let err = bad.try_into_domain();
    assert!(matches!(err, Err(ApiError::UnprocessableEntity(_))));

    let bad2 = LoginUserSchema { email: "a@b.c".to_string(), password: " ".to_string() };
    assert!(bad2.try_into_domain().is_err());
}
