use authentication_service::jwt::generate_jwt;
use authentication_service::jwt::verify_jwt;
use base64::Engine;
use rsa::pkcs1::EncodeRsaPrivateKey;
use rsa::pkcs1::EncodeRsaPublicKey;

fn make_keys() -> (String, String) {
    let mut rng = rand::thread_rng();
    let key = rsa::RsaPrivateKey::new(&mut rng, 1024).unwrap();
    let private_pem = key.to_pkcs1_pem(rsa::pkcs1::LineEnding::LF).unwrap().to_string();
    let public_pem = key.to_public_key().to_pkcs1_pem(rsa::pkcs1::LineEnding::LF).unwrap();
    let engine = base64::engine::general_purpose::STANDARD;
    (engine.encode(private_pem.as_bytes()), engine.encode(public_pem.as_bytes()))
}

#[test]
fn test_encoding_jwt() {
    let (private_key, _) = make_keys();
    let user_id = uuid::Uuid::new_v4().as_u128();

    let token_details = generate_jwt(user_id, 15, &private_key);

    assert_eq!(token_details.unwrap().user_id, user_id);
}

#[test]
fn test_decoding_jwt() {
    let (private_key, public_key) = make_keys();
    let user_id = uuid::Uuid::new_v4().as_u128();

    let token_details = generate_jwt(user_id, 15, &private_key).unwrap();

    let verified_details = verify_jwt(&public_key, &token_details.token.unwrap()).unwrap();

    assert_eq!(verified_details.user_id, user_id);
    assert_eq!(verified_details.token_uuid, token_details.token_uuid);
}

#[test]
fn test_generate_jwt_fresh_token_ids() {
    let (private_key, _) = make_keys();
    let user_id = uuid::Uuid::new_v4().as_u128();

    let first = generate_jwt(user_id, 15, &private_key).unwrap();
    let second = generate_jwt(user_id, 15, &private_key).unwrap();

    assert_ne!(first.token_uuid, second.token_uuid);
}

#[test]
fn test_tampered_token_fails() {
    let (private_key, public_key) = make_keys();
    let user_id = uuid::Uuid::new_v4().as_u128();

    let token = generate_jwt(user_id, 15, &private_key).unwrap().token.unwrap();
    let mut tampered = token.clone();
    let last = tampered.pop().unwrap();
    tampered.push(if last == 'A' { 'B' } else { 'A' });

    assert!(verify_jwt(&public_key, &tampered).is_err());
}

#[test]
fn test_expired_token_fails() {
    let (private_key, public_key) = make_keys();
    let user_id = uuid::Uuid::new_v4().as_u128();

    // Expired two minutes ago: outside the verifier's leeway.
    let token = generate_jwt(user_id, -2, &private_key).unwrap().token.unwrap();

    assert!(verify_jwt(&public_key, &token).is_err());
}

#[test]
fn test_wrong_key_fails() {
    let (private_key, _) = make_keys();
    let (_, other_public_key) = make_keys();
    let user_id = uuid::Uuid::new_v4().as_u128();

    let token = generate_jwt(user_id, 15, &private_key).unwrap().token.unwrap();

    assert!(verify_jwt(&other_public_key, &token).is_err());
}

#[test]
fn test_future_not_before_rejected() {
    // A properly signed, unexpired token whose not-before lies half an
    // hour ahead must not verify yet.
    let mut rng = rand::thread_rng();
    let key = rsa::RsaPrivateKey::new(&mut rng, 1024).unwrap();
    let private_pem = key.to_pkcs1_pem(rsa::pkcs1::LineEnding::LF).unwrap().to_string();
    let public_pem = key.to_public_key().to_pkcs1_pem(rsa::pkcs1::LineEnding::LF).unwrap();
    let engine = base64::engine::general_purpose::STANDARD;
    let public_key = engine.encode(public_pem.as_bytes());

    let now = chrono::Utc::now().timestamp();
    let mut claims = serde_json::Map::new();
    claims.insert(
        "sub".to_string(),
        serde_json::Value::String("00000000-0000-0000-0000-000000000007".to_string()),
    );
    claims.insert(
        "token_uuid".to_string(),
        serde_json::Value::String("00000000-0000-0000-0000-000000000008".to_string()),
    );
    claims.insert("exp".to_string(), serde_json::Value::from(now + 3600));
    claims.insert("iat".to_string(), serde_json::Value::from(now));
    claims.insert("nbf".to_string(), serde_json::Value::from(now + 1800));
    let enc_key = jsonwebtoken::EncodingKey::from_rsa_pem(private_pem.as_bytes()).unwrap();
    let token = jsonwebtoken::encode(
        &jsonwebtoken::Header::new(jsonwebtoken::Algorithm::RS256),
        &serde_json::Value::Object(claims),
        &enc_key,
    )
    .unwrap();

    assert!(verify_jwt(&public_key, &token).is_err());
}

#[test]
fn test_bad_key_material_fails() {
    assert!(matches!(
        generate_jwt(7, 15, "!!!not-base64!!!"),
        Err(authentication_service::jwt::TokenCodecError::KeyDecoding)
    ));
    let engine = base64::engine::general_purpose::STANDARD;
    let not_pem = engine.encode("not a pem".as_bytes());
    assert!(matches!(
        generate_jwt(7, 15, &not_pem),
        Err(authentication_service::jwt::TokenCodecError::KeyDecoding)
    ));
}

#[test]
fn test_unrepresentable_lifetime_is_signing_error() {
    let (private_key, _) = make_keys();
    assert!(matches!(
        generate_jwt(7, i64::MAX, &private_key),
        Err(authentication_service::jwt::TokenCodecError::Signing)
    ));
}

#[test]
fn test_expiry_formula() {
    let (private_key, _) = make_keys();
    let before = chrono::Utc::now().timestamp();
    let details = generate_jwt(7, 15, &private_key).unwrap();
    let after = chrono::Utc::now().timestamp();

    let exp = details.expires_in.unwrap();
    assert!(exp >= before + 15 * 60);
    assert!(exp <= after + 15 * 60);
}
