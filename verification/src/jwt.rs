//! The token codec: issuing and verifying signed tokens.
//!
//! Claims are built and taken apart by verified code; the asymmetric
//! signature itself — RS256, so the verifying party never holds signing
//! capability — is delegated to the JWT library behind trusted wrappers.
//! Key material arrives base64-encoded, as the configuration carries it,
//! and is decoded to PEM bytes before use.
use crate::token::TokenClaims;
use crate::token::TokenDetails;
use crate::token_uuid::is_uuid_text;
use crate::token_uuid::uuid_chars;
use crate::token_uuid::uuid_string;
use crate::token_uuid::uuid_value;
use crate::token_uuid::parse_uuid;
use crate::system::current_timestamp;
use crate::system::fresh_uuid;
use base64::Engine;
use vstd::prelude::*;

verus! {

/// Why the codec failed: the key material would not decode, signing
/// failed, or — on verification — the token is not acceptable. Which of
/// signature, expiry or claim shape failed is deliberately not surfaced.
#[derive(Debug, PartialEq, Eq, Structural)]
pub enum TokenCodecError {
    KeyDecoding,
    Signing,
    Invalid,
}

/// The bytes that standard-alphabet base64 text decodes to, or nothing if
/// the text is not valid base64; a function of the text alone.
pub uninterp spec fn base64_decoding(s: Seq<char>) -> Option<Seq<u8>>;

/// Relies on base64::Engine::decode with the standard engine: the result
/// depends on the input characters alone.
#[verifier::external_body]
fn base64_decode(s: &str) -> (r: Result<Vec<u8>, TokenCodecError>)
    ensures
        r is Ok <==> base64_decoding(s@) is Some,
        r matches Ok(v) ==> Some(v@) == base64_decoding(s@),
        r is Err ==> r matches Err(TokenCodecError::KeyDecoding),
{
    match base64::engine::general_purpose::STANDARD.decode(s) {
        Ok(v) => Ok(v),
        Err(_) => Err(TokenCodecError::KeyDecoding),
    }
}

/// The signed compact form that the JWT library produces for this claim
/// set under this PEM private key, or nothing if the key is unusable. The
/// RS256 signature is deterministic, so the result is a function of the
/// claims and the key alone.
pub uninterp spec fn token_encoding(
    sub: Seq<char>,
    token_uuid: Seq<char>,
    exp: i64,
    iat: i64,
    nbf: i64,
    pem: Seq<u8>,
) -> Option<Seq<char>>;

/// Relies on jsonwebtoken::encode with an RS256 header and
/// jsonwebtoken::EncodingKey::from_rsa_pem: signs exactly the five claims,
/// deterministically in the claims and key.
#[verifier::external_body]
fn encode_claims(claims: &TokenClaims, pem: &Vec<u8>) -> (r: Result<String, TokenCodecError>)
    ensures
        r is Ok <==> token_encoding(
            claims.sub@,
            claims.token_uuid@,
            claims.exp,
            claims.iat,
            claims.nbf,
            pem@,
        ) is Some,
        r matches Ok(t) ==> Some(t@) == token_encoding(
            claims.sub@,
            claims.token_uuid@,
            claims.exp,
            claims.iat,
            claims.nbf,
            pem@,
        ),
        r is Err ==> r matches Err(TokenCodecError::KeyDecoding) || r matches Err(
            TokenCodecError::Signing,
        ),
{
    let mut m = serde_json::Map::new();
    m.insert("sub".to_string(), serde_json::Value::String(claims.sub.clone()));
    m.insert("token_uuid".to_string(), serde_json::Value::String(claims.token_uuid.clone()));
    m.insert("exp".to_string(), serde_json::Value::from(claims.exp));
    m.insert("iat".to_string(), serde_json::Value::from(claims.iat));
    m.insert("nbf".to_string(), serde_json::Value::from(claims.nbf));
    let key = jsonwebtoken::EncodingKey::from_rsa_pem(pem.as_slice()).map_err(|_| TokenCodecError::KeyDecoding)?;
    let header = jsonwebtoken::Header::new(jsonwebtoken::Algorithm::RS256);
    jsonwebtoken::encode(&header, &serde_json::Value::Object(m), &key).map_err(|_| TokenCodecError::Signing)
}

/// The subject and token-identifier claims that a token carries under a
/// PEM public key, or nothing if the signature or claim fields are bad: a
/// function of the token text and the key alone. Only whether the time
/// bounds pass depends on the clock, never the claim values themselves.
pub uninterp spec fn decoded_claims(token: Seq<char>, pem: Seq<u8>) -> Option<(Seq<char>, Seq<char>)>;

/// Relies on jsonwebtoken::decode with RS256: checks the signature against
/// the PEM public key and the time bounds — not-before and expiry — against
/// the real clock, then hands out the subject and token-identifier claims.
/// Whether it succeeds depends on the clock, so success is not promised;
/// but the claims handed out are the token's own, a function of the token
/// and the key.
#[verifier::external_body]
fn decode_token(token: &str, pem: &Vec<u8>) -> (r: Result<(String, String), TokenCodecError>)
    ensures
        r matches Ok(p) ==> Some((p.0@, p.1@)) == decoded_claims(token@, pem@),
{
    let key = jsonwebtoken::DecodingKey::from_rsa_pem(pem.as_slice()).map_err(|_| TokenCodecError::Invalid)?;
    let mut validation = jsonwebtoken::Validation::new(jsonwebtoken::Algorithm::RS256);
    validation.validate_nbf = true;
    let data = jsonwebtoken::decode::<serde_json::Value>(token, &key, &validation).map_err(|_| TokenCodecError::Invalid)?;
    let sub = data.claims.get("sub").and_then(|v| v.as_str()).ok_or(TokenCodecError::Invalid)?;
    let tid = data.claims.get("token_uuid").and_then(|v| v.as_str()).ok_or(TokenCodecError::Invalid)?;
    Ok((sub.to_string(), tid.to_string()))
}

/// Whether the expiry `now + ttl minutes` is representable.
pub open spec fn claims_representable(now: i64, ttl: i64) -> bool {
    &&& i64::MIN <= ttl * 60 <= i64::MAX
    &&& i64::MIN <= now + ttl * 60 <= i64::MAX
}

/// Builds the claim set issued at `now` for `user_id` with lifetime `ttl`
/// minutes under the fresh identifier `token_id`: issued-at and not-before
/// are `now`, expiry is `now + ttl minutes`. Fails exactly when that
/// expiry is not representable.
pub fn issue_claims(user_id: u128, token_id: u128, now: i64, ttl: i64) -> (r: Option<TokenClaims>)
    ensures
        r is Some <==> claims_representable(now, ttl),
        r matches Some(c) ==> c@.sub == uuid_chars(user_id) && c@.token_uuid == uuid_chars(token_id)
            && c@.exp == now + ttl * 60 && c@.iat == now && c@.nbf == now,
{
    let seconds = match ttl.checked_mul(60) {
        Some(s) => s,
        None => {
            return None;
        },
    };
    let exp = match now.checked_add(seconds) {
        Some(e) => e,
        None => {
            return None;
        },
    };
    Some(
        TokenClaims {
            sub: uuid_string(user_id),
            token_uuid: uuid_string(token_id),
            exp,
            iat: now,
            nbf: now,
        },
    )
}

/// Reassembles token details from the two identifier claims of a decoded
/// token: both must be hyphenated UUID text. Exactly the malformed-claims
/// check of verification, verified for every claim value.
pub fn token_details_from_claims(sub: &str, token_uuid: &str) -> (r: Option<TokenDetails>)
    ensures
        r is Some <==> is_uuid_text(sub@) && is_uuid_text(token_uuid@),
        r matches Some(d) ==> d.user_id == uuid_value(sub@) && d.token_uuid == uuid_value(
            token_uuid@,
        ) && d.token is None && d.expires_in is None,
{
    let user_id = match parse_uuid(sub) {
        Some(v) => v,
        None => {
            return None;
        },
    };
    let tid = match parse_uuid(token_uuid) {
        Some(v) => v,
        None => {
            return None;
        },
    };
    Some(TokenDetails { token: None, token_uuid: tid, user_id, expires_in: None })
}

/// Issues a signed token for `user_id` with lifetime `ttl` minutes: a
/// fresh token identifier — distinct from the subject — time claims read
/// from the clock, and an RS256 signature under the base64-encoded PEM
/// private key. On success the token is exactly the signed encoding of
/// those claims; key material that is not base64 is always a key-decoding
/// failure.
pub fn generate_jwt(user_id: u128, ttl: i64, private_key: &str) -> (r: Result<
    TokenDetails,
    TokenCodecError,
>)
    ensures
        r matches Ok(d) ==> {
            &&& d.user_id == user_id
            &&& d.token_uuid != user_id
            &&& d.token is Some
            &&& d.expires_in is Some
            &&& base64_decoding(private_key@) is Some
            &&& i64::MIN <= ttl * 60 <= i64::MAX
            &&& i64::MIN <= d.expires_in->Some_0 - ttl * 60 <= i64::MAX
            &&& Some(d.token->Some_0@) == token_encoding(
                uuid_chars(user_id),
                uuid_chars(d.token_uuid),
                d.expires_in->Some_0,
                (d.expires_in->Some_0 - ttl * 60) as i64,
                (d.expires_in->Some_0 - ttl * 60) as i64,
                base64_decoding(private_key@)->Some_0,
            )
        },
        base64_decoding(private_key@) is None ==> r matches Err(TokenCodecError::KeyDecoding),
        r is Err ==> r matches Err(TokenCodecError::KeyDecoding) || r matches Err(
            TokenCodecError::Signing,
        ),
{
    let pem = base64_decode(private_key)?;
    let now = current_timestamp();
    let token_id = fresh_uuid();
    if token_id == user_id {
        // One chance in 2^128; refusing the draw keeps the token identifier
        // distinct from the subject, as a revocation key must be.
        return Err(TokenCodecError::Signing);
    }
    let claims = match issue_claims(user_id, token_id, now, ttl) {
        Some(c) => c,
        None => {
            return Err(TokenCodecError::Signing);
        },
    };
    let exp = claims.exp;
    let token = encode_claims(&claims, &pem)?;
    Ok(TokenDetails { token: Some(token), token_uuid: token_id, user_id, expires_in: Some(exp) })
}

/// Verifies a presented token against the base64-encoded PEM public key:
/// signature and time bounds are checked by the JWT library, the claim
/// shape by verified code. On success the returned identifiers are exactly
/// the token's own claims parsed as UUID text. Key material that is not
/// base64 is always — and only — a key-decoding failure; every other
/// failure mode surfaces as one undistinguished error, so a caller cannot
/// tell a bad signature from a lapsed expiry or malformed claims.
pub fn verify_jwt(public_key: &str, token: &str) -> (r: Result<TokenDetails, TokenCodecError>)
    ensures
        r matches Ok(d) ==> {
            &&& d.token is None
            &&& d.expires_in is None
            &&& base64_decoding(public_key@) is Some
            &&& decoded_claims(token@, base64_decoding(public_key@)->Some_0) matches Some(c)
                && is_uuid_text(c.0) && is_uuid_text(c.1) && d.user_id == uuid_value(c.0)
                && d.token_uuid == uuid_value(c.1)
        },
        (r matches Err(TokenCodecError::KeyDecoding)) <==> base64_decoding(public_key@) is None,
        r is Err ==> r matches Err(TokenCodecError::KeyDecoding) || r matches Err(
            TokenCodecError::Invalid,
        ),
{
    let pem = base64_decode(public_key)?;
    let (sub, token_uuid) = match decode_token(token, &pem) {
        Ok(p) => p,
        Err(_) => {
            return Err(TokenCodecError::Invalid);
        },
    };
    match token_details_from_claims(sub.as_str(), token_uuid.as_str()) {
        Some(d) => Ok(d),
        None => Err(TokenCodecError::Invalid),
    }
}

} // verus!
