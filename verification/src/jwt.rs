//! Signed session tokens.
//!
//! A token is a compact signed string whose one claim is its subject — here,
//! the decimal session identifier. Signing is deterministic in the subject
//! and the server secret; the token carries no expiry claim, because expiry
//! is enforced against the stored session row, the source of truth.

use vstd::prelude::*;
use crate::decimal::{parse_dec, parse_dec_str};
use crate::error::ApiErrorKind;

verus! {

/// The signed compact token for this subject under this secret.
pub uninterp spec fn jwt_of(sub: Seq<char>, secret: Seq<char>) -> Seq<char>;

/// The subject that this token yields under this secret, if its signature
/// and shape check out.
pub uninterp spec fn jwt_sub_of(token: Seq<char>, secret: Seq<char>) -> Option<Seq<char>>;

/// Relies on jsonwebtoken::encode: an HS256 compact token over the single
/// claim `sub`, deterministic in subject and secret; decoding it with the
/// same secret returns that subject. For this configuration — the default
/// header and a plain byte-string key — encoding has no failing path: the
/// algorithm families agree, the fixed header and the one-string-claim
/// object always serialize, and HMAC signing always succeeds.
#[verifier::external_body]
fn jwt_encode(sub: &str, secret: &str) -> (r: Option<String>)
    ensures
        r is Some,
        match r {
            Option::Some(t) => t@ == jwt_of(sub@, secret@) && jwt_sub_of(t@, secret@) == Some(
                sub@,
            ),
            Option::None => true,
        },
{
    let mut claims = serde_json::Map::new();
    claims.insert("sub".to_string(), serde_json::Value::String(sub.to_string()));
    let key = jsonwebtoken::EncodingKey::from_secret(secret.as_bytes());
    let header = jsonwebtoken::Header::default();
    match jsonwebtoken::encode(&header, &serde_json::Value::Object(claims), &key) {
        Ok(t) => Some(t),
        Err(_) => None,
    }
}

/// Relies on jsonwebtoken::decode: deterministic in token and secret (expiry
/// validation is off and no claim is required), it checks shape and HS256
/// signature and hands back the `sub` claim, or nothing.
#[verifier::external_body]
fn jwt_decode_sub(token: &str, secret: &str) -> (r: Option<String>)
    ensures
        match r {
            Option::Some(s) => jwt_sub_of(token@, secret@) == Some(s@),
            Option::None => jwt_sub_of(token@, secret@) is None,
        },
{
    let mut validation = jsonwebtoken::Validation::new(jsonwebtoken::Algorithm::HS256);
    validation.required_spec_claims = std::collections::HashSet::new();
    validation.validate_exp = false;
    let key = jsonwebtoken::DecodingKey::from_secret(secret.as_bytes());
    match jsonwebtoken::decode::<serde_json::Value>(token, &key, &validation) {
        Ok(data) => match data.claims.get("sub") {
            Some(serde_json::Value::String(s)) => Some(s.clone()),
            _ => None,
        },
        Err(_) => None,
    }
}

/// Mint the signed token whose subject claim is `sub`.
///
/// Signing is a pure function of subject and secret and always succeeds:
/// equal arguments always yield the identical token.
pub fn create_jwt(sub: &str, secret: &str) -> (r: Result<String, ApiErrorKind>)
    ensures
        r is Ok,
        match r {
            Result::Ok(t) => t@ == jwt_of(sub@, secret@) && jwt_sub_of(t@, secret@) == Some(sub@),
            Result::Err(k) => k == ApiErrorKind::InternalServerError,
        },
{
    match jwt_encode(sub, secret) {
        Option::Some(t) => Ok(t),
        Option::None => Err(ApiErrorKind::InternalServerError),
    }
}

/// Resolve a signed token to the session identifier it names.
///
/// The inverse of [`create_jwt`]: a pure check, no store involved. A bad
/// signature, a malformed token and an unparsable subject are all one
/// `InvalidSession`; whether the named session still exists and is unexpired
/// is the session manager's question, not this one's.
pub fn verify_jwt(token: &str, secret: &str) -> (r: Result<u128, ApiErrorKind>)
    ensures
        match r {
            Result::Ok(sid) => match jwt_sub_of(token@, secret@) {
                Option::Some(sub) => parse_dec(sub) == Some(sid),
                Option::None => false,
            },
            Result::Err(k) => {
                &&& k == ApiErrorKind::InvalidSession
                &&& match jwt_sub_of(token@, secret@) {
                    Option::None => true,
                    Option::Some(sub) => parse_dec(sub) is None,
                }
            },
        },
{
    let sub = match jwt_decode_sub(token, secret) {
        Option::Some(s) => s,
        Option::None => {
            return Err(ApiErrorKind::InvalidSession);
        },
    };
    match parse_dec_str(sub.as_str()) {
        Option::Some(sid) => Ok(sid),
        Option::None => Err(ApiErrorKind::InvalidSession),
    }
}

} // verus!
