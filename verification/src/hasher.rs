//! Credential hashing and verification.
//!
//! Passwords are hashed with a salted, cost-parameterized one-way algorithm
//! and never stored in the clear. The hash carries its own salt and cost, so
//! verification is a deterministic function of the plaintext and the digest.

use vstd::prelude::*;
use crate::error::ApiErrorKind;

verus! {

/// Whether this plaintext password matches this digest. Verification is
/// deterministic in its two arguments; what the digest of a given plaintext
/// is stays unnamed, because hashing salts itself with fresh randomness.
pub uninterp spec fn bcrypt_matches(password: Seq<char>, digest: Seq<char>) -> bool;

/// Whether this digest is well-formed: prefix, cost and salt parse, so that
/// verification against it reaches a verdict instead of an error.
pub uninterp spec fn bcrypt_valid(digest: Seq<char>) -> bool;

/// Relies on bcrypt::hash: a fresh random salt and the given cost produce a
/// digest that verifies against the hashed plaintext and that
/// bcrypt::verify parses without error. A cost outside the algorithm's
/// accepted range of 4 to 31 is always refused before any salt is drawn.
#[verifier::external_body]
fn bcrypt_hash(password: &str, cost: u32) -> (r: Option<String>)
    ensures
        (cost < 4 || cost > 31) ==> r is None,
        match r {
            Option::Some(d) => bcrypt_matches(password@, d@) && bcrypt_valid(d@),
            Option::None => true,
        },
{
    match bcrypt::hash(password.as_bytes(), cost) {
        Ok(d) => Some(d),
        Err(_) => None,
    }
}

/// Relies on bcrypt::verify: deterministic in plaintext and digest, it
/// reaches a verdict exactly when the digest is well-formed, and the
/// verdict answers whether the plaintext matches.
#[verifier::external_body]
fn bcrypt_verify(password: &str, digest: &str) -> (r: Option<bool>)
    ensures
        r is Some <==> bcrypt_valid(digest@),
        match r {
            Option::Some(b) => b == bcrypt_matches(password@, digest@),
            Option::None => true,
        },
{
    match bcrypt::verify(password.as_bytes(), digest) {
        Ok(b) => Some(b),
        Err(_) => None,
    }
}

/// One-way hash of a plaintext password at the given work factor.
///
/// On success the digest is well-formed and verifies against this
/// plaintext. Failure (an unacceptable cost, or exhausted entropy) surfaces
/// as an internal error and nothing else; a cost outside 4 to 31 always
/// fails.
pub fn hash_password(password: &str, cost: u32) -> (r: Result<String, ApiErrorKind>)
    ensures
        (cost < 4 || cost > 31) ==> r is Err,
        match r {
            Result::Ok(d) => bcrypt_matches(password@, d@) && bcrypt_valid(d@),
            Result::Err(k) => k == ApiErrorKind::InternalServerError,
        },
{
    match bcrypt_hash(password, cost) {
        Option::Some(d) => Ok(d),
        Option::None => Err(ApiErrorKind::InternalServerError),
    }
}

/// Whether a plaintext matches a stored digest.
///
/// A malformed digest or a wrong password is answered with `false`, never
/// with an error or a panic: the one failure the hashing library can report
/// here is a digest it cannot parse, and that is a mismatch, not a fault.
pub fn verify_password(password: &str, digest: &str) -> (r: bool)
    ensures
        r == (bcrypt_valid(digest@) && bcrypt_matches(password@, digest@)),
{
    match bcrypt_verify(password, digest) {
        Option::Some(b) => b,
        Option::None => false,
    }
}

} // verus!
