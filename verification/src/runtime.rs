//! The engine's sources of freshness: identifiers, the clock, and one-time
//! codes.
//!
//! Nothing useful can be promised of a random or time-dependent value, so
//! these wrappers state only what holds of every outcome; every function
//! that consumes such a value is verified for all values it could take.

use vstd::prelude::*;
use rand::distributions::DistString;

verus! {

/// Relies on uuid::Uuid::now_v7: a fresh time-ordered 128-bit identifier.
#[verifier::external_body]
pub(crate) fn fresh_id() -> (r: u128) {
    uuid::Uuid::now_v7().as_u128()
}

/// Relies on chrono::Utc::now: the current time as whole seconds since the
/// epoch.
#[verifier::external_body]
pub(crate) fn now_seconds() -> (r: i64) {
    chrono::Utc::now().timestamp()
}

/// An ASCII letter or digit: the alphabet one-time codes are drawn from.
pub open spec fn is_code_char(c: char) -> bool {
    ('a' as int <= c as int && c as int <= 'z' as int) || ('A' as int <= c as int && c as int
        <= 'Z' as int) || ('0' as int <= c as int && c as int <= '9' as int)
}

/// Relies on rand's Alphanumeric distribution: six random characters, each
/// an ASCII letter or digit.
#[verifier::external_body]
pub(crate) fn generate_code() -> (r: String)
    ensures
        r@.len() == 6,
        forall|i: int| 0 <= i < r@.len() ==> is_code_char(#[trigger] r@[i]),
{
    rand::distributions::Alphanumeric.sample_string(&mut rand::thread_rng(), 6)
}

} // verus!
