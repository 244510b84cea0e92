//! The session lifecycle: creation, validation, and invalidation.
//!
//! A session is created once at successful authentication and never mutated;
//! it becomes invalid when its expiry passes (validity is computed lazily at
//! validation time, no sweep), or when it is explicitly invalidated. The
//! lifetime is a fixed span handed in by the caller's configuration.

use vstd::prelude::*;
use crate::decimal::{dec_of, parse_dec, u128_to_dec};
use crate::error::ApiErrorKind;
use crate::jwt::{create_jwt, jwt_of, jwt_sub_of, verify_jwt};
use crate::runtime::{fresh_id, now_seconds};
use crate::store::{has_session_id, without_session, AuthStore, Session, SessionV};

verus! {

/// Record a new session row under a caller-chosen identifier and token.
///
/// Succeeds exactly when the identifier is not yet taken and the expiry
/// `now + ttl` does not overflow; any other outcome would corrupt the store
/// and surfaces as an internal error with the store untouched.
pub fn create_session_with_token(
    store: &mut AuthStore,
    session_id: u128,
    account_id: u128,
    device_name: String,
    ip_address: String,
    token: String,
    now: u64,
    ttl: u64,
) -> (r: Result<(), ApiErrorKind>)
    requires
        old(store).wf(),
    ensures
        final(store).wf(),
        final(store)@.accounts == old(store)@.accounts,
        final(store)@.challenges == old(store)@.challenges,
        r is Ok <==> (!has_session_id(old(store)@.sessions, session_id) && ttl <= u64::MAX - now),
        match r {
            Result::Ok(_) => final(store)@.sessions == old(store)@.sessions.push(
                SessionV {
                    id: session_id,
                    account_id,
                    device_name: device_name@,
                    ip_address: ip_address@,
                    created_at: now,
                    expires_at: (now + ttl) as u64,
                    token: token@,
                },
            ),
            Result::Err(k) => k == ApiErrorKind::InternalServerError && final(store)@.sessions
                == old(store)@.sessions,
        },
{
    if ttl > u64::MAX - now {
        return Err(ApiErrorKind::InternalServerError);
    }
    match store.find_session_by_id(session_id) {
        Option::Some(_) => Err(ApiErrorKind::InternalServerError),
        Option::None => {
            store.insert_session(
                Session {
                    id: session_id,
                    account_id,
                    device_name,
                    ip_address,
                    created_at: now,
                    expires_at: now + ttl,
                    token,
                },
            );
            Ok(())
        },
    }
}

/// One session row was appended: it is bound to the given account, device
/// and IP, lives for `ttl` seconds past its creation, and its token is the
/// signed form of its own fresh identifier.
pub open spec fn session_created(
    pre: Seq<SessionV>,
    post: Seq<SessionV>,
    account_id: u128,
    device_name: Seq<char>,
    ip_address: Seq<char>,
    secret: Seq<char>,
    ttl: u64,
    token: Seq<char>,
) -> bool {
    exists|sv: SessionV|
        {
            &&& post == pre.push(sv)
            &&& sv.account_id == account_id
            &&& sv.device_name == device_name
            &&& sv.ip_address == ip_address
            &&& sv.expires_at == sv.created_at + ttl
            &&& sv.token == token
            &&& token == jwt_of(dec_of(sv.id as nat), secret)
            &&& jwt_sub_of(token, secret) == Some(dec_of(sv.id as nat))
            &&& !has_session_id(pre, sv.id)
        }
}

/// Create a session for an account: mint a fresh time-sortable identifier,
/// sign a token whose subject is that identifier, and persist the row with
/// expiry `now + ttl`.
///
/// The identifier and the clock are fresh draws, so the contract states what
/// holds of every outcome: on success, exactly one row was appended, bound to
/// the account, device and IP, and the returned token is the signed form of
/// the new row's identifier.
pub fn create_session(
    store: &mut AuthStore,
    account_id: u128,
    device_name: String,
    ip_address: String,
    secret: &str,
    ttl: u64,
) -> (r: Result<String, ApiErrorKind>)
    requires
        old(store).wf(),
    ensures
        final(store).wf(),
        final(store)@.accounts == old(store)@.accounts,
        final(store)@.challenges == old(store)@.challenges,
        match r {
            Result::Ok(t) => session_created(
                old(store)@.sessions,
                final(store)@.sessions,
                account_id,
                device_name@,
                ip_address@,
                secret@,
                ttl,
                t@,
            ),
            Result::Err(k) => k == ApiErrorKind::InternalServerError && final(store)@.sessions
                == old(store)@.sessions,
        },
{
    let session_id = fresh_id();
    let now_i = now_seconds();
    if now_i < 0 {
        return Err(ApiErrorKind::InternalServerError);
    }
    let now = now_i as u64;
    let sub = u128_to_dec(session_id);
    let token = match create_jwt(sub.as_str(), secret) {
        Result::Ok(t) => t,
        Result::Err(k) => {
            return Err(k);
        },
    };
    let stored = token.clone();
    match create_session_with_token(
        store,
        session_id,
        account_id,
        device_name,
        ip_address,
        stored,
        now,
        ttl,
    ) {
        Result::Ok(_) => {
            proof {
                let sv = SessionV {
                    id: session_id,
                    account_id,
                    device_name: device_name@,
                    ip_address: ip_address@,
                    created_at: now,
                    expires_at: (now + ttl) as u64,
                    token: token@,
                };
                assert(store@.sessions == old(store)@.sessions.push(sv));
                assert(session_created(
                    old(store)@.sessions,
                    store@.sessions,
                    account_id,
                    device_name@,
                    ip_address@,
                    secret@,
                    ttl,
                    token@,
                ));
            }
            Ok(token)
        },
        Result::Err(k) => Err(k),
    }
}

/// Resolve a token to a live session identifier.
///
/// The token must carry a well-signed subject, the subject must parse as an
/// identifier, the referenced session row must exist, and the current time
/// must lie strictly before its expiry; in every other case the one answer
/// is `InvalidSession`. Validation neither refreshes nor extends expiry.
pub fn validate_session(store: &AuthStore, token: &str, secret: &str, now: u64) -> (r: Result<
    u128,
    ApiErrorKind,
>)
    requires
        store.wf(),
    ensures
        match r {
            Result::Ok(sid) => {
                &&& match jwt_sub_of(token@, secret@) {
                    Option::Some(sub) => parse_dec(sub) == Some(sid),
                    Option::None => false,
                }
                &&& exists|i: int|
                    0 <= i < store@.sessions.len() && #[trigger] store@.sessions[i].id == sid && now
                        < store@.sessions[i].expires_at
            },
            Result::Err(k) => {
                &&& k == ApiErrorKind::InvalidSession
                &&& match jwt_sub_of(token@, secret@) {
                    Option::None => true,
                    Option::Some(sub) => match parse_dec(sub) {
                        Option::None => true,
                        Option::Some(sid) => forall|i: int|
                            0 <= i < store@.sessions.len() && #[trigger] store@.sessions[i].id
                                == sid ==> now >= store@.sessions[i].expires_at,
                    },
                }
            },
        },
{
    let sid = match verify_jwt(token, secret) {
        Result::Ok(v) => v,
        Result::Err(k) => {
            return Err(k);
        },
    };
    match store.find_session_by_id(sid) {
        Option::Some(i) => {
            if now < store.sessions[i].expires_at {
                Ok(sid)
            } else {
                proof {
                    assert forall|j: int|
                        0 <= j < store@.sessions.len() && #[trigger] store@.sessions[j].id
                            == sid implies now >= store@.sessions[j].expires_at by {
                        if j < i as int {
                            assert(store@.sessions[j].id != store@.sessions[i as int].id);
                        } else if j > i as int {
                            assert(store@.sessions[i as int].id != store@.sessions[j].id);
                        }
                    }
                }
                Err(ApiErrorKind::InvalidSession)
            }
        },
        Option::None => Err(ApiErrorKind::InvalidSession),
    }
}

/// Delete the session of this identifier, if it is there.
///
/// Logout is idempotent: invalidating an already-invalid session is not an
/// error and changes nothing.
pub fn invalidate_session(store: &mut AuthStore, session_id: u128)
    requires
        old(store).wf(),
    ensures
        final(store).wf(),
        final(store)@.sessions == without_session(old(store)@.sessions, session_id),
        final(store)@.accounts == old(store)@.accounts,
        final(store)@.challenges == old(store)@.challenges,
{
    store.remove_session(session_id);
}

/// Log a token out: if it resolves to a session identifier, delete that
/// session; a token that resolves to nothing leaves the store as it was.
/// Either way the operation succeeds.
pub fn logout(store: &mut AuthStore, token: &str, secret: &str)
    requires
        old(store).wf(),
    ensures
        final(store).wf(),
        final(store)@.accounts == old(store)@.accounts,
        final(store)@.challenges == old(store)@.challenges,
        match jwt_sub_of(token@, secret@) {
            Option::None => final(store)@.sessions == old(store)@.sessions,
            Option::Some(sub) => match parse_dec(sub) {
                Option::None => final(store)@.sessions == old(store)@.sessions,
                Option::Some(sid) => final(store)@.sessions == without_session(
                    old(store)@.sessions,
                    sid,
                ),
            },
        },
{
    match verify_jwt(token, secret) {
        Result::Ok(sid) => {
            invalidate_session(store, sid);
        },
        Result::Err(_) => {
        },
    }
}

} // verus!
