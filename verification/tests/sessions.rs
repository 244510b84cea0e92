use authcore::decimal::u128_to_dec;
use authcore::error::ApiErrorKind;
use authcore::jwt::{create_jwt, verify_jwt};
use authcore::session::{
    create_session, create_session_with_token, invalidate_session, logout, validate_session,
};
use authcore::store::AuthStore;

const SECRET: &str = "server-secret";
const TTL_30_DAYS: u64 = 2_592_000;

fn store_with_session(sid: u128, created: u64) -> (AuthStore, String) {
    let mut store = AuthStore::new();
    let token = create_jwt(&u128_to_dec(sid), SECRET).unwrap();
    create_session_with_token(
        &mut store,
        sid,
        42,
        "laptop".to_string(),
        "127.0.0.1".to_string(),
        token.clone(),
        created,
        TTL_30_DAYS,
    )
    .unwrap();
    (store, token)
}

#[test]
fn session_validates_inside_its_window() {
    let created = 1_700_000_000;
    let (store, token) = store_with_session(7, created);
    assert_eq!(validate_session(&store, &token, SECRET, created), Ok(7));
    assert_eq!(validate_session(&store, &token, SECRET, created + TTL_30_DAYS - 1), Ok(7));
}

#[test]
fn session_expires_at_the_window_edge() {
    let created = 1_700_000_000;
    let (store, token) = store_with_session(7, created);
    assert_eq!(
        validate_session(&store, &token, SECRET, created + TTL_30_DAYS),
        Err(ApiErrorKind::InvalidSession)
    );
    assert_eq!(
        validate_session(&store, &token, SECRET, created + TTL_30_DAYS + 12345),
        Err(ApiErrorKind::InvalidSession)
    );
}

#[test]
fn garbage_and_foreign_tokens_are_invalid() {
    let (store, _token) = store_with_session(7, 1000);
    assert_eq!(
        validate_session(&store, "not-a-token", SECRET, 1000),
        Err(ApiErrorKind::InvalidSession)
    );
    // well-signed, but under another secret
    let forged = create_jwt(&u128_to_dec(7), "other-secret").unwrap();
    assert_eq!(validate_session(&store, &forged, SECRET, 1000), Err(ApiErrorKind::InvalidSession));
    // well-signed under the right secret, but no such session row
    let dangling = create_jwt(&u128_to_dec(8), SECRET).unwrap();
    assert_eq!(
        validate_session(&store, &dangling, SECRET, 1000),
        Err(ApiErrorKind::InvalidSession)
    );
}

#[test]
fn invalidation_is_idempotent() {
    let (mut store, token) = store_with_session(7, 1000);
    invalidate_session(&mut store, 7);
    assert_eq!(store.sessions.len(), 0);
    assert_eq!(validate_session(&store, &token, SECRET, 1000), Err(ApiErrorKind::InvalidSession));
    // invalidating the already-invalid session is ok and changes nothing
    invalidate_session(&mut store, 7);
    assert_eq!(store.sessions.len(), 0);
}

#[test]
fn logout_deletes_by_token_and_tolerates_repeats() {
    let (mut store, token) = store_with_session(9, 1000);
    logout(&mut store, &token, SECRET);
    assert_eq!(store.sessions.len(), 0);
    logout(&mut store, &token, SECRET);
    assert_eq!(store.sessions.len(), 0);
    logout(&mut store, "garbage", SECRET);
    assert_eq!(store.sessions.len(), 0);
}

#[test]
fn session_id_conflict_is_an_internal_error() {
    let (mut store, token) = store_with_session(7, 1000);
    let r = create_session_with_token(
        &mut store,
        7,
        43,
        "phone".to_string(),
        "10.0.0.1".to_string(),
        token,
        2000,
        TTL_30_DAYS,
    );
    assert_eq!(r, Err(ApiErrorKind::InternalServerError));
    assert_eq!(store.sessions.len(), 1);
}

#[test]
fn expiry_overflow_is_an_internal_error() {
    let mut store = AuthStore::new();
    let token = create_jwt(&u128_to_dec(1), SECRET).unwrap();
    let r = create_session_with_token(
        &mut store,
        1,
        42,
        "laptop".to_string(),
        "127.0.0.1".to_string(),
        token,
        u64::MAX,
        1,
    );
    assert_eq!(r, Err(ApiErrorKind::InternalServerError));
    assert_eq!(store.sessions.len(), 0);
}

#[test]
fn create_session_issues_a_token_that_resolves() {
    let mut store = AuthStore::new();
    let token = create_session(
        &mut store,
        42,
        "laptop".to_string(),
        "127.0.0.1".to_string(),
        SECRET,
        TTL_30_DAYS,
    )
    .unwrap();
    assert_eq!(store.sessions.len(), 1);
    let sid = store.sessions[0].id;
    assert_eq!(store.sessions[0].account_id, 42);
    assert_eq!(store.sessions[0].device_name, "laptop");
    assert_eq!(store.sessions[0].ip_address, "127.0.0.1");
    assert_eq!(
        store.sessions[0].expires_at,
        store.sessions[0].created_at + TTL_30_DAYS
    );
    // a freshly created session validates at its own creation time
    assert_eq!(validate_session(&store, &token, SECRET, store.sessions[0].created_at), Ok(sid));
}

#[test]
fn token_verification_is_a_pure_round_trip() {
    let token = create_jwt(&u128_to_dec(987654321), SECRET).unwrap();
    assert_eq!(verify_jwt(&token, SECRET), Ok(987654321));
    assert_eq!(verify_jwt(&token, "other-secret"), Err(ApiErrorKind::InvalidSession));
    assert_eq!(verify_jwt("nonsense", SECRET), Err(ApiErrorKind::InvalidSession));
}
