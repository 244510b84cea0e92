use authcore::auth::{
    login, registration, AuthConfig, LoginForm, LoginOutcome, LoginStep, RegistrationForm,
};
use authcore::error::ApiErrorKind;
use authcore::session::validate_session;
use authcore::store::AuthStore;

const SECRET: &str = "server-secret";
const TTL_30_DAYS: u64 = 2_592_000;

fn fast_config(two_factor: bool, auto_login: bool) -> AuthConfig {
    AuthConfig {
        two_factor_enabled: two_factor,
        auto_login,
        session_ttl_seconds: TTL_30_DAYS,
        bcrypt_cost: 4,
    }
}

fn form(username: &str, email: &str, password: &str) -> RegistrationForm {
    RegistrationForm {
        username: username.to_string(),
        email: email.to_string(),
        password: password.to_string(),
    }
}

fn login_form(email: &str, password: &str, code: Option<&str>) -> LoginForm {
    LoginForm {
        email: email.to_string(),
        password: password.to_string(),
        two_factor_code: code.map(|c| c.to_string()),
    }
}

fn register(
    store: &mut AuthStore,
    config: &AuthConfig,
    username: &str,
    email: &str,
    password: &str,
) -> Result<u128, ApiErrorKind> {
    registration(
        store,
        &form(username, email, password),
        "laptop".to_string(),
        "127.0.0.1".to_string(),
        SECRET,
        config,
    )
    .map(|out| out.account_id)
}

fn try_login(
    store: &mut AuthStore,
    config: &AuthConfig,
    email: &str,
    password: &str,
    code: Option<&str>,
) -> Result<LoginStep, ApiErrorKind> {
    login(
        store,
        &login_form(email, password, code),
        "laptop".to_string(),
        "127.0.0.1".to_string(),
        SECRET,
        config,
    )
}

fn token_of(step: &LoginStep) -> String {
    match &step.outcome {
        LoginOutcome::Authenticated(t) => t.clone(),
        LoginOutcome::TwoFactorRequired => panic!("expected an authenticated outcome"),
    }
}

#[test]
fn duplicate_email_is_rejected() {
    // register("alice","a@x.com","secret1") succeeds; a second registration
    // with the same email fails with EmailAlreadyInUse and writes nothing.
    let mut store = AuthStore::new();
    let config = fast_config(false, false);
    let alice = register(&mut store, &config, "alice", "a@x.com", "secret1");
    assert!(alice.is_ok());
    let bob = register(&mut store, &config, "bob", "a@x.com", "secret2");
    assert_eq!(bob, Err(ApiErrorKind::EmailAlreadyInUse));
    // no second row, and the committed row is untouched
    assert_eq!(store.accounts.len(), 1);
    assert_eq!(store.accounts[0].id, alice.unwrap());
    assert_eq!(store.accounts[0].username, "alice");
    assert_eq!(store.accounts[0].email, "a@x.com");
}

#[test]
fn duplicate_username_is_rejected() {
    let mut store = AuthStore::new();
    let config = fast_config(false, false);
    register(&mut store, &config, "alice", "a@x.com", "secret1").unwrap();
    let other = register(&mut store, &config, "alice", "b@x.com", "secret2");
    assert_eq!(other, Err(ApiErrorKind::UsernameAlreadyInUse));
    assert_eq!(store.accounts.len(), 1);
}

#[test]
fn wrong_password_then_right_password() {
    // register("carol","c@x.com","pw"); a wrong password fails with
    // InvalidCredentials; the right one returns a token that validates.
    let mut store = AuthStore::new();
    let config = fast_config(false, false);
    register(&mut store, &config, "carol", "c@x.com", "pw").unwrap();
    let wrong = try_login(&mut store, &config, "c@x.com", "wrong", None);
    assert_eq!(
        wrong.map(|_| ()).map_err(|k| k),
        Err(ApiErrorKind::InvalidCredentials)
    );
    let step = try_login(&mut store, &config, "c@x.com", "pw", None).unwrap();
    let token = token_of(&step);
    assert!(step.mail.is_none());
    let sid = validate_session(&store, &token, SECRET, 1).unwrap();
    assert_eq!(store.sessions.len(), 1);
    assert_eq!(store.sessions[0].id, sid);
}

#[test]
fn unknown_email_is_invalid_credentials() {
    let mut store = AuthStore::new();
    let config = fast_config(false, false);
    let r = try_login(&mut store, &config, "nobody@x.com", "pw", None);
    assert_eq!(r.map(|_| ()), Err(ApiErrorKind::InvalidCredentials));
}

#[test]
fn two_factor_round_trip_and_code_single_use() {
    // with two-factor enabled: a password-only login stores and mails a
    // code and creates no session; the delivered code then logs in; the
    // same code a second time fails, already consumed.
    let mut store = AuthStore::new();
    let config = fast_config(true, false);
    register(&mut store, &config, "dave", "dave@x.com", "pw").unwrap();

    let first = try_login(&mut store, &config, "dave@x.com", "pw", None).unwrap();
    assert!(matches!(first.outcome, LoginOutcome::TwoFactorRequired));
    assert_eq!(store.sessions.len(), 0);
    let mail = first.mail.expect("a code delivery is owed");
    assert_eq!(mail.to_email, "dave@x.com");
    assert_eq!(mail.code.len(), 6);
    assert!(mail.code.chars().all(|c| c.is_ascii_alphanumeric()));

    let second = try_login(&mut store, &config, "dave@x.com", "pw", Some(&mail.code)).unwrap();
    let token = token_of(&second);
    assert_eq!(store.sessions.len(), 1);
    assert_eq!(store.challenges.len(), 0);
    assert!(validate_session(&store, &token, SECRET, 1).is_ok());

    let replay = try_login(&mut store, &config, "dave@x.com", "pw", Some(&mail.code));
    assert_eq!(replay.map(|_| ()), Err(ApiErrorKind::InvalidSession));
    assert_eq!(store.sessions.len(), 1);
}

#[test]
fn wrong_code_is_invalid_session() {
    let mut store = AuthStore::new();
    let config = fast_config(true, false);
    register(&mut store, &config, "erin", "e@x.com", "pw").unwrap();
    try_login(&mut store, &config, "e@x.com", "pw", None).unwrap();
    let r = try_login(&mut store, &config, "e@x.com", "pw", Some("zzzzzz"));
    assert_eq!(r.map(|_| ()), Err(ApiErrorKind::InvalidSession));
    // a code without any pending challenge also fails
    let mut fresh = AuthStore::new();
    register(&mut fresh, &config, "fred", "f@x.com", "pw").unwrap();
    let r = try_login(&mut fresh, &config, "f@x.com", "pw", Some("abcdef"));
    assert_eq!(r.map(|_| ()), Err(ApiErrorKind::InvalidSession));
}

#[test]
fn fresh_code_overwrites_the_prior_one() {
    let mut store = AuthStore::new();
    let config = fast_config(true, false);
    register(&mut store, &config, "gina", "g@x.com", "pw").unwrap();
    let first = try_login(&mut store, &config, "g@x.com", "pw", None).unwrap();
    let old_code = first.mail.unwrap().code;
    let second = try_login(&mut store, &config, "g@x.com", "pw", None).unwrap();
    let new_code = second.mail.unwrap().code;
    assert_eq!(store.challenges.len(), 1);
    if old_code != new_code {
        let stale = try_login(&mut store, &config, "g@x.com", "pw", Some(&old_code));
        assert_eq!(stale.map(|_| ()), Err(ApiErrorKind::InvalidSession));
    }
    let r = try_login(&mut store, &config, "g@x.com", "pw", Some(&new_code)).unwrap();
    assert!(matches!(r.outcome, LoginOutcome::Authenticated(_)));
}

#[test]
fn two_factor_needs_the_password_first() {
    let mut store = AuthStore::new();
    let config = fast_config(true, false);
    register(&mut store, &config, "hank", "h@x.com", "pw").unwrap();
    let r = try_login(&mut store, &config, "h@x.com", "wrong", Some("abcdef"));
    assert_eq!(r.map(|_| ()), Err(ApiErrorKind::InvalidCredentials));
    assert_eq!(store.challenges.len(), 0);
}

#[test]
fn registration_can_auto_log_in() {
    let mut store = AuthStore::new();
    let config = fast_config(true, true);
    let out = registration(
        &mut store,
        &form("ivy", "i@x.com", "pw"),
        "laptop".to_string(),
        "127.0.0.1".to_string(),
        SECRET,
        &config,
    )
    .unwrap();
    let token = out.token.expect("auto-login issues a token");
    assert_eq!(store.sessions.len(), 1);
    let sid = validate_session(&store, &token, SECRET, 1).unwrap();
    assert_eq!(store.sessions[0].id, sid);
    assert_eq!(store.sessions[0].account_id, out.account_id);
}

#[test]
fn registration_without_auto_login_issues_no_token() {
    let mut store = AuthStore::new();
    let config = fast_config(true, false);
    let out = registration(
        &mut store,
        &form("june", "j@x.com", "pw"),
        "laptop".to_string(),
        "127.0.0.1".to_string(),
        SECRET,
        &config,
    )
    .unwrap();
    assert!(out.token.is_none());
    assert_eq!(store.sessions.len(), 0);
    assert_eq!(store.accounts.len(), 1);
}

#[test]
fn hashing_fault_surfaces_as_internal_error() {
    let mut store = AuthStore::new();
    let config = AuthConfig {
        two_factor_enabled: false,
        auto_login: false,
        session_ttl_seconds: TTL_30_DAYS,
        bcrypt_cost: 99,  // outside the algorithm's accepted range
    };
    let r = register(&mut store, &config, "kate", "k@x.com", "pw");
    assert_eq!(r, Err(ApiErrorKind::InternalServerError));
    assert_eq!(store.accounts.len(), 0);
}

#[test]
fn login_refreshes_last_online() {
    let mut store = AuthStore::new();
    let config = fast_config(false, false);
    register(&mut store, &config, "lena", "l@x.com", "pw").unwrap();
    store.accounts[0].last_online = 0;
    store.accounts[0].registered_at = 0;
    try_login(&mut store, &config, "l@x.com", "pw", None).unwrap();
    assert!(store.accounts[0].last_online > 0);
    assert_eq!(store.accounts[0].registered_at, 0);
}

#[test]
fn default_config_values() {
    let config = AuthConfig::default();
    assert!(config.two_factor_enabled);
    assert!(config.auto_login);
    assert_eq!(config.session_ttl_seconds, authcore::auth::SESSION_TTL_SECONDS);
    assert_eq!(config.bcrypt_cost, authcore::auth::DEFAULT_BCRYPT_COST);
    assert_eq!(authcore::auth::SESSION_TTL_SECONDS, TTL_30_DAYS);
}
