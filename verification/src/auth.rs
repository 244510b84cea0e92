//! Registration and login: the protocols that tie the uniqueness guard, the
//! credential hasher, the two-factor challenge engine and the session
//! manager together.
//!
//! The transport collaborator hands in already-decoded request forms and
//! plain context values (device descriptor, origin IP), and receives back a
//! result value or one of the five public error kinds. The one outward
//! action the engine cannot perform itself — delivering a one-time code —
//! is returned as a value for the mail collaborator to carry out; if that
//! delivery fails, the caller rolls the stored code back with
//! [`crate::store::AuthStore::remove_challenge`].

use vstd::prelude::*;
use crate::error::ApiErrorKind;
use crate::hasher::{bcrypt_matches, bcrypt_valid, hash_password, verify_password};
use crate::runtime::{fresh_id, generate_code, is_code_char, now_seconds};
use crate::session::{create_session, session_created};
use crate::store::{
    has_account_id, has_challenge_code, has_email, has_username, without_challenge, Account,
    AccountV, AuthStore, ChallengeV,
};

verus! {

/// The fixed session lifetime: thirty days, in seconds.
pub const SESSION_TTL_SECONDS: u64 = 2592000;

/// The standard credential hashing work factor.
pub const DEFAULT_BCRYPT_COST: u32 = 12;

/// A decoded registration request.
#[derive(Debug)]
pub struct RegistrationForm {
    pub username: String,
    pub email: String,
    pub password: String,
}

/// A decoded login request; the one-time code is present only on the second
/// leg of a two-factor login.
#[derive(Debug)]
pub struct LoginForm {
    pub email: String,
    pub password: String,
    pub two_factor_code: Option<String>,
}

/// The deployment's immutable configuration, passed in explicitly instead of
/// living as ambient global state.
#[derive(Debug, Clone, Copy)]
pub struct AuthConfig {
    pub two_factor_enabled: bool,
    pub auto_login: bool,
    pub session_ttl_seconds: u64,
    pub bcrypt_cost: u32,
}

impl Default for AuthConfig {
    /// Two-factor gating on, registration auto-login on, thirty-day
    /// sessions, standard work factor.
    fn default() -> (r: AuthConfig)
        ensures
            r.two_factor_enabled,
            r.auto_login,
            r.session_ttl_seconds == SESSION_TTL_SECONDS,
            r.bcrypt_cost == DEFAULT_BCRYPT_COST,
    {
        AuthConfig {
            two_factor_enabled: true,
            auto_login: true,
            session_ttl_seconds: SESSION_TTL_SECONDS,
            bcrypt_cost: DEFAULT_BCRYPT_COST,
        }
    }
}

/// What a successful registration hands back: the new account's identifier,
/// and a session token when the deployment auto-logs registrants in.
#[derive(Debug)]
pub struct RegistrationOutcome {
    pub account_id: u128,
    pub token: Option<String>,
}

/// What a successful login hands back.
#[derive(Debug)]
pub enum LoginOutcome {
    /// A session was created; the token is the client's handle to it.
    Authenticated(String),
    /// The password was right but no code was supplied: a one-time code is
    /// on its way out of band, and no session exists yet.
    TwoFactorRequired,
}

/// A delivery the mail collaborator owes: send this code to this address.
#[derive(Debug)]
pub struct MailRequest {
    pub to_email: String,
    pub code: String,
}

/// A login result together with the delivery it obliges, if any.
#[derive(Debug)]
pub struct LoginStep {
    pub outcome: LoginOutcome,
    pub mail: Option<MailRequest>,
}

/// The accounts after a best-effort refresh of one last-online timestamp:
/// either untouched, or with that one field set to some time.
pub open spec fn last_online_refreshed(
    accs: Seq<AccountV>,
    i: int,
    accs2: Seq<AccountV>,
) -> bool {
    accs2 == accs || exists|a2: AccountV|
        {
            &&& accs2 == accs.update(i, a2)
            &&& a2.id == accs[i].id
            &&& a2.username == accs[i].username
            &&& a2.email == accs[i].email
            &&& a2.password_hash == accs[i].password_hash
            &&& a2.registered_at == accs[i].registered_at
        }
}

/// What committing an account must answer, given the rows already present:
/// the conflicts in the protocol's order, or success under the fresh
/// identifier.
pub open spec fn register_decision(
    accs: Seq<AccountV>,
    email: Seq<char>,
    username: Seq<char>,
    account_id: u128,
) -> Result<u128, ApiErrorKind> {
    if has_email(accs, email) {
        Err(ApiErrorKind::EmailAlreadyInUse)
    } else if has_username(accs, username) {
        Err(ApiErrorKind::UsernameAlreadyInUse)
    } else if has_account_id(accs, account_id) {
        Err(ApiErrorKind::InternalServerError)
    } else {
        Ok(account_id)
    }
}

/// Commit a new account row under a caller-chosen identifier, hash and time.
///
/// The checks run in the protocol's order, each short-circuiting: email
/// conflict, then username conflict, then the identifier conflict that only
/// a collision of fresh identifiers could cause. Exactly one row is created
/// on success and none on failure.
pub fn register_core(
    store: &mut AuthStore,
    account_id: u128,
    username: &String,
    email: &String,
    password_hash: String,
    now: u64,
) -> (r: Result<u128, ApiErrorKind>)
    requires
        old(store).wf(),
    ensures
        final(store).wf(),
        final(store)@.sessions == old(store)@.sessions,
        final(store)@.challenges == old(store)@.challenges,
        r == register_decision(old(store)@.accounts, email@, username@, account_id),
        match r {
            Result::Ok(id) => id == account_id && final(store)@.accounts == old(
                store,
            )@.accounts.push(
                AccountV {
                    id: account_id,
                    username: username@,
                    email: email@,
                    password_hash: password_hash@,
                    registered_at: now,
                    last_online: now,
                },
            ),
            Result::Err(k) => final(store)@.accounts == old(store)@.accounts,
        },
{
    if store.find_account_by_email(email).is_some() {
        return Err(ApiErrorKind::EmailAlreadyInUse);
    }
    if store.find_account_by_username(username).is_some() {
        return Err(ApiErrorKind::UsernameAlreadyInUse);
    }
    if store.find_account_by_id(account_id).is_some() {
        return Err(ApiErrorKind::InternalServerError);
    }
    store.insert_account(
        Account {
            id: account_id,
            username: username.clone(),
            email: email.clone(),
            password_hash,
            registered_at: now,
            last_online: now,
        },
    );
    Ok(account_id)
}

/// Register a new identity: guard uniqueness, hash the credential, commit
/// the account, and — when the deployment auto-logs registrants in — create
/// the first session.
///
/// A taken email or username is answered with its own conflict kind, in
/// that order, and then nothing was written. A hashing, clock or
/// persistence fault is answered with `InternalServerError`; if it strikes
/// after the commit, the account row stands (as in the observed protocol)
/// but no session does.
pub fn registration(
    store: &mut AuthStore,
    form: &RegistrationForm,
    device_name: String,
    ip_address: String,
    secret: &str,
    config: &AuthConfig,
) -> (r: Result<RegistrationOutcome, ApiErrorKind>)
    requires
        old(store).wf(),
    ensures
        final(store).wf(),
        final(store)@.challenges == old(store)@.challenges,
        has_email(old(store)@.accounts, form.email@) ==> r == Err::<
            RegistrationOutcome,
            ApiErrorKind,
        >(ApiErrorKind::EmailAlreadyInUse),
        (!has_email(old(store)@.accounts, form.email@) && has_username(
            old(store)@.accounts,
            form.username@,
        )) ==> r == Err::<RegistrationOutcome, ApiErrorKind>(ApiErrorKind::UsernameAlreadyInUse),
        match r {
            Result::Ok(out) => {
                &&& !has_email(old(store)@.accounts, form.email@)
                &&& !has_username(old(store)@.accounts, form.username@)
                &&& exists|av: AccountV|
                    {
                        &&& final(store)@.accounts == old(store)@.accounts.push(av)
                        &&& av.id == out.account_id
                        &&& av.username == form.username@
                        &&& av.email == form.email@
                        &&& av.registered_at == av.last_online
                        &&& bcrypt_matches(form.password@, av.password_hash)
                        &&& bcrypt_valid(av.password_hash)
                        &&& !has_account_id(old(store)@.accounts, av.id)
                    }
                &&& (config.auto_login ==> match out.token {
                    Option::Some(t) => session_created(
                        old(store)@.sessions,
                        final(store)@.sessions,
                        out.account_id,
                        device_name@,
                        ip_address@,
                        secret@,
                        config.session_ttl_seconds,
                        t@,
                    ),
                    Option::None => false,
                })
                &&& (!config.auto_login ==> out.token is None && final(store)@.sessions == old(
                    store,
                )@.sessions)
            },
            Result::Err(k) => {
                &&& final(store)@.sessions == old(store)@.sessions
                &&& (k == ApiErrorKind::EmailAlreadyInUse <==> has_email(
                    old(store)@.accounts,
                    form.email@,
                ))
                &&& (k == ApiErrorKind::UsernameAlreadyInUse <==> (!has_email(
                    old(store)@.accounts,
                    form.email@,
                ) && has_username(old(store)@.accounts, form.username@)))
                &&& (k == ApiErrorKind::EmailAlreadyInUse || k == ApiErrorKind::UsernameAlreadyInUse
                    || k == ApiErrorKind::InternalServerError)
                &&& ((k == ApiErrorKind::EmailAlreadyInUse || k
                    == ApiErrorKind::UsernameAlreadyInUse) ==> final(store)@.accounts == old(
                    store,
                )@.accounts)
                &&& (!config.auto_login ==> final(store)@.accounts == old(store)@.accounts)
                &&& (k == ApiErrorKind::InternalServerError ==> (final(store)@.accounts == old(
                    store,
                )@.accounts || exists|av: AccountV|
                    {
                        &&& final(store)@.accounts == old(store)@.accounts.push(av)
                        &&& av.username == form.username@
                        &&& av.email == form.email@
                    }))
            },
        },
{
    if store.find_account_by_email(&form.email).is_some() {
        return Err(ApiErrorKind::EmailAlreadyInUse);
    }
    if store.find_account_by_username(&form.username).is_some() {
        return Err(ApiErrorKind::UsernameAlreadyInUse);
    }
    let hashed = match hash_password(form.password.as_str(), config.bcrypt_cost) {
        Result::Ok(h) => h,
        Result::Err(k) => {
            return Err(k);
        },
    };
    let ghost hashed_view = hashed@;
    let account_id = fresh_id();
    let now_i = now_seconds();
    if now_i < 0 {
        return Err(ApiErrorKind::InternalServerError);
    }
    let now = now_i as u64;
    let id = match register_core(store, account_id, &form.username, &form.email, hashed, now) {
        Result::Ok(id) => id,
        Result::Err(k) => {
            return Err(k);
        },
    };
    proof {
        let av = AccountV {
            id: account_id,
            username: form.username@,
            email: form.email@,
            password_hash: hashed_view,
            registered_at: now,
            last_online: now,
        };
        assert(store@.accounts == old(store)@.accounts.push(av));
    }
    if config.auto_login {
        match create_session(
            store,
            id,
            device_name,
            ip_address,
            secret,
            config.session_ttl_seconds,
        ) {
            Result::Ok(t) => Ok(RegistrationOutcome { account_id: id, token: Some(t) }),
            Result::Err(k) => Err(k),
        }
    } else {
        Ok(RegistrationOutcome { account_id: id, token: None })
    }
}

/// Store a fresh challenge for the account at this index, overwriting any
/// prior one, and hand back the delivery the mail collaborator owes.
pub fn begin_challenge(store: &mut AuthStore, account_index: usize, code: String) -> (r:
    MailRequest)
    requires
        old(store).wf(),
        account_index < old(store)@.accounts.len(),
    ensures
        final(store).wf(),
        final(store)@.accounts == old(store)@.accounts,
        final(store)@.sessions == old(store)@.sessions,
        final(store)@.challenges == without_challenge(
            old(store)@.challenges,
            old(store)@.accounts[account_index as int].id,
        ).push(
            ChallengeV {
                account_id: old(store)@.accounts[account_index as int].id,
                code: code@,
            },
        ),
        r.to_email@ == old(store)@.accounts[account_index as int].email,
        r.code@ == code@,
{
    let account_id = store.accounts[account_index].id;
    let to_email = store.accounts[account_index].email.clone();
    let stored = code.clone();
    store.set_challenge(account_id, stored);
    MailRequest { to_email, code }
}

/// Compare-and-delete on the challenge store: answer whether a live
/// challenge for this account stores exactly this code, and consume it on
/// the first match — a code is never usable twice.
pub fn take_challenge(store: &mut AuthStore, account_id: u128, code: &String) -> (r: bool)
    requires
        old(store).wf(),
    ensures
        final(store).wf(),
        final(store)@.accounts == old(store)@.accounts,
        final(store)@.sessions == old(store)@.sessions,
        r == has_challenge_code(old(store)@.challenges, account_id, code@),
        r ==> final(store)@.challenges == without_challenge(old(store)@.challenges, account_id),
        !r ==> final(store)@.challenges == old(store)@.challenges,
{
    match store.find_challenge(account_id) {
        Option::Some(i) => {
            if store.challenges[i].code == *code {
                proof {
                    assert(has_challenge_code(store@.challenges, account_id, code@));
                }
                store.remove_challenge(account_id);
                true
            } else {
                proof {
                    assert forall|j: int|
                        0 <= j < store@.challenges.len() && #[trigger] store@.challenges[j].account_id
                            == account_id implies store@.challenges[j].code != code@ by {
                        if j < i as int {
                            assert(store@.challenges[j].account_id != store@.challenges[i as int].account_id);
                        } else if j > i as int {
                            assert(store@.challenges[i as int].account_id != store@.challenges[j].account_id);
                        }
                    }
                }
                false
            }
        },
        Option::None => false,
    }
}

/// Finish an authenticated login: create the session, then refresh the
/// account's last-online timestamp best-effort (a clock fault skips the
/// refresh, it never fails the login).
fn authenticated_step(
    store: &mut AuthStore,
    account_index: usize,
    device_name: String,
    ip_address: String,
    secret: &str,
    ttl: u64,
) -> (r: Result<LoginStep, ApiErrorKind>)
    requires
        old(store).wf(),
        account_index < old(store)@.accounts.len(),
    ensures
        final(store).wf(),
        final(store)@.challenges == old(store)@.challenges,
        match r {
            Result::Ok(step) => {
                &&& step.outcome is Authenticated
                &&& step.mail is None
                &&& session_created(
                    old(store)@.sessions,
                    final(store)@.sessions,
                    old(store)@.accounts[account_index as int].id,
                    device_name@,
                    ip_address@,
                    secret@,
                    ttl,
                    step.outcome->Authenticated_0@,
                )
                &&& last_online_refreshed(
                    old(store)@.accounts,
                    account_index as int,
                    final(store)@.accounts,
                )
            },
            Result::Err(k) => {
                &&& k == ApiErrorKind::InternalServerError
                &&& final(store)@.sessions == old(store)@.sessions
                &&& final(store)@.accounts == old(store)@.accounts
            },
        },
{
    let account_id = store.accounts[account_index].id;
    match create_session(store, account_id, device_name, ip_address, secret, ttl) {
        Result::Ok(token) => {
            let now_i = now_seconds();
            if now_i >= 0 {
                store.update_last_online(account_index, now_i as u64);
            }
            Ok(LoginStep { outcome: LoginOutcome::Authenticated(token), mail: None })
        },
        Result::Err(k) => Err(k),
    }
}

/// Log an account in.
///
/// The account is looked up by email and the password verified against its
/// stored hash; a missing account and a wrong password are answered with the
/// same `InvalidCredentials`, indistinguishable on purpose. With two-factor
/// gating off, a session is created at once. With it on, a request without a
/// code stores and mails a fresh one-time code and creates no session; a
/// request with a code consumes it on exact match and creates the session,
/// and is answered with `InvalidSession` when no live challenge matches.
pub fn login(
    store: &mut AuthStore,
    form: &LoginForm,
    device_name: String,
    ip_address: String,
    secret: &str,
    config: &AuthConfig,
) -> (r: Result<LoginStep, ApiErrorKind>)
    requires
        old(store).wf(),
    ensures
        final(store).wf(),
        !has_email(old(store)@.accounts, form.email@) ==> r == Err::<LoginStep, ApiErrorKind>(
            ApiErrorKind::InvalidCredentials,
        ) && final(store)@ == old(store)@,
        has_email(old(store)@.accounts, form.email@) ==> exists|i: int|
            {
                &&& 0 <= i < old(store)@.accounts.len()
                &&& (#[trigger] old(store)@.accounts[i]).email == form.email@
                &&& login_case(
                    old(store)@,
                    final(store)@,
                    old(store)@.accounts[i],
                    i,
                    form,
                    device_name@,
                    ip_address@,
                    secret@,
                    *config,
                    r,
                )
            },
        r is Err ==> (r->Err_0 == ApiErrorKind::InvalidCredentials || r->Err_0
            == ApiErrorKind::InvalidSession || r->Err_0 == ApiErrorKind::InternalServerError),
{
    let idx = match store.find_account_by_email(&form.email) {
        Option::Some(i) => i,
        Option::None => {
            return Err(ApiErrorKind::InvalidCredentials);
        },
    };
    let pwd_ok = verify_password(
        form.password.as_str(),
        store.accounts[idx].password_hash.as_str(),
    );
    if !pwd_ok {
        return Err(ApiErrorKind::InvalidCredentials);
    }
    let account_id = store.accounts[idx].id;
    if config.two_factor_enabled {
        match &form.two_factor_code {
            Option::Some(c) => {
                if !take_challenge(store, account_id, c) {
                    return Err(ApiErrorKind::InvalidSession);
                }
                authenticated_step(
                    store,
                    idx,
                    device_name,
                    ip_address,
                    secret,
                    config.session_ttl_seconds,
                )
            },
            Option::None => {
                let code = generate_code();
                let mail = begin_challenge(store, idx, code);
                Ok(LoginStep { outcome: LoginOutcome::TwoFactorRequired, mail: Some(mail) })
            },
        }
    } else {
        authenticated_step(store, idx, device_name, ip_address, secret, config.session_ttl_seconds)
    }
}

/// What `login` guarantees of the store and its result, relative to the
/// account row that matched the form's email.
pub open spec fn login_case(
    pre: crate::store::StoreV,
    post: crate::store::StoreV,
    a: AccountV,
    i: int,
    form: &LoginForm,
    device_name: Seq<char>,
    ip_address: Seq<char>,
    secret: Seq<char>,
    config: AuthConfig,
    r: Result<LoginStep, ApiErrorKind>,
) -> bool {
    &&& (!(bcrypt_valid(a.password_hash) && bcrypt_matches(form.password@, a.password_hash))
        ==> (r == Err::<LoginStep, ApiErrorKind>(ApiErrorKind::InvalidCredentials) && post == pre))
    &&& ((bcrypt_valid(a.password_hash) && bcrypt_matches(form.password@, a.password_hash))
        ==> login_case_verified(pre, post, a, i, form, device_name, ip_address, secret, config, r))
}

/// What `login` guarantees once the password has verified against the
/// matched account's well-formed hash.
pub open spec fn login_case_verified(
    pre: crate::store::StoreV,
    post: crate::store::StoreV,
    a: AccountV,
    i: int,
    form: &LoginForm,
    device_name: Seq<char>,
    ip_address: Seq<char>,
    secret: Seq<char>,
    config: AuthConfig,
    r: Result<LoginStep, ApiErrorKind>,
) -> bool {
    if !config.two_factor_enabled {
        &&& post.challenges == pre.challenges
        &&& login_session_created(pre, post, a, i, device_name, ip_address, secret, config, r)
    } else {
        match form.two_factor_code {
            Option::None => {
                &&& r is Ok
                &&& r->Ok_0.outcome is TwoFactorRequired
                &&& post.sessions == pre.sessions
                &&& post.accounts == pre.accounts
                &&& match r->Ok_0.mail {
                    Option::Some(m) => {
                        &&& m.to_email@ == a.email
                        &&& m.code@.len() == 6
                        &&& forall|ci: int| 0 <= ci < m.code@.len() ==> is_code_char(
                            #[trigger] m.code@[ci],
                        )
                        &&& post.challenges == without_challenge(pre.challenges, a.id).push(
                            ChallengeV { account_id: a.id, code: m.code@ },
                        )
                    },
                    Option::None => false,
                }
            },
            Option::Some(c) => {
                if !has_challenge_code(pre.challenges, a.id, c@) {
                    r == Err::<LoginStep, ApiErrorKind>(ApiErrorKind::InvalidSession) && post == pre
                } else {
                    &&& post.challenges == without_challenge(pre.challenges, a.id)
                    &&& login_session_created(
                        pre,
                        post,
                        a,
                        i,
                        device_name,
                        ip_address,
                        secret,
                        config,
                        r,
                    )
                }
            },
        }
    }
}

/// Either a session was created for the account and its last-online
/// timestamp refreshed best-effort, or an internal fault left sessions and
/// accounts untouched.
pub open spec fn login_session_created(
    pre: crate::store::StoreV,
    post: crate::store::StoreV,
    a: AccountV,
    i: int,
    device_name: Seq<char>,
    ip_address: Seq<char>,
    secret: Seq<char>,
    config: AuthConfig,
    r: Result<LoginStep, ApiErrorKind>,
) -> bool {
    match r {
        Result::Ok(step) => {
            &&& step.outcome is Authenticated
            &&& step.mail is None
            &&& session_created(
                pre.sessions,
                post.sessions,
                a.id,
                device_name,
                ip_address,
                secret,
                config.session_ttl_seconds,
                step.outcome->Authenticated_0@,
            )
            &&& last_online_refreshed(pre.accounts, i, post.accounts)
        },
        Result::Err(k) => {
            &&& k == ApiErrorKind::InternalServerError
            &&& post.sessions == pre.sessions
            &&& post.accounts == pre.accounts
        },
    }
}

} // verus!
