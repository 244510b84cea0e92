//! The engine's cross-cutting guarantees, proved once and for all stores.
//!
//! Each law here relates the exact contracts of several operations; the
//! operations' own `ensures` state what each call does, and these proofs
//! state what follows when the calls are composed.

use vstd::prelude::*;
use crate::auth::register_decision;
use crate::decimal::{dec_of, lemma_parse_dec_of, parse_dec};
use crate::error::ApiErrorKind;
use crate::store::{
    has_challenge, has_challenge_code, has_email, lemma_without_challenge_clears,
    lemma_without_session_absent, lemma_without_session_clears, sessions_wf, without_challenge,
    without_session, AccountV, ChallengeV, SessionV,
};

verus! {

/// Logout is idempotent. [`crate::session::invalidate_session`] leaves the
/// sessions at `without_session(ss, id)`; invalidating the same identifier
/// again yields the same rows, with no error — deleting an already-deleted
/// session changes nothing.
pub proof fn lemma_invalidate_idempotent(ss: Seq<SessionV>, id: u128)
    ensures
        without_session(without_session(ss, id), id) == without_session(ss, id),
{
    lemma_without_session_clears(ss, id);
    lemma_without_session_absent(without_session(ss, id), id);
}

/// Registration is unique per email. Once an attempt with an email has
/// committed its row — [`crate::auth::register_core`] succeeded and pushed
/// the account — that email is taken, and the decision that binds
/// `register_core` answers every later attempt with that email, whatever
/// its username and identifier, with `EmailAlreadyInUse`: of two attempts
/// with the same email, exactly the one that commits first succeeds.
pub proof fn lemma_registration_uniqueness(
    accs: Seq<AccountV>,
    a: AccountV,
    username: Seq<char>,
    account_id: u128,
)
    ensures
        has_email(accs.push(a), a.email),
        register_decision(accs.push(a), a.email, username, account_id) == Err::<
            u128,
            ApiErrorKind,
        >(ApiErrorKind::EmailAlreadyInUse),
{
    assert(accs.push(a)[accs.len() as int] == a);
}

/// The session validity window. Under unique session identifiers, a stored
/// session's decimal subject parses back to its own identifier, and the
/// lookup condition of [`crate::session::validate_session`] holds exactly
/// while the clock stands strictly before that session's expiry: a session
/// validates immediately after creation and fails from the moment
/// `created_at + ttl` is reached.
pub proof fn lemma_session_validity_window(ss: Seq<SessionV>, i: int, now: u64)
    requires
        sessions_wf(ss),
        0 <= i < ss.len(),
    ensures
        parse_dec(dec_of(ss[i].id as nat)) == Some(ss[i].id),
        (now < ss[i].expires_at <==> exists|j: int|
            0 <= j < ss.len() && #[trigger] ss[j].id == ss[i].id && now < ss[j].expires_at),
{
    lemma_parse_dec_of(ss[i].id);
    if now < ss[i].expires_at {
        assert(ss[i].id == ss[i].id && now < ss[i].expires_at);
    } else {
        assert forall|j: int|
            0 <= j < ss.len() && #[trigger] ss[j].id == ss[i].id implies now
            >= ss[j].expires_at by {
            if j < i {
                assert(ss[j].id != ss[i].id);
            } else if j > i {
                assert(ss[i].id != ss[j].id);
            }
        }
    }
}

/// A one-time code is consumed exactly once. The consuming login leaves the
/// challenges at `without_challenge(cs, account_id)`; in that state no
/// challenge for the account survives, so presenting any code again —
/// the same one included — meets the no-live-challenge case of
/// [`crate::auth::take_challenge`] and the login fails.
pub proof fn lemma_challenge_single_use(cs: Seq<ChallengeV>, account_id: u128, code: Seq<char>)
    ensures
        !has_challenge_code(without_challenge(cs, account_id), account_id, code),
{
    lemma_without_challenge_clears(cs, account_id);
    assert(!has_challenge(without_challenge(cs, account_id), account_id));
}

/// The delivered code is the stored code. Right after a password-only login
/// stores a fresh challenge, exactly that code matches for the account, so
/// a follow-up login presenting it is the consuming case of
/// [`crate::auth::take_challenge`].
pub proof fn lemma_challenge_delivered(cs: Seq<ChallengeV>, account_id: u128, code: Seq<char>)
    ensures
        has_challenge_code(
            without_challenge(cs, account_id).push(ChallengeV { account_id, code }),
            account_id,
            code,
        ),
{
    let w = without_challenge(cs, account_id).push(ChallengeV { account_id, code });
    assert(w[w.len() - 1] == ChallengeV { account_id, code });
}

/// A fresh challenge overwrites the prior one: after it is stored, no code
/// besides the fresh one matches for the account — at most one challenge is
/// ever live per account.
pub proof fn lemma_challenge_overwritten(
    cs: Seq<ChallengeV>,
    account_id: u128,
    fresh: Seq<char>,
    other: Seq<char>,
)
    requires
        other != fresh,
    ensures
        !has_challenge_code(
            without_challenge(cs, account_id).push(ChallengeV { account_id, code: fresh }),
            account_id,
            other,
        ),
{
    lemma_without_challenge_clears(cs, account_id);
    let w = without_challenge(cs, account_id).push(ChallengeV { account_id, code: fresh });
    assert forall|i: int|
        0 <= i < w.len() && #[trigger] w[i].account_id == account_id implies w[i].code
        != other by {
        if i < w.len() - 1 {
            assert(w[i] == without_challenge(cs, account_id)[i]);
            assert(has_challenge(without_challenge(cs, account_id), account_id));
        } else {
            assert(w[i].code == fresh);
        }
    }
}

} // verus!
