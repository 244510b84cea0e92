//! The persisted state of the engine: accounts, sessions, and two-factor
//! challenges, held as keyed rows with uniqueness invariants.
//!
//! The store models the persistence collaborator as flat in-memory tables:
//! simple keyed lookups, inserts and deletes, each with an exact contract.
//! Emails, usernames and identifiers are unique across accounts; session
//! identifiers are unique across sessions; at most one live challenge exists
//! per account.

use vstd::prelude::*;

verus! {

/// A registered identity: unique id, username and email, the password hash
/// (never the plaintext), and two timestamps in seconds.
pub struct Account {
    pub id: u128,
    pub username: String,
    pub email: String,
    pub password_hash: String,
    pub registered_at: u64,
    pub last_online: u64,
}

/// The mathematical image of an [`Account`].
#[verifier::ext_equal]
pub struct AccountV {
    pub id: u128,
    pub username: Seq<char>,
    pub email: Seq<char>,
    pub password_hash: Seq<char>,
    pub registered_at: u64,
    pub last_online: u64,
}

impl View for Account {
    type V = AccountV;

    open spec fn view(&self) -> AccountV {
        AccountV {
            id: self.id,
            username: self.username@,
            email: self.email@,
            password_hash: self.password_hash@,
            registered_at: self.registered_at,
            last_online: self.last_online,
        }
    }
}

/// A time-bounded authorization record tied to one account, device and IP,
/// referenced from outside by its signed token.
pub struct Session {
    pub id: u128,
    pub account_id: u128,
    pub device_name: String,
    pub ip_address: String,
    pub created_at: u64,
    pub expires_at: u64,
    pub token: String,
}

/// The mathematical image of a [`Session`].
#[verifier::ext_equal]
pub struct SessionV {
    pub id: u128,
    pub account_id: u128,
    pub device_name: Seq<char>,
    pub ip_address: Seq<char>,
    pub created_at: u64,
    pub expires_at: u64,
    pub token: Seq<char>,
}

impl View for Session {
    type V = SessionV;

    open spec fn view(&self) -> SessionV {
        SessionV {
            id: self.id,
            account_id: self.account_id,
            device_name: self.device_name@,
            ip_address: self.ip_address@,
            created_at: self.created_at,
            expires_at: self.expires_at,
            token: self.token@,
        }
    }
}

/// A pending one-time code, keyed by the account it challenges.
pub struct Challenge {
    pub account_id: u128,
    pub code: String,
}

/// The mathematical image of a [`Challenge`].
#[verifier::ext_equal]
pub struct ChallengeV {
    pub account_id: u128,
    pub code: Seq<char>,
}

impl View for Challenge {
    type V = ChallengeV;

    open spec fn view(&self) -> ChallengeV {
        ChallengeV { account_id: self.account_id, code: self.code@ }
    }
}

/// The whole persisted state.
pub struct AuthStore {
    pub accounts: Vec<Account>,
    pub sessions: Vec<Session>,
    pub challenges: Vec<Challenge>,
}

/// The mathematical image of an [`AuthStore`].
#[verifier::ext_equal]
pub struct StoreV {
    pub accounts: Seq<AccountV>,
    pub sessions: Seq<SessionV>,
    pub challenges: Seq<ChallengeV>,
}

impl View for AuthStore {
    type V = StoreV;

    open spec fn view(&self) -> StoreV {
        StoreV {
            accounts: Seq::new(self.accounts@.len(), |i: int| self.accounts@[i]@),
            sessions: Seq::new(self.sessions@.len(), |i: int| self.sessions@[i]@),
            challenges: Seq::new(self.challenges@.len(), |i: int| self.challenges@[i]@),
        }
    }
}

/// Some account already carries this email.
pub open spec fn has_email(accs: Seq<AccountV>, email: Seq<char>) -> bool {
    exists|i: int| 0 <= i < accs.len() && accs[i].email == email
}

/// Some account already carries this username.
pub open spec fn has_username(accs: Seq<AccountV>, username: Seq<char>) -> bool {
    exists|i: int| 0 <= i < accs.len() && accs[i].username == username
}

/// Some account already carries this identifier.
pub open spec fn has_account_id(accs: Seq<AccountV>, id: u128) -> bool {
    exists|i: int| 0 <= i < accs.len() && accs[i].id == id
}

/// Some session carries this identifier.
pub open spec fn has_session_id(ss: Seq<SessionV>, id: u128) -> bool {
    exists|i: int| 0 <= i < ss.len() && ss[i].id == id
}

/// A live challenge for this account exists.
pub open spec fn has_challenge(cs: Seq<ChallengeV>, account_id: u128) -> bool {
    exists|i: int| 0 <= i < cs.len() && cs[i].account_id == account_id
}

/// A live challenge for this account exists and stores exactly this code.
pub open spec fn has_challenge_code(cs: Seq<ChallengeV>, account_id: u128, code: Seq<char>) -> bool {
    exists|i: int| 0 <= i < cs.len() && cs[i].account_id == account_id && cs[i].code == code
}

/// The sessions without the one of the given id, order kept.
pub open spec fn without_session(ss: Seq<SessionV>, id: u128) -> Seq<SessionV>
    decreases ss.len(),
{
    if ss.len() == 0 {
        ss
    } else if ss.last().id == id {
        without_session(ss.drop_last(), id)
    } else {
        without_session(ss.drop_last(), id).push(ss.last())
    }
}

/// The challenges without the one of the given account, order kept.
pub open spec fn without_challenge(cs: Seq<ChallengeV>, account_id: u128) -> Seq<ChallengeV>
    decreases cs.len(),
{
    if cs.len() == 0 {
        cs
    } else if cs.last().account_id == account_id {
        without_challenge(cs.drop_last(), account_id)
    } else {
        without_challenge(cs.drop_last(), account_id).push(cs.last())
    }
}

/// No two accounts share an id, an email, or a username.
pub open spec fn accounts_wf(accs: Seq<AccountV>) -> bool {
    forall|i: int, j: int|
        0 <= i < j < accs.len() ==> accs[i].id != accs[j].id && accs[i].email != accs[j].email
            && accs[i].username != accs[j].username
}

/// No two sessions share an id.
pub open spec fn sessions_wf(ss: Seq<SessionV>) -> bool {
    forall|i: int, j: int| 0 <= i < j < ss.len() ==> ss[i].id != ss[j].id
}

/// At most one live challenge per account.
pub open spec fn challenges_wf(cs: Seq<ChallengeV>) -> bool {
    forall|i: int, j: int| 0 <= i < j < cs.len() ==> cs[i].account_id != cs[j].account_id
}

/// Removing a session that is not there changes nothing.
pub proof fn lemma_without_session_absent(ss: Seq<SessionV>, id: u128)
    requires
        !has_session_id(ss, id),
    ensures
        without_session(ss, id) == ss,
    decreases ss.len(),
{
    if ss.len() > 0 {
        assert(!has_session_id(ss.drop_last(), id)) by {
            assert(forall|i: int|
                0 <= i < ss.drop_last().len() ==> ss.drop_last()[i] == ss[i]);
        }
        lemma_without_session_absent(ss.drop_last(), id);
        assert(without_session(ss, id) =~= ss);
    }
}

/// Under unique session ids, removal by id is removal of the one index.
pub proof fn lemma_without_session_unique(ss: Seq<SessionV>, id: u128, i: int)
    requires
        sessions_wf(ss),
        0 <= i < ss.len(),
        ss[i].id == id,
    ensures
        without_session(ss, id) == ss.remove(i),
    decreases ss.len(),
{
    if i == ss.len() - 1 {
        assert(!has_session_id(ss.drop_last(), id)) by {
            assert(forall|j: int|
                0 <= j < ss.drop_last().len() ==> ss.drop_last()[j] == ss[j]);
        }
        lemma_without_session_absent(ss.drop_last(), id);
        assert(without_session(ss, id) =~= ss.remove(i));
    } else {
        assert(ss.drop_last()[i] == ss[i]);
        assert(sessions_wf(ss.drop_last())) by {
            assert(forall|j: int|
                0 <= j < ss.drop_last().len() ==> ss.drop_last()[j] == ss[j]);
        }
        lemma_without_session_unique(ss.drop_last(), id, i);
        assert(ss.last().id != id);
        assert(without_session(ss, id) =~= ss.remove(i));
    }
}

/// After removal by id, no session of that id remains.
pub proof fn lemma_without_session_clears(ss: Seq<SessionV>, id: u128)
    ensures
        !has_session_id(without_session(ss, id), id),
    decreases ss.len(),
{
    if ss.len() > 0 {
        lemma_without_session_clears(ss.drop_last(), id);
        if ss.last().id != id {
            let w = without_session(ss.drop_last(), id).push(ss.last());
            assert(forall|i: int|
                0 <= i < w.len() - 1 ==> w[i] == without_session(ss.drop_last(), id)[i]);
        }
    }
}

/// Removing a challenge that is not there changes nothing.
pub proof fn lemma_without_challenge_absent(cs: Seq<ChallengeV>, account_id: u128)
    requires
        !has_challenge(cs, account_id),
    ensures
        without_challenge(cs, account_id) == cs,
    decreases cs.len(),
{
    if cs.len() > 0 {
        assert(!has_challenge(cs.drop_last(), account_id)) by {
            assert(forall|i: int|
                0 <= i < cs.drop_last().len() ==> cs.drop_last()[i] == cs[i]);
        }
        lemma_without_challenge_absent(cs.drop_last(), account_id);
        assert(without_challenge(cs, account_id) =~= cs);
    }
}

/// Under at most one challenge per account, removal by account is removal of
/// the one index.
pub proof fn lemma_without_challenge_unique(cs: Seq<ChallengeV>, account_id: u128, i: int)
    requires
        challenges_wf(cs),
        0 <= i < cs.len(),
        cs[i].account_id == account_id,
    ensures
        without_challenge(cs, account_id) == cs.remove(i),
    decreases cs.len(),
{
    if i == cs.len() - 1 {
        assert(!has_challenge(cs.drop_last(), account_id)) by {
            assert(forall|j: int|
                0 <= j < cs.drop_last().len() ==> cs.drop_last()[j] == cs[j]);
        }
        lemma_without_challenge_absent(cs.drop_last(), account_id);
        assert(without_challenge(cs, account_id) =~= cs.remove(i));
    } else {
        assert(cs.drop_last()[i] == cs[i]);
        assert(challenges_wf(cs.drop_last())) by {
            assert(forall|j: int|
                0 <= j < cs.drop_last().len() ==> cs.drop_last()[j] == cs[j]);
        }
        lemma_without_challenge_unique(cs.drop_last(), account_id, i);
        assert(cs.last().account_id != account_id);
        assert(without_challenge(cs, account_id) =~= cs.remove(i));
    }
}

/// After removal by account, no challenge for that account remains.
pub proof fn lemma_without_challenge_clears(cs: Seq<ChallengeV>, account_id: u128)
    ensures
        !has_challenge(without_challenge(cs, account_id), account_id),
    decreases cs.len(),
{
    if cs.len() > 0 {
        lemma_without_challenge_clears(cs.drop_last(), account_id);
        if cs.last().account_id != account_id {
            let w = without_challenge(cs.drop_last(), account_id).push(cs.last());
            assert(forall|i: int|
                0 <= i < w.len() - 1 ==> w[i] == without_challenge(cs.drop_last(), account_id)[i]);
        }
    }
}

impl AuthStore {
    /// All store invariants together.
    pub open spec fn wf(&self) -> bool {
        accounts_wf(self@.accounts) && sessions_wf(self@.sessions) && challenges_wf(
            self@.challenges,
        )
    }

    /// An empty store.
    pub fn new() -> (r: AuthStore)
        ensures
            r@.accounts == Seq::<AccountV>::empty(),
            r@.sessions == Seq::<SessionV>::empty(),
            r@.challenges == Seq::<ChallengeV>::empty(),
            r.wf(),
    {
        let r = AuthStore { accounts: Vec::new(), sessions: Vec::new(), challenges: Vec::new() };
        proof {
            assert(r@.accounts =~= Seq::<AccountV>::empty());
            assert(r@.sessions =~= Seq::<SessionV>::empty());
            assert(r@.challenges =~= Seq::<ChallengeV>::empty());
        }
        r
    }

    /// Keyed lookup: the index of the account with this email, if any.
    pub fn find_account_by_email(&self, email: &String) -> (r: Option<usize>)
        ensures
            match r {
                Option::Some(i) => i < self@.accounts.len() && self@.accounts[i as int].email
                    == email@,
                Option::None => !has_email(self@.accounts, email@),
            },
    {
        let mut i: usize = 0;
        while i < self.accounts.len()
            invariant
                0 <= i <= self.accounts.len(),
                self@.accounts.len() == self.accounts.len(),
                forall|j: int| 0 <= j < i ==> self@.accounts[j].email != email@,
            decreases self.accounts.len() - i,
        {
            if self.accounts[i].email == *email {
                return Some(i);
            }
            i = i + 1;
        }
        None
    }

    /// Keyed lookup: the index of the account with this username, if any.
    pub fn find_account_by_username(&self, username: &String) -> (r: Option<usize>)
        ensures
            match r {
                Option::Some(i) => i < self@.accounts.len() && self@.accounts[i as int].username
                    == username@,
                Option::None => !has_username(self@.accounts, username@),
            },
    {
        let mut i: usize = 0;
        while i < self.accounts.len()
            invariant
                0 <= i <= self.accounts.len(),
                self@.accounts.len() == self.accounts.len(),
                forall|j: int| 0 <= j < i ==> self@.accounts[j].username != username@,
            decreases self.accounts.len() - i,
        {
            if self.accounts[i].username == *username {
                return Some(i);
            }
            i = i + 1;
        }
        None
    }

    /// Keyed lookup: the index of the account with this identifier, if any.
    pub fn find_account_by_id(&self, id: u128) -> (r: Option<usize>)
        ensures
            match r {
                Option::Some(i) => i < self@.accounts.len() && self@.accounts[i as int].id == id,
                Option::None => !has_account_id(self@.accounts, id),
            },
    {
        let mut i: usize = 0;
        while i < self.accounts.len()
            invariant
                0 <= i <= self.accounts.len(),
                self@.accounts.len() == self.accounts.len(),
                forall|j: int| 0 <= j < i ==> self@.accounts[j].id != id,
            decreases self.accounts.len() - i,
        {
            if self.accounts[i].id == id {
                return Some(i);
            }
            i = i + 1;
        }
        None
    }

    /// Insert a fresh account row. The caller has ruled the conflicts out.
    pub fn insert_account(&mut self, account: Account)
        requires
            old(self).wf(),
            !has_email(old(self)@.accounts, account.email@),
            !has_username(old(self)@.accounts, account.username@),
            !has_account_id(old(self)@.accounts, account.id),
        ensures
            final(self).wf(),
            final(self)@.accounts == old(self)@.accounts.push(account@),
            final(self)@.sessions == old(self)@.sessions,
            final(self)@.challenges == old(self)@.challenges,
    {
        let ghost old_accs = self@.accounts;
        let ghost av = account@;
        self.accounts.push(account);
        proof {
            assert(self@.accounts =~= old_accs.push(av));
            assert(self@.sessions =~= old(self)@.sessions);
            assert(self@.challenges =~= old(self)@.challenges);
            assert forall|i: int, j: int| 0 <= i < j < self@.accounts.len() implies self@.accounts[i].id
                != self@.accounts[j].id && self@.accounts[i].email != self@.accounts[j].email
                && self@.accounts[i].username != self@.accounts[j].username by {
                if j == self@.accounts.len() - 1 {
                    assert(self@.accounts[i] == old_accs[i]);
                    assert(self@.accounts[j] == av);
                } else {
                    assert(self@.accounts[i] == old_accs[i]);
                    assert(self@.accounts[j] == old_accs[j]);
                }
            }
        }
    }

    /// Record the time of last online activity on the account at this index.
    pub fn update_last_online(&mut self, i: usize, now: u64)
        requires
            old(self).wf(),
            i < old(self)@.accounts.len(),
        ensures
            final(self).wf(),
            final(self)@.accounts == old(self)@.accounts.update(
                i as int,
                AccountV { last_online: now, ..old(self)@.accounts[i as int] },
            ),
            final(self)@.sessions == old(self)@.sessions,
            final(self)@.challenges == old(self)@.challenges,
    {
        let ghost old_accs = self@.accounts;
        let a = &self.accounts[i];
        let updated = Account {
            id: a.id,
            username: a.username.clone(),
            email: a.email.clone(),
            password_hash: a.password_hash.clone(),
            registered_at: a.registered_at,
            last_online: now,
        };
        self.accounts.set(i, updated);
        proof {
            assert(self@.accounts =~= old_accs.update(
                i as int,
                AccountV { last_online: now, ..old_accs[i as int] },
            ));
            assert(self@.sessions =~= old(self)@.sessions);
            assert(self@.challenges =~= old(self)@.challenges);
            assert forall|p: int, q: int| 0 <= p < q < self@.accounts.len() implies self@.accounts[p].id
                != self@.accounts[q].id && self@.accounts[p].email != self@.accounts[q].email
                && self@.accounts[p].username != self@.accounts[q].username by {
                assert(old_accs[p].id != old_accs[q].id && old_accs[p].email != old_accs[q].email
                    && old_accs[p].username != old_accs[q].username);
            }
        }
    }

    /// Keyed lookup: the index of the session with this identifier, if any.
    pub fn find_session_by_id(&self, id: u128) -> (r: Option<usize>)
        ensures
            match r {
                Option::Some(i) => i < self@.sessions.len() && self@.sessions[i as int].id == id,
                Option::None => !has_session_id(self@.sessions, id),
            },
    {
        let mut i: usize = 0;
        while i < self.sessions.len()
            invariant
                0 <= i <= self.sessions.len(),
                self@.sessions.len() == self.sessions.len(),
                forall|j: int| 0 <= j < i ==> self@.sessions[j].id != id,
            decreases self.sessions.len() - i,
        {
            if self.sessions[i].id == id {
                return Some(i);
            }
            i = i + 1;
        }
        None
    }

    /// Insert a fresh session row. The caller has ruled the id conflict out.
    pub fn insert_session(&mut self, session: Session)
        requires
            old(self).wf(),
            !has_session_id(old(self)@.sessions, session.id),
        ensures
            final(self).wf(),
            final(self)@.sessions == old(self)@.sessions.push(session@),
            final(self)@.accounts == old(self)@.accounts,
            final(self)@.challenges == old(self)@.challenges,
    {
        let ghost old_ss = self@.sessions;
        let ghost sv = session@;
        self.sessions.push(session);
        proof {
            assert(self@.sessions =~= old_ss.push(sv));
            assert(self@.accounts =~= old(self)@.accounts);
            assert(self@.challenges =~= old(self)@.challenges);
            assert forall|i: int, j: int| 0 <= i < j < self@.sessions.len() implies self@.sessions[i].id
                != self@.sessions[j].id by {
                if j == self@.sessions.len() - 1 {
                    assert(self@.sessions[i] == old_ss[i]);
                } else {
                    assert(self@.sessions[i] == old_ss[i]);
                    assert(self@.sessions[j] == old_ss[j]);
                }
            }
        }
    }

    /// Delete the session of this id, if present; deleting an absent session
    /// changes nothing.
    pub fn remove_session(&mut self, id: u128)
        requires
            old(self).wf(),
        ensures
            final(self).wf(),
            final(self)@.sessions == without_session(old(self)@.sessions, id),
            final(self)@.accounts == old(self)@.accounts,
            final(self)@.challenges == old(self)@.challenges,
    {
        let ghost old_ss = self@.sessions;
        match self.find_session_by_id(id) {
            Option::Some(i) => {
                self.sessions.remove(i);
                proof {
                    lemma_without_session_unique(old_ss, id, i as int);
                    assert(self@.sessions =~= old_ss.remove(i as int));
                    assert(self@.accounts =~= old(self)@.accounts);
                    assert(self@.challenges =~= old(self)@.challenges);
                    assert forall|p: int, q: int| 0 <= p < q < self@.sessions.len() implies self@.sessions[p].id
                        != self@.sessions[q].id by {
                        let pp = if p < i as int { p } else { p + 1 };
                        let qq = if q < i as int { q } else { q + 1 };
                        assert(self@.sessions[p] == old_ss[pp]);
                        assert(self@.sessions[q] == old_ss[qq]);
                    }
                }
            },
            Option::None => {
                proof {
                    lemma_without_session_absent(old_ss, id);
                }
            },
        }
    }

    /// Keyed lookup: the index of the live challenge for this account, if any.
    pub fn find_challenge(&self, account_id: u128) -> (r: Option<usize>)
        ensures
            match r {
                Option::Some(i) => i < self@.challenges.len() && self@.challenges[i as int].account_id
                    == account_id,
                Option::None => !has_challenge(self@.challenges, account_id),
            },
    {
        let mut i: usize = 0;
        while i < self.challenges.len()
            invariant
                0 <= i <= self.challenges.len(),
                self@.challenges.len() == self.challenges.len(),
                forall|j: int| 0 <= j < i ==> self@.challenges[j].account_id != account_id,
            decreases self.challenges.len() - i,
        {
            if self.challenges[i].account_id == account_id {
                return Some(i);
            }
            i = i + 1;
        }
        None
    }

    /// Delete the live challenge for this account, if any.
    pub fn remove_challenge(&mut self, account_id: u128)
        requires
            old(self).wf(),
        ensures
            final(self).wf(),
            final(self)@.challenges == without_challenge(old(self)@.challenges, account_id),
            final(self)@.accounts == old(self)@.accounts,
            final(self)@.sessions == old(self)@.sessions,
    {
        let ghost old_cs = self@.challenges;
        match self.find_challenge(account_id) {
            Option::Some(i) => {
                self.challenges.remove(i);
                proof {
                    lemma_without_challenge_unique(old_cs, account_id, i as int);
                    assert(self@.challenges =~= old_cs.remove(i as int));
                    assert(self@.accounts =~= old(self)@.accounts);
                    assert(self@.sessions =~= old(self)@.sessions);
                    assert forall|p: int, q: int| 0 <= p < q < self@.challenges.len() implies self@.challenges[p].account_id
                        != self@.challenges[q].account_id by {
                        let pp = if p < i as int { p } else { p + 1 };
                        let qq = if q < i as int { q } else { q + 1 };
                        assert(self@.challenges[p] == old_cs[pp]);
                        assert(self@.challenges[q] == old_cs[qq]);
                    }
                }
            },
            Option::None => {
                proof {
                    lemma_without_challenge_absent(old_cs, account_id);
                }
            },
        }
    }

    /// Store a code for this account, overwriting any prior live challenge:
    /// at most one live challenge per account, the newest wins.
    pub fn set_challenge(&mut self, account_id: u128, code: String)
        requires
            old(self).wf(),
        ensures
            final(self).wf(),
            final(self)@.challenges == without_challenge(old(self)@.challenges, account_id).push(
                ChallengeV { account_id, code: code@ },
            ),
            final(self)@.accounts == old(self)@.accounts,
            final(self)@.sessions == old(self)@.sessions,
    {
        let ghost old_cs = self@.challenges;
        self.remove_challenge(account_id);
        let ghost mid_cs = self@.challenges;
        let ghost cv = ChallengeV { account_id, code: code@ };
        self.challenges.push(Challenge { account_id, code });
        proof {
            assert(self@.challenges =~= mid_cs.push(cv));
            assert(self@.accounts =~= old(self)@.accounts);
            assert(self@.sessions =~= old(self)@.sessions);
            lemma_without_challenge_clears(old_cs, account_id);
            assert forall|i: int, j: int| 0 <= i < j < self@.challenges.len() implies self@.challenges[i].account_id
                != self@.challenges[j].account_id by {
                if j == self@.challenges.len() - 1 {
                    assert(self@.challenges[i] == mid_cs[i]);
                    assert(self@.challenges[j] == cv);
                    assert(has_challenge(mid_cs, account_id) ==> false) by {
                        lemma_without_challenge_clears(old_cs, account_id);
                    }
                    assert(mid_cs[i].account_id != account_id);
                } else {
                    assert(self@.challenges[i] == mid_cs[i]);
                    assert(self@.challenges[j] == mid_cs[j]);
                }
            }
        }
    }
}

} // verus!
