//! The persistence model and the services built on it.
//!
//! [`AccountConfig`] models the relational store the services persist
//! to: the account, session and thread tables, with the uniqueness
//! constraints the schema declares. The service operations — create,
//! find, authenticate, issue and resolve sessions, persist threads —
//! are verified against this model.

use vstd::prelude::*;
use crate::account::Account;
use crate::errors::{AccountError, Error};
use crate::hash::{kdf_verify, verifies, DEFAULT_KDF_ROUNDS};
use crate::rank::{AccountField, LoginMethod, Rank};
use crate::session::{Session, SESSION_LIFETIME_MS};
use crate::strutil::{eq_ignore_case, lower, str_eq};
use crate::threads::Thread;

verus! {

/// Whether some account in `accs` holds `name` as its username, up to
/// case.
pub open spec fn username_taken(accs: Seq<Account>, name: Seq<char>) -> bool {
    exists|i: int| 0 <= i < accs.len() && lower(#[trigger] accs[i].username@) == lower(name)
}

/// Whether some account in `accs` holds `email` as its email, up to
/// case.
pub open spec fn email_taken(accs: Seq<Account>, email: Seq<char>) -> bool {
    exists|i: int| 0 <= i < accs.len() && lower(#[trigger] accs[i].email@) == lower(email)
}

/// Whether some account in `accs` holds exactly `id` as its id.
pub open spec fn id_taken(accs: Seq<Account>, id: Seq<char>) -> bool {
    exists|i: int| 0 <= i < accs.len() && #[trigger] accs[i].id@ == id
}

/// Whether some session in `ss` holds exactly `sid` as its token.
pub open spec fn session_id_taken(ss: Seq<Session>, sid: Seq<char>) -> bool {
    exists|i: int| 0 <= i < ss.len() && #[trigger] ss[i].session_id@ == sid
}

/// Whether some session in `ss` holds `sid` and is still live at `now`.
pub open spec fn live_session_match(ss: Seq<Session>, sid: Seq<char>, now: u64) -> bool {
    exists|i: int|
        0 <= i < ss.len() && #[trigger] ss[i].session_id@ == sid && now < ss[i].expires_at
}

/// The store model: the three tables and the thread id counter, plus
/// the key-derivation work factor the account service hashes with.
#[derive(Debug)]
pub struct AccountConfig {
    pub accounts: Vec<Account>,
    pub sessions: Vec<Session>,
    pub threads: Vec<Thread>,
    pub next_thread_id: u64,
    pub kdf_rounds: u32,
}

impl AccountConfig {
    /// The accounts table's constraints: usernames and emails unique up
    /// to case, ids unique exactly.
    pub open spec fn accounts_wf(self) -> bool {
        forall|i: int, j: int|
            0 <= i < j < self.accounts@.len() ==> {
                &&& lower((#[trigger] self.accounts@[i]).username@) != lower(
                    (#[trigger] self.accounts@[j]).username@,
                )
                &&& lower(self.accounts@[i].email@) != lower(self.accounts@[j].email@)
                &&& self.accounts@[i].id@ != self.accounts@[j].id@
            }
    }

    /// The sessions table's constraints: tokens unique, every session
    /// bound to an existing account.
    pub open spec fn sessions_wf(self) -> bool {
        &&& forall|i: int, j: int|
            0 <= i < j < self.sessions@.len() ==> (#[trigger] self.sessions@[i]).session_id@ != (
            #[trigger] self.sessions@[j]).session_id@
        &&& forall|i: int|
            0 <= i < self.sessions@.len() ==> id_taken(
                self.accounts@,
                (#[trigger] self.sessions@[i]).account_id@,
            )
    }

    /// The threads table's constraints: ids assigned below the counter
    /// and unique, titles and bodies non-empty, authors existing.
    pub open spec fn threads_wf(self) -> bool {
        &&& forall|i: int|
            0 <= i < self.threads@.len() ==> (#[trigger] self.threads@[i]).id
                < self.next_thread_id
        &&& forall|i: int, j: int|
            0 <= i < j < self.threads@.len() ==> (#[trigger] self.threads@[i]).id != (
            #[trigger] self.threads@[j]).id
        &&& forall|i: int|
            0 <= i < self.threads@.len() ==> {
                &&& id_taken(self.accounts@, (#[trigger] self.threads@[i]).created_by@)
                &&& self.threads@[i].title@.len() > 0
                &&& self.threads@[i].body@.len() > 0
            }
    }

    /// The store's invariant, established at construction and preserved
    /// by every operation.
    pub open spec fn wf(self) -> bool {
        &&& self.accounts_wf()
        &&& self.sessions_wf()
        &&& self.threads_wf()
        &&& 1 <= self.kdf_rounds
    }

    /// A fresh, empty store hashing at the interactive work factor.
    pub fn new() -> (r: AccountConfig)
        ensures
            r.wf(),
            r.accounts@.len() == 0,
            r.sessions@.len() == 0,
            r.threads@.len() == 0,
            r.next_thread_id == 1,
            r.kdf_rounds == DEFAULT_KDF_ROUNDS,
    {
        AccountConfig {
            accounts: Vec::new(),
            sessions: Vec::new(),
            threads: Vec::new(),
            next_thread_id: 1,
            kdf_rounds: DEFAULT_KDF_ROUNDS,
        }
    }

    /// A fresh, empty store hashing with the given work factor.
    pub fn with_rounds(rounds: u32) -> (r: AccountConfig)
        requires
            1 <= rounds,
        ensures
            r.wf(),
            r.accounts@.len() == 0,
            r.sessions@.len() == 0,
            r.threads@.len() == 0,
            r.next_thread_id == 1,
            r.kdf_rounds == rounds,
    {
        AccountConfig {
            accounts: Vec::new(),
            sessions: Vec::new(),
            threads: Vec::new(),
            next_thread_id: 1,
            kdf_rounds: rounds,
        }
    }

    /// The index of the first account holding `name` as its username,
    /// up to case.
    fn index_by_username(&self, name: &str) -> (r: Option<usize>)
        ensures
            r matches Some(i) ==> i < self.accounts@.len() && lower(
                self.accounts@[i as int].username@,
            ) == lower(name@),
            r is None ==> !username_taken(self.accounts@, name@),
    {
        let mut i: usize = 0;
        while i < self.accounts.len()
            invariant
                i <= self.accounts@.len(),
                forall|j: int|
                    0 <= j < i ==> lower((#[trigger] self.accounts@[j]).username@) != lower(
                        name@,
                    ),
            decreases self.accounts@.len() - i,
        {
            if eq_ignore_case(self.accounts[i].username.as_str(), name) {
                return Some(i);
            }
            i = i + 1;
        }
        None
    }

    /// The index of the first account holding `email` as its email, up
    /// to case.
    fn index_by_email(&self, email: &str) -> (r: Option<usize>)
        ensures
            r matches Some(i) ==> i < self.accounts@.len() && lower(
                self.accounts@[i as int].email@,
            ) == lower(email@),
            r is None ==> !email_taken(self.accounts@, email@),
    {
        let mut i: usize = 0;
        while i < self.accounts.len()
            invariant
                i <= self.accounts@.len(),
                forall|j: int|
                    0 <= j < i ==> lower((#[trigger] self.accounts@[j]).email@) != lower(email@),
            decreases self.accounts@.len() - i,
        {
            if eq_ignore_case(self.accounts[i].email.as_str(), email) {
                return Some(i);
            }
            i = i + 1;
        }
        None
    }

    /// The index of the account holding exactly `id` as its id.
    fn index_by_id(&self, id: &str) -> (r: Option<usize>)
        ensures
            r matches Some(i) ==> i < self.accounts@.len() && self.accounts@[i as int].id@ == id@,
            r is None ==> !id_taken(self.accounts@, id@),
    {
        let mut i: usize = 0;
        while i < self.accounts.len()
            invariant
                i <= self.accounts@.len(),
                forall|j: int| 0 <= j < i ==> (#[trigger] self.accounts@[j]).id@ != id@,
            decreases self.accounts@.len() - i,
        {
            if str_eq(self.accounts[i].id.as_str(), id) {
                return Some(i);
            }
            i = i + 1;
        }
        None
    }

    /// The index of the first session holding exactly `sid` as its
    /// token.
    fn session_index_by_token(&self, sid: &str) -> (r: Option<usize>)
        ensures
            r matches Some(i) ==> i < self.sessions@.len() && self.sessions@[i as int].session_id@
                == sid@,
            r is None ==> !session_id_taken(self.sessions@, sid@),
    {
        let mut i: usize = 0;
        while i < self.sessions.len()
            invariant
                i <= self.sessions@.len(),
                forall|j: int| 0 <= j < i ==> (#[trigger] self.sessions@[j]).session_id@ != sid@,
            decreases self.sessions@.len() - i,
        {
            if str_eq(self.sessions[i].session_id.as_str(), sid) {
                return Some(i);
            }
            i = i + 1;
        }
        None
    }

    /// Inserts an account row, enforcing the schema's constraints: a
    /// duplicate username or email (up to case) refuses the insert with
    /// the taken value named, a duplicate id refuses it with the
    /// store's message, and each refusal leaves the store unchanged.
    pub fn create_account(&mut self, acc: Account) -> (r: Result<(), AccountError>)
        requires
            old(self).wf(),
        ensures
            final(self).wf(),
            final(self).sessions@ == old(self).sessions@,
            final(self).threads@ == old(self).threads@,
            final(self).next_thread_id == old(self).next_thread_id,
            final(self).kdf_rounds == old(self).kdf_rounds,
            r is Ok <==> {
                &&& !username_taken(old(self).accounts@, acc.username@)
                &&& !email_taken(old(self).accounts@, acc.email@)
                &&& !id_taken(old(self).accounts@, acc.id@)
            },
            r is Ok ==> final(self).accounts@ == old(self).accounts@.push(acc),
            r is Err ==> final(self).accounts@ == old(self).accounts@,
            username_taken(old(self).accounts@, acc.username@) ==> (r matches Err(e) && e matches
                AccountError::UsernameTaken(u) && u@ == acc.username@),
            !username_taken(old(self).accounts@, acc.username@) && email_taken(
                old(self).accounts@,
                acc.email@,
            ) ==> (r matches Err(e) && e matches AccountError::EmailTaken(v) && v@
                == acc.email@),
            !username_taken(old(self).accounts@, acc.username@) && !email_taken(
                old(self).accounts@,
                acc.email@,
            ) && id_taken(old(self).accounts@, acc.id@) ==> (r matches Err(e) && e matches
                AccountError::InvalidFormat(m) && m@
                == "an account with this id already exists"@),
    {
        match self.index_by_username(acc.username.as_str()) {
            Some(i) => {
                proof {
                    assert(username_taken(self.accounts@, acc.username@));
                }
                return Err(AccountError::UsernameTaken(acc.username.clone()));
            },
            None => {},
        }
        match self.index_by_email(acc.email.as_str()) {
            Some(i) => {
                proof {
                    assert(email_taken(self.accounts@, acc.email@));
                }
                return Err(AccountError::EmailTaken(acc.email.clone()));
            },
            None => {},
        }
        match self.index_by_id(acc.id.as_str()) {
            Some(i) => {
                proof {
                    assert(id_taken(self.accounts@, acc.id@));
                }
                return Err(
                    AccountError::InvalidFormat("an account with this id already exists".to_owned()),
                );
            },
            None => {},
        }
        self.accounts.push(acc);
        proof {
            let a0 = old(self).accounts@;
            let a1 = self.accounts@;
            assert forall|i: int, j: int| 0 <= i < j < a1.len() implies {
                &&& lower((#[trigger] a1[i]).username@) != lower((#[trigger] a1[j]).username@)
                &&& lower(a1[i].email@) != lower(a1[j].email@)
                &&& a1[i].id@ != a1[j].id@
            } by {
                if j < a0.len() {
                    assert(a1[i] == a0[i]);
                    assert(a1[j] == a0[j]);
                    assert(old(self).accounts_wf());
                } else {
                    assert(a1[j] == acc);
                    assert(a1[i] == a0[i]);
                }
            }
            assert forall|i: int| 0 <= i < self.sessions@.len() implies id_taken(
                a1,
                (#[trigger] self.sessions@[i]).account_id@,
            ) by {
                assert(id_taken(a0, self.sessions@[i].account_id@));
                let k = choose|k: int|
                    0 <= k < a0.len() && #[trigger] a0[k].id@ == self.sessions@[i].account_id@;
                assert(a1[k] == a0[k]);
            }
            assert forall|i: int| 0 <= i < self.threads@.len() implies id_taken(
                a1,
                (#[trigger] self.threads@[i]).created_by@,
            ) by {
                assert(id_taken(a0, self.threads@[i].created_by@));
                let k = choose|k: int|
                    0 <= k < a0.len() && #[trigger] a0[k].id@ == self.threads@[i].created_by@;
                assert(a1[k] == a0[k]);
            }
        }
        Ok(())
    }

    /// Inserts a session row: the session must reference an existing
    /// account and carry a token no other session holds; each refusal
    /// carries the store's message and leaves the store unchanged.
    pub fn create_session(&mut self, s: Session) -> (r: Result<(), AccountError>)
        requires
            old(self).wf(),
        ensures
            final(self).wf(),
            final(self).accounts@ == old(self).accounts@,
            final(self).threads@ == old(self).threads@,
            final(self).next_thread_id == old(self).next_thread_id,
            final(self).kdf_rounds == old(self).kdf_rounds,
            r is Ok <==> {
                &&& id_taken(old(self).accounts@, s.account_id@)
                &&& !session_id_taken(old(self).sessions@, s.session_id@)
            },
            r is Ok ==> final(self).sessions@ == old(self).sessions@.push(s),
            r is Err ==> final(self).sessions@ == old(self).sessions@,
            !id_taken(old(self).accounts@, s.account_id@) ==> (r matches Err(e) && e matches
                AccountError::InvalidFormat(m) && m@
                == "the session does not reference an existing account"@),
            id_taken(old(self).accounts@, s.account_id@) && session_id_taken(
                old(self).sessions@,
                s.session_id@,
            ) ==> (r matches Err(e) && e matches AccountError::InvalidFormat(m) && m@
                == "a session with this token already exists"@),
    {
        match self.index_by_id(s.account_id.as_str()) {
            Some(_) => {},
            None => {
                return Err(
                    AccountError::InvalidFormat(
                        "the session does not reference an existing account".to_owned(),
                    ),
                );
            },
        }
        match self.session_index_by_token(s.session_id.as_str()) {
            Some(i) => {
                proof {
                    assert(session_id_taken(self.sessions@, s.session_id@));
                }
                return Err(
                    AccountError::InvalidFormat(
                        "a session with this token already exists".to_owned(),
                    ),
                );
            },
            None => {},
        }
        self.sessions.push(s);
        proof {
            let s0 = old(self).sessions@;
            let s1 = self.sessions@;
            assert forall|i: int, j: int| 0 <= i < j < s1.len() implies (
            #[trigger] s1[i]).session_id@ != (#[trigger] s1[j]).session_id@ by {
                if j < s0.len() {
                    assert(s1[i] == s0[i]);
                    assert(s1[j] == s0[j]);
                    assert(old(self).sessions_wf());
                } else {
                    assert(s1[j] == s);
                    assert(s1[i] == s0[i]);
                }
            }
            assert forall|i: int| 0 <= i < s1.len() implies id_taken(
                self.accounts@,
                (#[trigger] s1[i]).account_id@,
            ) by {
                if i < s0.len() {
                    assert(s1[i] == s0[i]);
                    assert(old(self).sessions_wf());
                } else {
                    assert(s1[i] == s);
                }
            }
        }
        Ok(())
    }

    /// Resolves a session token to its account. A token with no row, or
    /// one whose session has expired by `now_ms`, is treated as absent
    /// and answered with `AccountNotFound` carrying the token.
    pub fn find_by_session(&self, sid: &str, now_ms: u64) -> (r: Result<Account, AccountError>)
        requires
            self.wf(),
        ensures
            r is Ok <==> live_session_match(self.sessions@, sid@, now_ms),
            r matches Ok(a) ==> exists|i: int, j: int|
                {
                    &&& 0 <= i < self.sessions@.len()
                    &&& (#[trigger] self.sessions@[i]).session_id@ == sid@
                    &&& now_ms < self.sessions@[i].expires_at
                    &&& 0 <= j < self.accounts@.len()
                    &&& a == #[trigger] self.accounts@[j]
                    &&& a.id@ == self.sessions@[i].account_id@
                },
            r matches Err(e) ==> e matches AccountError::AccountNotFound(v) && v@ == sid@,
    {
        let mut i: usize = 0;
        while i < self.sessions.len()
            invariant
                self.wf(),
                i <= self.sessions@.len(),
                forall|j: int|
                    0 <= j < i ==> !((#[trigger] self.sessions@[j]).session_id@ == sid@ && now_ms
                        < self.sessions@[j].expires_at),
            decreases self.sessions@.len() - i,
        {
            if str_eq(self.sessions[i].session_id.as_str(), sid) && now_ms
                < self.sessions[i].expires_at {
                let account_id = &self.sessions[i].account_id;
                match self.index_by_id(account_id.as_str()) {
                    Some(j) => {
                        return Ok(self.accounts[j].duplicate());
                    },
                    None => {
                        proof {
                            assert(id_taken(self.accounts@, self.sessions@[i as int].account_id@));
                            assert(false);
                        }
                        return Err(AccountError::AccountNotFound(sid.to_owned()));
                    },
                }
            }
            i = i + 1;
        }
        Err(AccountError::AccountNotFound(sid.to_owned()))
    }

    /// Inserts a thread row with the next surrogate id. The title and
    /// body must be non-empty and the author must reference an existing
    /// account; each refusal carries the store's message and leaves the
    /// store unchanged.
    pub fn create_thread(&mut self, title: &str, body: &str, created_by: &str, created_on: u64) -> (
        r: Result<u64, AccountError>)
        requires
            old(self).wf(),
        ensures
            final(self).wf(),
            final(self).accounts@ == old(self).accounts@,
            final(self).sessions@ == old(self).sessions@,
            final(self).kdf_rounds == old(self).kdf_rounds,
            r is Ok <==> {
                &&& title@.len() > 0
                &&& body@.len() > 0
                &&& id_taken(old(self).accounts@, created_by@)
                &&& old(self).next_thread_id < u64::MAX
            },
            r is Err ==> final(self).threads@ == old(self).threads@ && final(self).next_thread_id == old(self).next_thread_id,
            r matches Ok(id) ==> {
                &&& id == old(self).next_thread_id
                &&& final(self).next_thread_id == old(self).next_thread_id + 1
                &&& final(self).threads@.len() == old(self).threads@.len() + 1
                &&& forall|k: int|
                    0 <= k < old(self).threads@.len() ==> final(self).threads@[k] == old(self).threads@[k]
                &&& final(self).threads@.last().id == old(self).next_thread_id
                &&& final(self).threads@.last().title@ == title@
                &&& final(self).threads@.last().body@ == body@
                &&& final(self).threads@.last().created_by@ == created_by@
                &&& final(self).threads@.last().created_on == created_on
            },
            title@.len() == 0 || body@.len() == 0 ==> (r matches Err(e) && e matches
                AccountError::InvalidFormat(m) && m@
                == "the thread title and body must not be empty"@),
            title@.len() > 0 && body@.len() > 0 && !id_taken(old(self).accounts@, created_by@)
                ==> (r matches Err(e) && e matches AccountError::InvalidFormat(m) && m@
                == "the thread author does not reference an existing account"@),
            title@.len() > 0 && body@.len() > 0 && id_taken(old(self).accounts@, created_by@)
                && old(self).next_thread_id == u64::MAX ==> (r matches Err(e) && e matches
                AccountError::InvalidFormat(m) && m@ == "the thread id space is exhausted"@),
    {
        if title.is_empty() || body.is_empty() {
            return Err(
                AccountError::InvalidFormat("the thread title and body must not be empty".to_owned()),
            );
        }
        match self.index_by_id(created_by) {
            Some(_) => {},
            None => {
                return Err(
                    AccountError::InvalidFormat(
                        "the thread author does not reference an existing account".to_owned(),
                    ),
                );
            },
        }
        if self.next_thread_id == u64::MAX {
            return Err(AccountError::InvalidFormat("the thread id space is exhausted".to_owned()));
        }
        let id = self.next_thread_id;
        let t = Thread {
            id,
            title: title.to_owned(),
            body: body.to_owned(),
            created_by: created_by.to_owned(),
            created_on,
        };
        self.threads.push(t);
        self.next_thread_id = id + 1;
        proof {
            let t0 = old(self).threads@;
            let t1 = self.threads@;
            assert forall|i: int| 0 <= i < t1.len() implies (#[trigger] t1[i]).id
                < self.next_thread_id by {
                if i < t0.len() {
                    assert(t1[i] == t0[i]);
                    assert(old(self).threads_wf());
                }
            }
            assert forall|i: int, j: int| 0 <= i < j < t1.len() implies (#[trigger] t1[i]).id != (
            #[trigger] t1[j]).id by {
                if j < t0.len() {
                    assert(t1[i] == t0[i]);
                    assert(t1[j] == t0[j]);
                    assert(old(self).threads_wf());
                } else {
                    assert(t1[i] == t0[i]);
                    assert(old(self).threads_wf());
                    assert(t1[i].id < old(self).next_thread_id);
                }
            }
            assert forall|i: int| 0 <= i < t1.len() implies {
                &&& id_taken(self.accounts@, (#[trigger] t1[i]).created_by@)
                &&& t1[i].title@.len() > 0
                &&& t1[i].body@.len() > 0
            } by {
                if i < t0.len() {
                    assert(t1[i] == t0[i]);
                    assert(old(self).threads_wf());
                }
            }
        }
        Ok(id)
    }

    /// Finds an account by username, up to case. Returns the decoded
    /// account, or `AccountNotFound` carrying the key when no row
    /// matches.
    pub fn find_by_username(&self, name: &str) -> (r: Result<Account, AccountError>)
        ensures
            r is Ok <==> username_taken(self.accounts@, name@),
            r matches Ok(a) ==> exists|i: int|
                0 <= i < self.accounts@.len() && a == #[trigger] self.accounts@[i] && lower(
                    a.username@,
                ) == lower(name@),
            r matches Err(e) ==> e matches AccountError::AccountNotFound(v) && v@ == name@,
    {
        match self.index_by_username(name) {
            Some(i) => Ok(self.accounts[i].duplicate()),
            None => Err(AccountError::AccountNotFound(name.to_owned())),
        }
    }

    /// Finds an account by email, up to case. Returns the decoded
    /// account, or `AccountNotFound` carrying the key when no row
    /// matches.
    pub fn find_by_email(&self, email: &str) -> (r: Result<Account, AccountError>)
        ensures
            r is Ok <==> email_taken(self.accounts@, email@),
            r matches Ok(a) ==> exists|i: int|
                0 <= i < self.accounts@.len() && a == #[trigger] self.accounts@[i] && lower(
                    a.email@,
                ) == lower(email@),
            r matches Err(e) ==> e matches AccountError::AccountNotFound(v) && v@ == email@,
    {
        match self.index_by_email(email) {
            Some(i) => Ok(self.accounts[i].duplicate()),
            None => Err(AccountError::AccountNotFound(email.to_owned())),
        }
    }

    /// Finds an account by its exact id. Returns the decoded account,
    /// or `AccountNotFound` carrying the key when no row matches.
    pub fn find_by_id(&self, id: &str) -> (r: Result<Account, AccountError>)
        ensures
            r is Ok <==> id_taken(self.accounts@, id@),
            r matches Ok(a) ==> exists|i: int|
                0 <= i < self.accounts@.len() && a == #[trigger] self.accounts@[i] && a.id@
                    == id@,
            r matches Err(e) ==> e matches AccountError::AccountNotFound(v) && v@ == id@,
    {
        match self.index_by_id(id) {
            Some(i) => Ok(self.accounts[i].duplicate()),
            None => Err(AccountError::AccountNotFound(id.to_owned())),
        }
    }

    /// Creates an account, relying on the store's constraints for
    /// uniqueness rather than pre-checking.
    pub fn create(&mut self, acc: Account) -> (r: Result<(), AccountError>)
        requires
            old(self).wf(),
        ensures
            final(self).wf(),
            final(self).sessions@ == old(self).sessions@,
            final(self).threads@ == old(self).threads@,
            final(self).next_thread_id == old(self).next_thread_id,
            final(self).kdf_rounds == old(self).kdf_rounds,
            r is Ok <==> {
                &&& !username_taken(old(self).accounts@, acc.username@)
                &&& !email_taken(old(self).accounts@, acc.email@)
                &&& !id_taken(old(self).accounts@, acc.id@)
            },
            r is Ok ==> final(self).accounts@ == old(self).accounts@.push(acc),
            r is Err ==> final(self).accounts@ == old(self).accounts@,
            username_taken(old(self).accounts@, acc.username@) ==> (r matches Err(e) && e matches
                AccountError::UsernameTaken(u) && u@ == acc.username@),
            !username_taken(old(self).accounts@, acc.username@) && email_taken(
                old(self).accounts@,
                acc.email@,
            ) ==> (r matches Err(e) && e matches AccountError::EmailTaken(v) && v@
                == acc.email@),
    {
        self.create_account(acc)
    }

    /// Registers a new account from the raw request fields: empty
    /// fields are rejected, the password is hashed under a fresh salt,
    /// a time-based id is assigned, and the row is created. On success
    /// the stored row carries the given username and email, the
    /// `Member` rank, and a hash the given password verifies against.
    pub fn register(&mut self, username: &str, password: &str, email: &str) -> (r: Result<
        (),
        AccountError,
    >)
        requires
            old(self).wf(),
        ensures
            final(self).wf(),
            final(self).sessions@ == old(self).sessions@,
            final(self).threads@ == old(self).threads@,
            final(self).next_thread_id == old(self).next_thread_id,
            final(self).kdf_rounds == old(self).kdf_rounds,
            r is Err ==> final(self).accounts@ == old(self).accounts@,
            username@.len() == 0 || password@.len() == 0 || email@.len() == 0 ==> (r matches Err(
                e,
            ) && e matches AccountError::InvalidFormat(m) && m@
                == "the username, password and email must not be empty"@),
            username@.len() > 0 && password@.len() > 0 && email@.len() > 0 && username_taken(
                old(self).accounts@,
                username@,
            ) ==> (r matches Err(e) && e matches AccountError::UsernameTaken(u) && u@
                == username@),
            username@.len() > 0 && password@.len() > 0 && email@.len() > 0 && !username_taken(
                old(self).accounts@,
                username@,
            ) && email_taken(old(self).accounts@, email@) ==> (r matches Err(e) && e matches
                AccountError::EmailTaken(v) && v@ == email@),
            username@.len() > 0 && password@.len() > 0 && email@.len() > 0 && !username_taken(
                old(self).accounts@,
                username@,
            ) && !email_taken(old(self).accounts@, email@) ==> (r is Ok || (r matches Err(e)
                && e matches AccountError::InvalidFormat(m) && m@
                == "an account with this id already exists"@)),
            username@.len() > 0 && password@.len() > 0 && email@.len() > 0 && old(
                self,
            ).accounts@.len() == 0 ==> r is Ok,
            r is Ok ==> {
                &&& username@.len() > 0 && password@.len() > 0 && email@.len() > 0
                &&& !username_taken(old(self).accounts@, username@)
                &&& !email_taken(old(self).accounts@, email@)
                &&& final(self).accounts@.len() == old(self).accounts@.len() + 1
                &&& forall|k: int|
                    0 <= k < old(self).accounts@.len() ==> final(self).accounts@[k] == old(
                        self,
                    ).accounts@[k]
                &&& final(self).accounts@.last().username@ == username@
                &&& final(self).accounts@.last().email@ == email@
                &&& final(self).accounts@.last().rank == Rank::Member
                &&& verifies(password@, final(self).accounts@.last().password@)
            },
    {
        if username.is_empty() || password.is_empty() || email.is_empty() {
            return Err(
                AccountError::InvalidFormat(
                    "the username, password and email must not be empty".to_owned(),
                ),
            );
        }
        let acc = Account::new_with_rounds(username, password, email, self.kdf_rounds);
        self.create_account(acc)
    }

    /// Authenticates against the account the method keys on: an
    /// unknown key is answered with `AccountNotFound`, a failed
    /// verification with `WrongPassword`, and a successful one with a
    /// fresh, not yet persisted session bound to the account's id and
    /// expiring one lifetime after `now_ms`.
    pub fn auth(&self, method: LoginMethod, key: &str, pass: &str, now_ms: u64) -> (r: Result<
        Session,
        AccountError,
    >)
        requires
            self.wf(),
            now_ms + SESSION_LIFETIME_MS <= u64::MAX,
        ensures
            r is Ok <==> exists|i: int|
                0 <= i < self.accounts@.len() && key_matches(
                    #[trigger] self.accounts@[i],
                    method,
                    key@,
                ) && verifies(pass@, self.accounts@[i].password@),
            !key_taken(self.accounts@, method, key@) ==> (r matches Err(e) && e matches
                AccountError::AccountNotFound(v) && v@ == key@),
            forall|i: int|
                0 <= i < self.accounts@.len() && key_matches(
                    #[trigger] self.accounts@[i],
                    method,
                    key@,
                ) ==> {
                    &&& (!verifies(pass@, self.accounts@[i].password@) ==> (r matches Err(e)
                        && e matches AccountError::WrongPassword))
                    &&& (r matches Ok(s) ==> {
                        &&& s.account_id@ == self.accounts@[i].id@
                        &&& s.expires_at == now_ms + SESSION_LIFETIME_MS
                        &&& now_ms < s.expires_at
                        &&& s.token_wf()
                    })
                },
    {
        let idx = match method {
            LoginMethod::Username => self.index_by_username(key),
            LoginMethod::Email => self.index_by_email(key),
        };
        match idx {
            None => {
                proof {
                    if key_taken(self.accounts@, method, key@) {
                        let w = choose|w: int|
                            0 <= w < self.accounts@.len() && key_matches(
                                #[trigger] self.accounts@[w],
                                method,
                                key@,
                            );
                        if method == LoginMethod::Username {
                            assert(lower(self.accounts@[w].username@) == lower(key@));
                            assert(username_taken(self.accounts@, key@));
                        } else {
                            assert(lower(self.accounts@[w].email@) == lower(key@));
                            assert(email_taken(self.accounts@, key@));
                        }
                    }
                }
                Err(AccountError::AccountNotFound(key.to_owned()))
            },
            Some(i) => {
                proof {
                    assert(key_matches(self.accounts@[i as int], method, key@));
                    assert forall|j: int|
                        0 <= j < self.accounts@.len() && key_matches(
                            #[trigger] self.accounts@[j],
                            method,
                            key@,
                        ) implies j == i by {
                        if j < i {
                            assert(self.accounts_wf());
                            assert(lower(self.accounts@[j].username@) != lower(
                                self.accounts@[i as int].username@,
                            ));
                            assert(lower(self.accounts@[j].email@) != lower(
                                self.accounts@[i as int].email@,
                            ));
                        } else if i < j {
                            assert(self.accounts_wf());
                            assert(lower(self.accounts@[i as int].username@) != lower(
                                self.accounts@[j].username@,
                            ));
                            assert(lower(self.accounts@[i as int].email@) != lower(
                                self.accounts@[j].email@,
                            ));
                        }
                    }
                }
                let acc = &self.accounts[i];
                if kdf_verify(pass, acc.password.as_str()) {
                    Ok(Session::issue(acc.id.as_str(), now_ms))
                } else {
                    Err(AccountError::WrongPassword)
                }
            },
        }
    }

    /// Finds an account by the named key: `id`, `username`, `email`,
    /// or `session` (which resolves a live session token at `now_ms`).
    /// An unknown key name, like a missing row, is answered with
    /// `AccountNotFound` carrying the value.
    pub fn find(&self, find: &str, value: &str, now_ms: u64) -> (r: Result<Account, AccountError>)
        requires
            self.wf(),
        ensures
            find@ == "id"@ ==> (r is Ok <==> id_taken(self.accounts@, value@)),
            find@ == "username"@ ==> (r is Ok <==> username_taken(self.accounts@, value@)),
            find@ == "email"@ ==> (r is Ok <==> email_taken(self.accounts@, value@)),
            find@ == "session"@ ==> (r is Ok <==> live_session_match(
                self.sessions@,
                value@,
                now_ms,
            )),
            find@ != "id"@ && find@ != "username"@ && find@ != "email"@ && find@ != "session"@
                ==> r is Err,
            find@ == "id"@ ==> (r matches Ok(a) ==> exists|i: int|
                0 <= i < self.accounts@.len() && a == #[trigger] self.accounts@[i] && a.id@
                    == value@),
            find@ == "username"@ ==> (r matches Ok(a) ==> exists|i: int|
                0 <= i < self.accounts@.len() && a == #[trigger] self.accounts@[i] && lower(
                    a.username@,
                ) == lower(value@)),
            find@ == "email"@ ==> (r matches Ok(a) ==> exists|i: int|
                0 <= i < self.accounts@.len() && a == #[trigger] self.accounts@[i] && lower(
                    a.email@,
                ) == lower(value@)),
            find@ == "session"@ ==> (r matches Ok(a) ==> exists|i: int, j: int|
                {
                    &&& 0 <= i < self.sessions@.len()
                    &&& (#[trigger] self.sessions@[i]).session_id@ == value@
                    &&& now_ms < self.sessions@[i].expires_at
                    &&& 0 <= j < self.accounts@.len()
                    &&& a == #[trigger] self.accounts@[j]
                    &&& a.id@ == self.sessions@[i].account_id@
                }),
            r matches Err(e) ==> e matches AccountError::AccountNotFound(v) && v@ == value@,
    {
        proof {
            reveal_strlit("id");
            reveal_strlit("username");
            reveal_strlit("email");
            reveal_strlit("session");
            assert(("id"@).len() == 2);
            assert(("username"@).len() == 8);
            assert(("email"@).len() == 5);
            assert(("session"@).len() == 7);
        }
        if str_eq(find, "id") {
            self.find_by_id(value)
        } else if str_eq(find, "username") {
            self.find_by_username(value)
        } else if str_eq(find, "email") {
            self.find_by_email(value)
        } else if str_eq(find, "session") {
            self.find_by_session(value, now_ms)
        } else {
            Err(AccountError::AccountNotFound(value.to_owned()))
        }
    }

    /// Whether some account row holds `value` in the named column: the
    /// id and password columns compare exactly, the username and email
    /// columns up to case, and the role column by the decoded rank (an
    /// undecodable value matches nothing).
    pub fn account_exists(&self, find_by: AccountField, value: &str) -> (r: bool)
        ensures
            find_by == AccountField::Id ==> r == id_taken(self.accounts@, value@),
            find_by == AccountField::Username ==> r == username_taken(self.accounts@, value@),
            find_by == AccountField::Email ==> r == email_taken(self.accounts@, value@),
            find_by == AccountField::Password ==> r == password_taken(self.accounts@, value@),
            find_by == AccountField::Role ==> r == (match Rank::spec_from_str(value@) {
                Some(rk) => rank_held(self.accounts@, rk),
                None => false,
            }),
    {
        match find_by {
            AccountField::Id => {
                match self.index_by_id(value) {
                    Some(i) => {
                        proof {
                            assert(id_taken(self.accounts@, value@));
                        }
                        true
                    },
                    None => false,
                }
            },
            AccountField::Username => {
                match self.index_by_username(value) {
                    Some(i) => {
                        proof {
                            assert(username_taken(self.accounts@, value@));
                        }
                        true
                    },
                    None => false,
                }
            },
            AccountField::Email => {
                match self.index_by_email(value) {
                    Some(i) => {
                        proof {
                            assert(email_taken(self.accounts@, value@));
                        }
                        true
                    },
                    None => false,
                }
            },
            AccountField::Password => {
                let mut i: usize = 0;
                while i < self.accounts.len()
                    invariant
                        find_by == AccountField::Password,
                        i <= self.accounts@.len(),
                        forall|j: int|
                            0 <= j < i ==> (#[trigger] self.accounts@[j]).password@ != value@,
                    decreases self.accounts@.len() - i,
                {
                    if str_eq(self.accounts[i].password.as_str(), value) {
                        proof {
                            assert(password_taken(self.accounts@, value@));
                        }
                        return true;
                    }
                    i = i + 1;
                }
                false
            },
            AccountField::Role => {
                match Rank::from_str(value) {
                    None => false,
                    Some(rk) => {
                        let mut i: usize = 0;
                        while i < self.accounts.len()
                            invariant
                                find_by == AccountField::Role,
                                Rank::spec_from_str(value@) == Some(rk),
                                i <= self.accounts@.len(),
                                forall|j: int|
                                    0 <= j < i ==> (#[trigger] self.accounts@[j]).rank != rk,
                            decreases self.accounts@.len() - i,
                        {
                            if self.accounts[i].rank == rk {
                                proof {
                                    assert(rank_held(self.accounts@, rk));
                                }
                                return true;
                            }
                            i = i + 1;
                        }
                        false
                    },
                }
            },
        }
    }

    /// Whether some account other than the one at `t` holds `name` as
    /// its username, up to case.
    fn username_except(&self, name: &str, t: usize) -> (r: bool)
        requires
            t < self.accounts@.len(),
        ensures
            r == username_taken_except(self.accounts@, name@, t as int),
    {
        let mut i: usize = 0;
        while i < self.accounts.len()
            invariant
                i <= self.accounts@.len(),
                forall|j: int|
                    0 <= j < i && j != t ==> lower((#[trigger] self.accounts@[j]).username@)
                        != lower(name@),
            decreases self.accounts@.len() - i,
        {
            if i != t {
                if eq_ignore_case(self.accounts[i].username.as_str(), name) {
                    proof {
                        assert(username_taken_except(self.accounts@, name@, t as int));
                    }
                    return true;
                }
            }
            i = i + 1;
        }
        false
    }

    /// Whether some account other than the one at `t` holds `email` as
    /// its email, up to case.
    fn email_except(&self, email: &str, t: usize) -> (r: bool)
        requires
            t < self.accounts@.len(),
        ensures
            r == email_taken_except(self.accounts@, email@, t as int),
    {
        let mut i: usize = 0;
        while i < self.accounts.len()
            invariant
                i <= self.accounts@.len(),
                forall|j: int|
                    0 <= j < i && j != t ==> lower((#[trigger] self.accounts@[j]).email@)
                        != lower(email@),
            decreases self.accounts@.len() - i,
        {
            if i != t {
                if eq_ignore_case(self.accounts[i].email.as_str(), email) {
                    proof {
                        assert(email_taken_except(self.accounts@, email@, t as int));
                    }
                    return true;
                }
            }
            i = i + 1;
        }
        false
    }

    /// Updates one column of the account row with the given id. The id
    /// itself is immutable; the row must exist; a username or email
    /// update must not collide with another row, up to case; a role
    /// update must decode to a rank. Every refusal leaves the store
    /// unchanged.
    pub fn update(&mut self, id: &str, field: AccountField, value: &str) -> (r: Result<(), Error>)
        requires
            old(self).wf(),
        ensures
            final(self).wf(),
            final(self).sessions@ == old(self).sessions@,
            final(self).threads@ == old(self).threads@,
            final(self).next_thread_id == old(self).next_thread_id,
            final(self).kdf_rounds == old(self).kdf_rounds,
            r is Err ==> final(self).accounts@ == old(self).accounts@,
            field == AccountField::Id ==> (r matches Err(e) && e matches Error::IdNotMutable(v)
                && v@ == id@),
            field != AccountField::Id && !id_taken(old(self).accounts@, id@) ==> (r matches Err(
                e,
            ) && e matches Error::AccountNotFound(v) && v@ == id@),
            r is Ok <==> {
                &&& field != AccountField::Id
                &&& id_taken(old(self).accounts@, id@)
                &&& (field == AccountField::Username ==> !username_taken_except(
                    old(self).accounts@,
                    value@,
                    id_index(old(self).accounts@, id@),
                ))
                &&& (field == AccountField::Email ==> !email_taken_except(
                    old(self).accounts@,
                    value@,
                    id_index(old(self).accounts@, id@),
                ))
                &&& (field == AccountField::Role ==> Rank::spec_from_str(value@) is Some)
            },
            field == AccountField::Username && id_taken(old(self).accounts@, id@)
                && username_taken_except(
                old(self).accounts@,
                value@,
                id_index(old(self).accounts@, id@),
            ) ==> (r matches Err(e) && e matches Error::UsernameTaken(v) && v@ == value@),
            field == AccountField::Email && id_taken(old(self).accounts@, id@)
                && email_taken_except(
                old(self).accounts@,
                value@,
                id_index(old(self).accounts@, id@),
            ) ==> (r matches Err(e) && e matches Error::EmailTaken(v) && v@ == value@),
            field == AccountField::Role && id_taken(old(self).accounts@, id@)
                && Rank::spec_from_str(value@) is None ==> (r matches Err(e) && e matches
                Error::WrongDataType(need, given) && need@ == "Rank"@ && given@ == value@),
            r is Ok ==> {
                let t = id_index(old(self).accounts@, id@);
                &&& 0 <= t < old(self).accounts@.len()
                &&& final(self).accounts@.len() == old(self).accounts@.len()
                &&& (forall|k: int|
                    0 <= k < old(self).accounts@.len() && k != t ==> final(self).accounts@[k]
                        == old(self).accounts@[k])
                &&& field_updated(
                    old(self).accounts@[t],
                    final(self).accounts@[t],
                    field,
                    value@,
                )
            },
    {
        match field {
            AccountField::Id => {
                return Err(Error::IdNotMutable(id.to_owned()));
            },
            _ => {},
        }
        let t = match self.index_by_id(id) {
            None => {
                return Err(Error::AccountNotFound(id.to_owned()));
            },
            Some(t) => t,
        };
        proof {
            assert(id_taken(self.accounts@, id@));
            let ti = id_index(self.accounts@, id@);
            assert(0 <= ti < self.accounts@.len() && self.accounts@[ti].id@ == id@);
            if ti != t as int {
                assert(self.accounts_wf());
                if ti < t as int {
                    assert(self.accounts@[ti].id@ != self.accounts@[t as int].id@);
                } else {
                    assert(self.accounts@[t as int].id@ != self.accounts@[ti].id@);
                }
            }
            assert(ti == t as int);
        }
        let mut a = self.accounts[t].duplicate();
        match field {
            AccountField::Username => {
                if self.username_except(value, t) {
                    return Err(Error::UsernameTaken(value.to_owned()));
                }
                a.username = value.to_owned();
            },
            AccountField::Email => {
                if self.email_except(value, t) {
                    return Err(Error::EmailTaken(value.to_owned()));
                }
                a.email = value.to_owned();
            },
            AccountField::Password => {
                a.password = value.to_owned();
            },
            AccountField::Role => {
                match Rank::from_str(value) {
                    None => {
                        return Err(Error::WrongDataType("Rank".to_owned(), value.to_owned()));
                    },
                    Some(rk) => {
                        a.rank = rk;
                    },
                }
            },
            AccountField::Id => {
                proof {
                    assert(false);
                }
                return Err(Error::IdNotMutable(id.to_owned()));
            },
        }
        self.accounts[t] = a;
        proof {
            let a0 = old(self).accounts@;
            let a1 = self.accounts@;
            let ti = t as int;
            assert(a1 == a0.update(ti, a1[ti]));
            assert(field_updated(a0[ti], a1[ti], field, value@));
            assert forall|i: int, j: int| 0 <= i < j < a1.len() implies {
                &&& lower((#[trigger] a1[i]).username@) != lower((#[trigger] a1[j]).username@)
                &&& lower(a1[i].email@) != lower(a1[j].email@)
                &&& a1[i].id@ != a1[j].id@
            } by {
                assert(old(self).accounts_wf());
                assert(lower(a0[i].username@) != lower(a0[j].username@));
                assert(lower(a0[i].email@) != lower(a0[j].email@));
                assert(a0[i].id@ != a0[j].id@);
                if i == ti {
                    assert(a1[j] == a0[j]);
                    if field == AccountField::Username {
                        assert(lower(a0[j].username@) != lower(value@));
                    }
                    if field == AccountField::Email {
                        assert(lower(a0[j].email@) != lower(value@));
                    }
                } else if j == ti {
                    assert(a1[i] == a0[i]);
                    if field == AccountField::Username {
                        assert(lower(a0[i].username@) != lower(value@));
                    }
                    if field == AccountField::Email {
                        assert(lower(a0[i].email@) != lower(value@));
                    }
                } else {
                    assert(a1[i] == a0[i]);
                    assert(a1[j] == a0[j]);
                }
            }
            assert forall|i: int| 0 <= i < self.sessions@.len() implies id_taken(
                a1,
                (#[trigger] self.sessions@[i]).account_id@,
            ) by {
                assert(old(self).sessions_wf());
                assert(id_taken(a0, self.sessions@[i].account_id@));
                let k = choose|k: int|
                    0 <= k < a0.len() && #[trigger] a0[k].id@ == self.sessions@[i].account_id@;
                assert(a1[k].id@ == a0[k].id@);
            }
            assert forall|i: int| 0 <= i < self.threads@.len() implies id_taken(
                a1,
                (#[trigger] self.threads@[i]).created_by@,
            ) by {
                assert(old(self).threads_wf());
                assert(id_taken(a0, self.threads@[i].created_by@));
                let k = choose|k: int|
                    0 <= k < a0.len() && #[trigger] a0[k].id@ == self.threads@[i].created_by@;
                assert(a1[k].id@ == a0[k].id@);
            }
        }
        Ok(())
    }

    /// Posts a thread under the bearer session: resolves the token to
    /// its account (a missing or expired session is answered with
    /// `AccountNotFound` before any write) and persists the thread
    /// with that account as its author and `now_ms` as its creation
    /// instant.
    pub fn post_thread(&mut self, sid: &str, title: &str, body: &str, now_ms: u64) -> (r: Result<
        u64,
        AccountError,
    >)
        requires
            old(self).wf(),
        ensures
            final(self).wf(),
            final(self).accounts@ == old(self).accounts@,
            final(self).sessions@ == old(self).sessions@,
            final(self).kdf_rounds == old(self).kdf_rounds,
            r is Err ==> final(self).threads@ == old(self).threads@ && final(self).next_thread_id
                == old(self).next_thread_id,
            !live_session_match(old(self).sessions@, sid@, now_ms) ==> (r matches Err(e)
                && e matches AccountError::AccountNotFound(v) && v@ == sid@),
            live_session_match(old(self).sessions@, sid@, now_ms) && title@.len() > 0
                && body@.len() > 0 && old(self).next_thread_id < u64::MAX ==> r is Ok,
            r matches Ok(id) ==> {
                &&& live_session_match(old(self).sessions@, sid@, now_ms)
                &&& id == old(self).next_thread_id
                &&& final(self).next_thread_id == old(self).next_thread_id + 1
                &&& final(self).threads@.len() == old(self).threads@.len() + 1
                &&& forall|k: int|
                    0 <= k < old(self).threads@.len() ==> final(self).threads@[k] == old(
                        self,
                    ).threads@[k]
                &&& final(self).threads@.last().id == old(self).next_thread_id
                &&& final(self).threads@.last().title@ == title@
                &&& final(self).threads@.last().body@ == body@
                &&& final(self).threads@.last().created_on == now_ms
                &&& exists|i: int, j: int|
                    {
                        &&& 0 <= i < old(self).sessions@.len()
                        &&& (#[trigger] old(self).sessions@[i]).session_id@ == sid@
                        &&& now_ms < old(self).sessions@[i].expires_at
                        &&& 0 <= j < old(self).accounts@.len()
                        &&& (#[trigger] old(self).accounts@[j]).id@ == old(
                            self,
                        ).sessions@[i].account_id@
                        &&& final(self).threads@.last().created_by@ == old(
                            self,
                        ).accounts@[j].id@
                    }
            },
    {
        let author = match self.find_by_session(sid, now_ms) {
            Err(e) => {
                return Err(e);
            },
            Ok(a) => a,
        };
        proof {
            let (wi, wj) = choose|wi: int, wj: int|
                {
                    &&& 0 <= wi < self.sessions@.len()
                    &&& (#[trigger] self.sessions@[wi]).session_id@ == sid@
                    &&& now_ms < self.sessions@[wi].expires_at
                    &&& 0 <= wj < self.accounts@.len()
                    &&& author == #[trigger] self.accounts@[wj]
                    &&& author.id@ == self.sessions@[wi].account_id@
                };
            assert(self.accounts@[wj].id@ == author.id@);
            assert(id_taken(self.accounts@, author.id@));
        }
        self.create_thread(title, body, author.id.as_str(), now_ms)
    }
}

/// Whether some account in `accs` holds exactly `value` as its encoded
/// password hash.
pub open spec fn password_taken(accs: Seq<Account>, value: Seq<char>) -> bool {
    exists|i: int| 0 <= i < accs.len() && #[trigger] accs[i].password@ == value
}

/// Whether some account in `accs` holds the rank `rk`.
pub open spec fn rank_held(accs: Seq<Account>, rk: Rank) -> bool {
    exists|i: int| 0 <= i < accs.len() && #[trigger] accs[i].rank == rk
}

/// Whether some account other than the one at `t` holds `name` as its
/// username, up to case.
pub open spec fn username_taken_except(accs: Seq<Account>, name: Seq<char>, t: int) -> bool {
    exists|i: int|
        0 <= i < accs.len() && i != t && lower(#[trigger] accs[i].username@) == lower(name)
}

/// Whether some account other than the one at `t` holds `email` as its
/// email, up to case.
pub open spec fn email_taken_except(accs: Seq<Account>, email: Seq<char>, t: int) -> bool {
    exists|i: int|
        0 <= i < accs.len() && i != t && lower(#[trigger] accs[i].email@) == lower(email)
}

/// The index of the account holding exactly `id` as its id; meaningful
/// only where such an account exists.
pub open spec fn id_index(accs: Seq<Account>, id: Seq<char>) -> int {
    choose|i: int| 0 <= i < accs.len() && #[trigger] accs[i].id@ == id
}

/// How a field-scoped update changes one account row: the named column
/// takes `value` (decoded, for the rank column) and every other column
/// keeps its value. No update changes the id.
pub open spec fn field_updated(a0: Account, a1: Account, field: AccountField, value: Seq<
    char,
>) -> bool {
    &&& a1.id@ == a0.id@
    &&& a1.username@ == (if field == AccountField::Username {
        value
    } else {
        a0.username@
    })
    &&& a1.password@ == (if field == AccountField::Password {
        value
    } else {
        a0.password@
    })
    &&& a1.email@ == (if field == AccountField::Email {
        value
    } else {
        a0.email@
    })
    &&& (if field == AccountField::Role {
        Some(a1.rank) == Rank::spec_from_str(value)
    } else {
        a1.rank == a0.rank
    })
}

/// Whether `a` is the account that an authentication keyed on `method`
/// with key `key` selects, up to case.
pub open spec fn key_matches(a: Account, method: LoginMethod, key: Seq<char>) -> bool {
    match method {
        LoginMethod::Username => lower(a.username@) == lower(key),
        LoginMethod::Email => lower(a.email@) == lower(key),
    }
}

/// Whether some account in `accs` matches `key` under `method`.
pub open spec fn key_taken(accs: Seq<Account>, method: LoginMethod, key: Seq<char>) -> bool {
    exists|i: int| 0 <= i < accs.len() && key_matches(#[trigger] accs[i], method, key)
}

} // verus!
