//! The account record: a human principal with a unique username and
//! email, a salted password hash, and a rank.

use vstd::prelude::*;
use crate::clock::fresh_account_id;
use crate::hash::{kdf_hash, verifies, DEFAULT_KDF_ROUNDS};
use crate::rank::Rank;
use crate::strutil::spec_decimal;

verus! {

/// An account row: `(id, username, email, password, rank)`. The
/// `password` field holds the encoded output of the key-derivation
/// function; the plaintext never persists.
#[derive(Debug, Clone)]
pub struct Account {
    pub id: String,
    pub username: String,
    pub password: String,
    pub email: String,
    pub rank: Rank,
}

/// The two form fields of a login request.
#[derive(Debug)]
pub struct AccountLogin {
    pub email: String,
    pub password: String,
}

impl Account {
    /// Builds a fresh account: the password is hashed under a fresh
    /// salt at the interactive work factor, a time-based identifier is
    /// assigned, and the rank defaults to `Member`.
    pub fn new(username: &str, password: &str, email: &str) -> (r: Account)
        ensures
            r.username@ == username@,
            r.email@ == email@,
            r.rank == Rank::Member,
            verifies(password@, r.password@),
            exists|n: u64| r.id@ == spec_decimal(n as int),
    {
        Account::new_with_rounds(username, password, email, DEFAULT_KDF_ROUNDS)
    }

    /// As [`Account::new`], with the key-derivation work factor chosen
    /// by the caller.
    pub fn new_with_rounds(username: &str, password: &str, email: &str, rounds: u32) -> (r:
        Account)
        requires
            1 <= rounds,
        ensures
            r.username@ == username@,
            r.email@ == email@,
            r.rank == Rank::Member,
            verifies(password@, r.password@),
            exists|n: u64| r.id@ == spec_decimal(n as int),
    {
        Account {
            id: fresh_account_id(),
            username: username.to_owned(),
            password: kdf_hash(password, rounds),
            email: email.to_owned(),
            rank: Rank::Member,
        }
    }

    /// Decodes an account from the store's row shape
    /// `(id, username, email, password, rank)`; a row whose rank column
    /// holds an unknown encoding decodes to nothing.
    pub fn from_row(id: &str, username: &str, email: &str, password: &str, rank: &str) -> (r:
        Option<Account>)
        ensures
            r is Some <==> Rank::spec_from_str(rank@) is Some,
            r matches Some(a) ==> {
                &&& a.id@ == id@
                &&& a.username@ == username@
                &&& a.email@ == email@
                &&& a.password@ == password@
                &&& Some(a.rank) == Rank::spec_from_str(rank@)
            },
    {
        match Rank::from_str(rank) {
            Some(rk) => Some(
                Account {
                    id: id.to_owned(),
                    username: username.to_owned(),
                    password: password.to_owned(),
                    email: email.to_owned(),
                    rank: rk,
                },
            ),
            None => None,
        }
    }

    /// An owned copy of this account, equal to it field by field.
    pub fn duplicate(&self) -> (r: Account)
        ensures
            r == *self,
    {
        Account {
            id: self.id.clone(),
            username: self.username.clone(),
            password: self.password.clone(),
            email: self.email.clone(),
            rank: self.rank,
        }
    }

    /// Returns the id of the account.
    pub fn id(&self) -> (r: &String)
        ensures
            r == &self.id,
    {
        &self.id
    }

    /// Returns the username of the account.
    pub fn username(&self) -> (r: &String)
        ensures
            r == &self.username,
    {
        &self.username
    }

    /// Returns the encoded password hash of the account.
    pub fn password(&self) -> (r: &String)
        ensures
            r == &self.password,
    {
        &self.password
    }

    /// Returns the email of the account.
    pub fn email(&self) -> (r: &String)
        ensures
            r == &self.email,
    {
        &self.email
    }

    /// Returns the rank of the account.
    pub fn rank(&self) -> (r: &Rank)
        ensures
            r == &self.rank,
    {
        &self.rank
    }
}

} // verus!
