//! The account rank, the login-key selector, and the account column names,
//! with the textual encodings under which the store carries them.

use vstd::prelude::*;
use crate::strutil::str_eq;

verus! {

/// Authorization tier attached to an account, ordered from lowest to
/// highest. Newly created accounts default to `Member`.
#[derive(Clone, Copy, PartialEq, Eq, Structural, Debug)]
pub enum Rank {
    Unranked,
    Member,
    Moderator,
    Admin,
    Owner,
}

/// Which account column an authentication attempt keys on.
#[derive(Clone, Copy, PartialEq, Eq, Structural, Debug)]
pub enum LoginMethod {
    Username,
    Email,
}

/// The columns of an account row that field-scoped updates may name.
#[derive(Clone, Copy, PartialEq, Eq, Structural, Debug)]
pub enum AccountField {
    Id,
    Username,
    Password,
    Email,
    Role,
}

impl Rank {
    /// The textual encoding of this rank in the store.
    pub open spec fn spec_as_str(self) -> Seq<char> {
        match self {
            Rank::Unranked => "None"@,
            Rank::Member => "Member"@,
            Rank::Moderator => "Moderator"@,
            Rank::Admin => "Admin"@,
            Rank::Owner => "Owner"@,
        }
    }

    /// Decoding of the store's textual encoding back to a rank.
    pub open spec fn spec_from_str(s: Seq<char>) -> Option<Rank> {
        if s == "None"@ {
            Some(Rank::Unranked)
        } else if s == "Member"@ {
            Some(Rank::Member)
        } else if s == "Moderator"@ {
            Some(Rank::Moderator)
        } else if s == "Admin"@ {
            Some(Rank::Admin)
        } else if s == "Owner"@ {
            Some(Rank::Owner)
        } else {
            None
        }
    }

    /// Encodes this rank for the store.
    pub fn as_str(self) -> (r: &'static str)
        ensures
            r@ == self.spec_as_str(),
    {
        match self {
            Rank::Unranked => "None",
            Rank::Member => "Member",
            Rank::Moderator => "Moderator",
            Rank::Admin => "Admin",
            Rank::Owner => "Owner",
        }
    }

    /// Decodes the store's encoding of a rank; unknown strings decode to
    /// nothing.
    pub fn from_str(s: &str) -> (r: Option<Rank>)
        ensures
            r == Rank::spec_from_str(s@),
    {
        if str_eq(s, "None") {
            Some(Rank::Unranked)
        } else if str_eq(s, "Member") {
            Some(Rank::Member)
        } else if str_eq(s, "Moderator") {
            Some(Rank::Moderator)
        } else if str_eq(s, "Admin") {
            Some(Rank::Admin)
        } else if str_eq(s, "Owner") {
            Some(Rank::Owner)
        } else {
            None
        }
    }
}

impl Default for Rank {
    /// Newly created accounts default to `Member`.
    fn default() -> (r: Rank)
        ensures
            r == Rank::Member,
    {
        Rank::Member
    }
}

/// Decoding the store's encoding of a rank returns exactly the rank that
/// was encoded, for each of the five ranks.
pub proof fn lemma_rank_round_trip(r: Rank)
    ensures
        Rank::spec_from_str(r.spec_as_str()) == Some(r),
{
    reveal_strlit("None");
    reveal_strlit("Member");
    reveal_strlit("Moderator");
    reveal_strlit("Admin");
    reveal_strlit("Owner");
    assert(("None"@).len() == 4);
    assert(("Member"@).len() == 6);
    assert(("Moderator"@).len() == 9);
    assert(("Admin"@).len() == 5);
    assert(("Owner"@).len() == 5);
    assert(("Owner"@)[0] == 'O');
    assert(("Admin"@)[0] == 'A');
}

impl LoginMethod {
    /// The column name this method keys on, as the lookup names it.
    pub open spec fn spec_as_str(self) -> Seq<char> {
        match self {
            LoginMethod::Username => "Username"@,
            LoginMethod::Email => "Email"@,
        }
    }

    /// The column name this method keys on.
    pub fn as_str(self) -> (r: &'static str)
        ensures
            r@ == self.spec_as_str(),
    {
        match self {
            LoginMethod::Username => "Username",
            LoginMethod::Email => "Email",
        }
    }
}

impl AccountField {
    /// The column name of this field.
    pub open spec fn spec_as_str(self) -> Seq<char> {
        match self {
            AccountField::Id => "Id"@,
            AccountField::Username => "Username"@,
            AccountField::Password => "Password"@,
            AccountField::Email => "Email"@,
            AccountField::Role => "Role"@,
        }
    }

    /// The column name of this field.
    pub fn as_str(self) -> (r: &'static str)
        ensures
            r@ == self.spec_as_str(),
    {
        match self {
            AccountField::Id => "Id",
            AccountField::Username => "Username",
            AccountField::Password => "Password",
            AccountField::Email => "Email",
            AccountField::Role => "Role",
        }
    }
}

} // verus!
