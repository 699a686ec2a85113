//! The error vocabulary of the services, with the exact user-visible
//! message of each failure and the classification of the store's
//! discriminable error codes.

use vstd::prelude::*;
use vstd::string::StringExecFns;
use crate::account::Account;
use crate::strutil::str_eq;

verus! {

/// The failures the account, session and thread services surface.
#[derive(Debug, Clone, PartialEq)]
pub enum AccountError {
    /// Creation would duplicate a username declared unique.
    UsernameTaken(String),
    /// Creation would duplicate an email declared unique.
    EmailTaken(String),
    /// Any other persistence-layer failure, message forwarded verbatim.
    InvalidFormat(String),
    /// No account matches the supplied identifier.
    AccountNotFound(String),
    /// Credential verification failed for an existing account.
    WrongPassword,
}

/// The failures of the field-scoped account updates.
#[derive(Debug, Clone, PartialEq)]
pub enum Error {
    AccountNotFound(String),
    AccountExists(String),
    UsernameTaken(String),
    EmailTaken(String),
    IdNotMutable(String),
    WrongDataType(String, String),
    SessionNotFound,
}

impl AccountError {
    /// The user-visible message of this failure.
    pub fn message(&self) -> (r: String)
        ensures
            (match self {
                AccountError::UsernameTaken(u) => r@ == "The username "@ + u@ + " is taken."@,
                AccountError::EmailTaken(e) => r@ == "The email '"@ + e@ + "' is taken."@,
                AccountError::InvalidFormat(m) => r@ == m@,
                AccountError::AccountNotFound(d) => r@ == "Could not find account with the credential '"@
                    + d@ + "'"@,
                AccountError::WrongPassword => r@ == "The password you entered is incorrect."@,
            }),
    {
        match self {
            AccountError::UsernameTaken(u) => {
                let mut s = "The username ".to_owned();
                s.append(u.as_str());
                s.append(" is taken.");
                proof {
                    assert(s@ =~= "The username "@ + u@ + " is taken."@);
                }
                s
            },
            AccountError::EmailTaken(e) => {
                let mut s = "The email '".to_owned();
                s.append(e.as_str());
                s.append("' is taken.");
                proof {
                    assert(s@ =~= "The email '"@ + e@ + "' is taken."@);
                }
                s
            },
            AccountError::InvalidFormat(m) => m.clone(),
            AccountError::AccountNotFound(d) => {
                let mut s = "Could not find account with the credential '".to_owned();
                s.append(d.as_str());
                s.append("'");
                proof {
                    assert(s@ =~= "Could not find account with the credential '"@ + d@ + "'"@);
                }
                s
            },
            AccountError::WrongPassword => "The password you entered is incorrect.".to_owned(),
        }
    }

    /// Classifies a store failure by its discriminable code: the two
    /// unique-constraint codes name the taken username or email, and
    /// any other code carries the store's message verbatim.
    pub fn parse_db_error(code: &str, acc: &Account, message: String) -> (r: AccountError)
        ensures
            code@ == "42P10"@ ==> (r matches AccountError::UsernameTaken(u) && u@
                == acc.username@),
            code@ != "42P10"@ && code@ == "42P11"@ ==> (r matches AccountError::EmailTaken(e)
                && e@ == acc.email@),
            code@ != "42P10"@ && code@ != "42P11"@ ==> (r matches AccountError::InvalidFormat(m)
                && m@ == message@),
    {
        if str_eq(code, "42P10") {
            AccountError::UsernameTaken(acc.username().clone())
        } else if str_eq(code, "42P11") {
            AccountError::EmailTaken(acc.email().clone())
        } else {
            AccountError::InvalidFormat(message)
        }
    }
}

impl Error {
    /// The user-visible message of this failure.
    pub fn message(&self) -> (r: String)
        ensures
            (match self {
                Error::AccountNotFound(a) => r@ == "The account '"@ + a@ + "' was not found."@,
                Error::SessionNotFound => r@
                    == "Unable to locate the session of the cookie. Does it exist?"@,
                Error::AccountExists(a) => r@ == "This account '"@ + a@ + "' already exists"@,
                Error::UsernameTaken(u) => r@ == "The username '"@ + u@ + "' is already taken"@,
                Error::EmailTaken(e) => r@ == "The email '"@ + e@ + "' is already taken"@,
                Error::IdNotMutable(id) => r@ == "Id change is not permittable "@ + id@,
                Error::WrongDataType(need, given) => r@ == "Wrong datatype NEED("@ + need@
                    + ") != GIVEN("@ + given@ + ")"@,
            }),
    {
        match self {
            Error::AccountNotFound(a) => {
                let mut s = "The account '".to_owned();
                s.append(a.as_str());
                s.append("' was not found.");
                proof {
                    assert(s@ =~= "The account '"@ + a@ + "' was not found."@);
                }
                s
            },
            Error::SessionNotFound => "Unable to locate the session of the cookie. Does it exist?".to_owned(),
            Error::AccountExists(a) => {
                let mut s = "This account '".to_owned();
                s.append(a.as_str());
                s.append("' already exists");
                proof {
                    assert(s@ =~= "This account '"@ + a@ + "' already exists"@);
                }
                s
            },
            Error::UsernameTaken(u) => {
                let mut s = "The username '".to_owned();
                s.append(u.as_str());
                s.append("' is already taken");
                proof {
                    assert(s@ =~= "The username '"@ + u@ + "' is already taken"@);
                }
                s
            },
            Error::EmailTaken(e) => {
                let mut s = "The email '".to_owned();
                s.append(e.as_str());
                s.append("' is already taken");
                proof {
                    assert(s@ =~= "The email '"@ + e@ + "' is already taken"@);
                }
                s
            },
            Error::IdNotMutable(id) => {
                let mut s = "Id change is not permittable ".to_owned();
                s.append(id.as_str());
                proof {
                    assert(s@ =~= "Id change is not permittable "@ + id@);
                }
                s
            },
            Error::WrongDataType(need, given) => {
                let mut s = "Wrong datatype NEED(".to_owned();
                s.append(need.as_str());
                s.append(") != GIVEN(");
                s.append(given.as_str());
                s.append(")");
                proof {
                    assert(s@ =~= "Wrong datatype NEED("@ + need@ + ") != GIVEN("@ + given@
                        + ")"@);
                }
                s
            },
        }
    }
}

} // verus!
