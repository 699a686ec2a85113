//! The decisions of the request boundary: how a fetched account row is
//! authenticated, which HTTP status a login failure maps to, and the
//! status label of a registration response. The boundary itself — HTTP
//! parsing, cookies, JSON — stays outside the library and hands these
//! functions plain values.

use vstd::prelude::*;
use crate::account::Account;
use crate::errors::AccountError;
use crate::hash::{kdf_verify, verifies};
use crate::session::{Session, SESSION_LIFETIME_MS};

verus! {

/// Authenticates against the account row a lookup returned: no row is
/// answered with `AccountNotFound` carrying the key, a failed
/// verification with `WrongPassword`, and a successful one with a
/// fresh, not yet persisted session bound to the row's id.
pub fn authenticate_row(found: Option<&Account>, key: &str, pass: &str, now_ms: u64) -> (r: Result<
    Session,
    AccountError,
>)
    requires
        now_ms + SESSION_LIFETIME_MS <= u64::MAX,
    ensures
        found is None ==> (r matches Err(e) && e matches AccountError::AccountNotFound(v) && v@
            == key@),
        found matches Some(a) ==> {
            &&& (r is Ok <==> verifies(pass@, a.password@))
            &&& (!verifies(pass@, a.password@) ==> (r matches Err(e) && e matches
                AccountError::WrongPassword))
            &&& (r matches Ok(s) ==> {
                &&& s.account_id@ == a.id@
                &&& s.expires_at == now_ms + SESSION_LIFETIME_MS
                &&& now_ms < s.expires_at
                &&& s.token_wf()
            })
        },
{
    match found {
        None => Err(AccountError::AccountNotFound(key.to_owned())),
        Some(a) => {
            if kdf_verify(pass, a.password.as_str()) {
                Ok(Session::issue(a.id.as_str(), now_ms))
            } else {
                Err(AccountError::WrongPassword)
            }
        },
    }
}

/// The HTTP status a failed login maps to: an unknown account is `404`,
/// a wrong password `401`, and any other failure `500`.
pub fn login_failure_status(e: &AccountError) -> (r: u16)
    ensures
        e matches AccountError::AccountNotFound(_) ==> r == 404,
        e matches AccountError::WrongPassword ==> r == 401,
        !(e matches AccountError::AccountNotFound(_)) && !(e matches AccountError::WrongPassword)
            ==> r == 500,
{
    match e {
        AccountError::AccountNotFound(_) => 404,
        AccountError::WrongPassword => 401,
        _ => 500,
    }
}

/// The status label of a registration response body.
pub fn status_label(ok: bool) -> (r: &'static str)
    ensures
        ok ==> r@ == "SUCCESS"@,
        !ok ==> r@ == "FAILED"@,
{
    if ok {
        "SUCCESS"
    } else {
        "FAILED"
    }
}

} // verus!
