//! Sessions: a live authenticated browser binding, referenced by an
//! opaque high-entropy token and valid until an absolute expiry instant.

use vstd::prelude::*;
use crate::clock::now_millis;
use crate::errors::AccountError;
use crate::store::{id_taken, session_id_taken, AccountConfig};
use crate::strutil::url_safe_char;
use crate::token::{generate_token, TOKEN_LEN};

verus! {

/// The fixed session lifetime: one week, in milliseconds.
pub const SESSION_LIFETIME_MS: u64 = 604800000;

/// A session record: an opaque token bound to an account, expiring at an
/// absolute instant (milliseconds since the Unix epoch).
#[derive(Debug)]
pub struct Session {
    pub session_id: String,
    pub account_id: String,
    pub expires_at: u64,
}

/// The cookie a session is returned under: name `sid`, the token as its
/// value, expiring with the session.
#[derive(Debug)]
pub struct SessionCookie {
    pub name: String,
    pub value: String,
    pub path: String,
    pub same_site_lax: bool,
    pub expires_at: u64,
    pub http_only: bool,
    pub secure: bool,
}

impl Session {
    /// A session token: 21 URL-safe characters.
    pub open spec fn token_wf(self) -> bool {
        &&& self.session_id@.len() == TOKEN_LEN
        &&& forall|i: int| 0 <= i < self.session_id@.len() ==> url_safe_char(self.session_id@[i])
    }

    /// Issues a session for the given account at the given instant: a
    /// fresh token, expiring exactly one lifetime later.
    pub fn issue(account_id: &str, now_ms: u64) -> (s: Session)
        requires
            now_ms + SESSION_LIFETIME_MS <= u64::MAX,
        ensures
            s.account_id@ == account_id@,
            s.expires_at == now_ms + SESSION_LIFETIME_MS,
            now_ms < s.expires_at,
            s.token_wf(),
    {
        Session {
            session_id: generate_token(),
            account_id: account_id.to_owned(),
            expires_at: now_ms + SESSION_LIFETIME_MS,
        }
    }

    /// Issues a session for the given account at the current instant;
    /// an instant too late for the expiry to be representable is capped.
    pub fn new(account_id: &str) -> (s: Session)
        ensures
            s.account_id@ == account_id@,
            s.token_wf(),
            SESSION_LIFETIME_MS <= s.expires_at,
    {
        let now = now_millis();
        let capped = if now > u64::MAX - SESSION_LIFETIME_MS {
            u64::MAX - SESSION_LIFETIME_MS
        } else {
            now
        };
        Session::issue(account_id, capped)
    }

    /// The cookie carrying this session: name `sid`, value the token,
    /// `SameSite=Lax`, rooted at `/`, expiring with the session. The
    /// `HttpOnly` and `Secure` flags are the deployment's choice.
    pub fn cookie(&self, http_only: bool, secure: bool) -> (c: SessionCookie)
        ensures
            c.name@ == "sid"@,
            c.value@ == self.session_id@,
            c.path@ == "/"@,
            c.same_site_lax,
            c.expires_at == self.expires_at,
            c.http_only == http_only,
            c.secure == secure,
    {
        SessionCookie {
            name: "sid".to_owned(),
            value: self.session_id.clone(),
            path: "/".to_owned(),
            same_site_lax: true,
            expires_at: self.expires_at,
            http_only,
            secure,
        }
    }

    /// Persists this session in the store; the session must reference
    /// an existing account and carry a fresh token.
    pub fn save(&self, cfg: &mut AccountConfig) -> (r: Result<(), AccountError>)
        requires
            old(cfg).wf(),
        ensures
            final(cfg).wf(),
            final(cfg).accounts@ == old(cfg).accounts@,
            final(cfg).threads@ == old(cfg).threads@,
            final(cfg).next_thread_id == old(cfg).next_thread_id,
            final(cfg).kdf_rounds == old(cfg).kdf_rounds,
            r is Ok <==> {
                &&& id_taken(old(cfg).accounts@, self.account_id@)
                &&& !session_id_taken(old(cfg).sessions@, self.session_id@)
            },
            r is Ok ==> final(cfg).sessions@ == old(cfg).sessions@.push(*self),
            r is Err ==> final(cfg).sessions@ == old(cfg).sessions@,
    {
        cfg.create_session(self.duplicate())
    }

    /// An owned copy of this session, equal to it field by field.
    pub fn duplicate(&self) -> (r: Session)
        ensures
            r == *self,
    {
        Session {
            session_id: self.session_id.clone(),
            account_id: self.account_id.clone(),
            expires_at: self.expires_at,
        }
    }
}

} // verus!
