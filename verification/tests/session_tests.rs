use blog_auth_core::errors::AccountError;
use blog_auth_core::rank::LoginMethod;
use blog_auth_core::session::{Session, SESSION_LIFETIME_MS};
use blog_auth_core::store::AccountConfig;

const ROUNDS: u32 = 1000;
const NOW: u64 = 1_700_000_000_000;

fn store_with_alice() -> AccountConfig {
    let mut cfg = AccountConfig::with_rounds(ROUNDS);
    cfg.register("alice", "hunter2", "a@ex.com").unwrap();
    cfg
}

#[test]
fn issued_session_expires_one_lifetime_later() {
    let s = Session::issue("1673919920888240800", NOW);
    assert_eq!(s.expires_at, NOW + SESSION_LIFETIME_MS);
    assert_eq!(s.expires_at - NOW, 604_800_000);
    assert!(s.expires_at > NOW);
    assert_eq!(s.account_id, "1673919920888240800");
}

#[test]
fn token_is_url_safe_and_long_enough() {
    let s = Session::new("some-account");
    assert_eq!(s.session_id.len(), 21);
    assert!(s
        .session_id
        .chars()
        .all(|c| c.is_ascii_alphanumeric() || c == '_' || c == '-'));
    let again = Session::new("some-account");
    // Two draws of a 126-bit token never collide in practice.
    assert_ne!(s.session_id, again.session_id);
}

#[test]
fn new_session_save_resolve_round_trip() {
    let mut cfg = store_with_alice();
    let session = cfg
        .auth(LoginMethod::Email, "a@ex.com", "hunter2", NOW)
        .unwrap();
    session.save(&mut cfg).unwrap();
    let resolved = cfg.find_by_session(&session.session_id, NOW + 1).unwrap();
    assert_eq!(*resolved.id(), session.account_id);
    assert_eq!(resolved.username(), "alice");
}

#[test]
fn expired_session_resolves_to_nothing() {
    let mut cfg = store_with_alice();
    let account_id = cfg.find_by_username("alice").unwrap().id().clone();
    let stale = Session {
        session_id: "stale-token-0123456789".to_string(),
        account_id,
        expires_at: NOW - 1,
    };
    stale.save(&mut cfg).unwrap();
    let err = cfg.find_by_session("stale-token-0123456789", NOW).unwrap_err();
    assert!(matches!(err, AccountError::AccountNotFound(v) if v == "stale-token-0123456789"));
}

#[test]
fn session_live_until_its_expiry_instant() {
    let mut cfg = store_with_alice();
    let account_id = cfg.find_by_username("alice").unwrap().id().clone();
    let s = Session {
        session_id: "edge-token-0123456789".to_string(),
        account_id,
        expires_at: NOW,
    };
    s.save(&mut cfg).unwrap();
    // Strictly before the expiry the session resolves; at it, no more.
    assert!(cfg.find_by_session("edge-token-0123456789", NOW - 1).is_ok());
    assert!(cfg.find_by_session("edge-token-0123456789", NOW).is_err());
}

#[test]
fn save_refuses_unknown_account() {
    let mut cfg = store_with_alice();
    let orphan = Session {
        session_id: "orphan-token-012345678".to_string(),
        account_id: "no-such-account".to_string(),
        expires_at: NOW + 1,
    };
    let err = orphan.save(&mut cfg).unwrap_err();
    assert!(matches!(err, AccountError::InvalidFormat(_)));
    assert!(cfg.sessions.is_empty());
}

#[test]
fn save_refuses_duplicate_token() {
    let mut cfg = store_with_alice();
    let account_id = cfg.find_by_username("alice").unwrap().id().clone();
    let first = Session {
        session_id: "one-token-012345678901".to_string(),
        account_id: account_id.clone(),
        expires_at: NOW + 1,
    };
    first.save(&mut cfg).unwrap();
    let second = Session {
        session_id: "one-token-012345678901".to_string(),
        account_id,
        expires_at: NOW + 2,
    };
    let err = second.save(&mut cfg).unwrap_err();
    assert!(matches!(err, AccountError::InvalidFormat(_)));
    assert_eq!(cfg.sessions.len(), 1);
}

#[test]
fn cookie_carries_the_session() {
    let s = Session::issue("acct", NOW);
    let c = s.cookie(true, true);
    assert_eq!(c.name, "sid");
    assert_eq!(c.value, s.session_id);
    assert_eq!(c.path, "/");
    assert!(c.same_site_lax);
    assert_eq!(c.expires_at, s.expires_at);
    assert!(c.http_only);
    assert!(c.secure);
    let lax = s.cookie(false, false);
    assert!(!lax.http_only);
    assert!(!lax.secure);
}
