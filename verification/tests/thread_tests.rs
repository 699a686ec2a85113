use blog_auth_core::errors::AccountError;
use blog_auth_core::rank::LoginMethod;
use blog_auth_core::store::AccountConfig;
use blog_auth_core::threads::Thread;

const ROUNDS: u32 = 1000;
const NOW: u64 = 1_700_000_000_000;

fn logged_in_store() -> (AccountConfig, String) {
    let mut cfg = AccountConfig::with_rounds(ROUNDS);
    cfg.register("alice", "hunter2", "a@ex.com").unwrap();
    let session = cfg
        .auth(LoginMethod::Email, "a@ex.com", "hunter2", NOW)
        .unwrap();
    session.save(&mut cfg).unwrap();
    (cfg, session.session_id)
}

#[test]
fn authored_thread() {
    let (mut cfg, sid) = logged_in_store();
    let id = cfg.post_thread(&sid, "Hello", "World", NOW + 1).unwrap();
    assert_eq!(id, 1);
    let alice_id = cfg.find_by_username("alice").unwrap().id().clone();
    let row = &cfg.threads[0];
    assert_eq!(row.id, 1);
    assert_eq!(row.title(), "Hello");
    assert_eq!(row.body(), "World");
    assert_eq!(*row.created_by(), alice_id);
    assert_eq!(row.created_on(), NOW + 1);
}

#[test]
fn expired_session_cannot_post() {
    let (mut cfg, sid) = logged_in_store();
    let past_expiry = cfg.sessions[0].expires_at;
    let err = cfg
        .post_thread(&sid, "Hello", "World", past_expiry)
        .unwrap_err();
    assert!(matches!(err, AccountError::AccountNotFound(v) if v == sid));
    assert!(cfg.threads.is_empty());
}

#[test]
fn unknown_session_cannot_post() {
    let (mut cfg, _sid) = logged_in_store();
    let err = cfg
        .post_thread("forged-token-01234567", "Hello", "World", NOW)
        .unwrap_err();
    assert!(matches!(err, AccountError::AccountNotFound(_)));
    assert!(cfg.threads.is_empty());
}

#[test]
fn empty_title_or_body_rejected() {
    let (mut cfg, sid) = logged_in_store();
    let err = cfg.post_thread(&sid, "", "World", NOW).unwrap_err();
    assert!(matches!(err, AccountError::InvalidFormat(_)));
    let err = cfg.post_thread(&sid, "Hello", "", NOW).unwrap_err();
    assert!(matches!(err, AccountError::InvalidFormat(_)));
    assert!(cfg.threads.is_empty());
}

#[test]
fn thread_ids_increment() {
    let (mut cfg, sid) = logged_in_store();
    assert_eq!(cfg.post_thread(&sid, "First", "post", NOW).unwrap(), 1);
    assert_eq!(cfg.post_thread(&sid, "Second", "post", NOW).unwrap(), 2);
    assert_eq!(cfg.post_thread(&sid, "Third", "post", NOW).unwrap(), 3);
    assert_eq!(cfg.next_thread_id, 4);
}

#[test]
fn thread_manager_saves_through_the_store() {
    let (mut cfg, _sid) = logged_in_store();
    let alice_id = cfg.find_by_username("alice").unwrap().id().clone();
    let manager = Thread::with_timestamp("Title", "Body", &alice_id, NOW);
    let id = manager.save(&mut cfg).unwrap();
    assert_eq!(id, 1);
    assert_eq!(cfg.threads.len(), 1);
}

#[test]
fn thread_save_refuses_unknown_author() {
    let mut cfg = AccountConfig::with_rounds(ROUNDS);
    cfg.register("alice", "hunter2", "a@ex.com").unwrap();
    let manager = Thread::with_timestamp("Title", "Body", "no-such-account", NOW);
    let err = manager.save(&mut cfg).unwrap_err();
    assert!(matches!(err, AccountError::InvalidFormat(_)));
    assert!(cfg.threads.is_empty());
}

#[test]
fn thread_getters_return_their_fields() {
    let manager = Thread::new("Hello", "World", "author-1");
    let t = &manager.thread;
    assert_eq!(t.title(), "Hello");
    assert_eq!(t.body(), "World");
    assert_eq!(*t.created_by(), "author-1");
    assert_eq!(t.id, 0);
    let copy = t.duplicate();
    assert_eq!(copy.created_on(), t.created_on());
}
