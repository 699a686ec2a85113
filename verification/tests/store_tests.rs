use blog_auth_core::boundary::{authenticate_row, login_failure_status, status_label};
use blog_auth_core::errors::{AccountError, Error};
use blog_auth_core::rank::{AccountField, LoginMethod, Rank};
use blog_auth_core::store::AccountConfig;

const ROUNDS: u32 = 1000;
const NOW: u64 = 1_700_000_000_000;

fn store_with_alice() -> AccountConfig {
    let mut cfg = AccountConfig::with_rounds(ROUNDS);
    cfg.register("alice", "hunter2", "a@ex.com")
        .expect("registration on an empty store");
    cfg
}

#[test]
fn register_then_login() {
    let mut cfg = store_with_alice();
    let session = cfg
        .auth(LoginMethod::Email, "a@ex.com", "hunter2", NOW)
        .expect("login with the registered credentials");
    assert!(session.session_id.len() >= 21);
    let acc = cfg.find_by_email("a@ex.com").unwrap();
    assert_eq!(session.account_id, *acc.id());
}

#[test]
fn duplicate_email() {
    let mut cfg = store_with_alice();
    let err = cfg.register("bob", "pw", "a@ex.com").unwrap_err();
    assert!(matches!(err, AccountError::EmailTaken(_)));
    assert_eq!(err.message(), "The email 'a@ex.com' is taken.");
}

#[test]
fn duplicate_username_case_insensitive() {
    let mut cfg = store_with_alice();
    let err = cfg.register("ALICE", "pw", "other@ex.com").unwrap_err();
    assert!(matches!(err, AccountError::UsernameTaken(_)));
    assert_eq!(err.message(), "The username ALICE is taken.");
}

#[test]
fn wrong_password() {
    let cfg = store_with_alice();
    let err = cfg
        .auth(LoginMethod::Email, "a@ex.com", "wrong", NOW)
        .unwrap_err();
    assert!(matches!(err, AccountError::WrongPassword));
    assert_eq!(login_failure_status(&err), 401);
    assert_eq!(err.message(), "The password you entered is incorrect.");
}

#[test]
fn unknown_email() {
    let cfg = store_with_alice();
    let err = cfg
        .auth(LoginMethod::Email, "nobody@ex.com", "x", NOW)
        .unwrap_err();
    assert!(matches!(err, AccountError::AccountNotFound(_)));
    assert_eq!(login_failure_status(&err), 404);
    assert_eq!(
        err.message(),
        "Could not find account with the credential 'nobody@ex.com'"
    );
}

#[test]
fn login_by_username() {
    let cfg = store_with_alice();
    let session = cfg
        .auth(LoginMethod::Username, "Alice", "hunter2", NOW)
        .expect("username lookup is case-insensitive");
    let acc = cfg.find_by_username("alice").unwrap();
    assert_eq!(session.account_id, *acc.id());
}

#[test]
fn create_find_round_trip() {
    let mut cfg = store_with_alice();
    cfg.register("bob", "pw", "b@ex.com").unwrap();
    let by_name = cfg.find_by_username("Bob").unwrap();
    let by_email = cfg.find_by_email("B@EX.COM").unwrap();
    let by_id = cfg.find_by_id(by_name.id()).unwrap();
    assert_eq!(by_name.id(), by_email.id());
    assert_eq!(by_name.id(), by_id.id());
    assert_eq!(by_name.username(), "bob");
    assert_eq!(by_name.email(), "b@ex.com");
    assert_eq!(*by_name.rank(), Rank::Member);
}

#[test]
fn empty_fields_rejected() {
    let mut cfg = AccountConfig::with_rounds(ROUNDS);
    for (u, p, e) in [
        ("", "pw", "a@ex.com"),
        ("alice", "", "a@ex.com"),
        ("alice", "pw", ""),
    ] {
        let err = cfg.register(u, p, e).unwrap_err();
        assert!(matches!(err, AccountError::InvalidFormat(_)));
        assert_eq!(
            err.message(),
            "the username, password and email must not be empty"
        );
    }
    assert!(cfg.accounts.is_empty());
}

#[test]
fn find_dispatches_on_key_name() {
    let cfg = store_with_alice();
    assert!(cfg.find("username", "alice", NOW).is_ok());
    assert!(cfg.find("email", "a@ex.com", NOW).is_ok());
    let id = cfg.find_by_username("alice").unwrap().id().clone();
    assert!(cfg.find("id", &id, NOW).is_ok());
    let err = cfg.find("rank", "Member", NOW).unwrap_err();
    assert!(matches!(err, AccountError::AccountNotFound(v) if v == "Member"));
    let err = cfg.find("session", "no-such-token", NOW).unwrap_err();
    assert!(matches!(err, AccountError::AccountNotFound(_)));
}

#[test]
fn account_exists_by_each_field() {
    let cfg = store_with_alice();
    let acc = cfg.find_by_username("alice").unwrap();
    assert!(cfg.account_exists(AccountField::Id, acc.id()));
    assert!(cfg.account_exists(AccountField::Username, "ALICE"));
    assert!(cfg.account_exists(AccountField::Email, "a@ex.com"));
    assert!(cfg.account_exists(AccountField::Password, acc.password()));
    assert!(cfg.account_exists(AccountField::Role, "Member"));
    assert!(!cfg.account_exists(AccountField::Id, "0"));
    assert!(!cfg.account_exists(AccountField::Username, "bob"));
    assert!(!cfg.account_exists(AccountField::Role, "Owner"));
    assert!(!cfg.account_exists(AccountField::Role, "not a rank"));
}

#[test]
fn update_username() {
    let mut cfg = store_with_alice();
    let id = cfg.find_by_username("alice").unwrap().id().clone();
    cfg.update(&id, AccountField::Username, "alicia").unwrap();
    assert!(cfg.find_by_username("alice").is_err());
    let renamed = cfg.find_by_username("alicia").unwrap();
    assert_eq!(renamed.id(), &id);
    assert_eq!(renamed.email(), "a@ex.com");
}

#[test]
fn update_role() {
    let mut cfg = store_with_alice();
    let id = cfg.find_by_username("alice").unwrap().id().clone();
    cfg.update(&id, AccountField::Role, "Moderator").unwrap();
    assert_eq!(*cfg.find_by_id(&id).unwrap().rank(), Rank::Moderator);
}

#[test]
fn update_refuses_id_change() {
    let mut cfg = store_with_alice();
    let id = cfg.find_by_username("alice").unwrap().id().clone();
    let err = cfg.update(&id, AccountField::Id, "12345").unwrap_err();
    assert!(matches!(err, Error::IdNotMutable(_)));
    assert_eq!(err.message(), format!("Id change is not permittable {id}"));
}

#[test]
fn update_unknown_account() {
    let mut cfg = store_with_alice();
    let err = cfg
        .update("no-such-id", AccountField::Email, "x@ex.com")
        .unwrap_err();
    assert!(matches!(err, Error::AccountNotFound(_)));
    assert_eq!(
        err.message(),
        "The account 'no-such-id' was not found."
    );
}

#[test]
fn update_refuses_username_collision() {
    let mut cfg = store_with_alice();
    cfg.register("bob", "pw", "b@ex.com").unwrap();
    let bob_id = cfg.find_by_username("bob").unwrap().id().clone();
    let err = cfg
        .update(&bob_id, AccountField::Username, "Alice")
        .unwrap_err();
    assert!(matches!(err, Error::UsernameTaken(_)));
    assert_eq!(err.message(), "The username 'Alice' is already taken");
}

#[test]
fn update_refuses_email_collision() {
    let mut cfg = store_with_alice();
    cfg.register("bob", "pw", "b@ex.com").unwrap();
    let bob_id = cfg.find_by_username("bob").unwrap().id().clone();
    let err = cfg
        .update(&bob_id, AccountField::Email, "A@EX.COM")
        .unwrap_err();
    assert!(matches!(err, Error::EmailTaken(_)));
    assert_eq!(err.message(), "The email 'A@EX.COM' is already taken");
}

#[test]
fn update_refuses_undecodable_rank() {
    let mut cfg = store_with_alice();
    let id = cfg.find_by_username("alice").unwrap().id().clone();
    let err = cfg.update(&id, AccountField::Role, "7").unwrap_err();
    assert!(matches!(err, Error::WrongDataType(_, _)));
    assert_eq!(err.message(), "Wrong datatype NEED(Rank) != GIVEN(7)");
}

#[test]
fn authenticate_row_decides_like_the_service() {
    let cfg = store_with_alice();
    let acc = cfg.find_by_email("a@ex.com").unwrap();
    let session = authenticate_row(Some(&acc), "a@ex.com", "hunter2", NOW).unwrap();
    assert_eq!(session.account_id, *acc.id());
    let err = authenticate_row(Some(&acc), "a@ex.com", "wrong", NOW).unwrap_err();
    assert!(matches!(err, AccountError::WrongPassword));
    let err = authenticate_row(None, "nobody@ex.com", "x", NOW).unwrap_err();
    assert!(matches!(err, AccountError::AccountNotFound(v) if v == "nobody@ex.com"));
}

#[test]
fn login_form_carries_credentials() {
    let form = blog_auth_core::account::AccountLogin {
        email: "a@ex.com".to_string(),
        password: "hunter2".to_string(),
    };
    let cfg = store_with_alice();
    let session = cfg
        .auth(LoginMethod::Email, &form.email, &form.password, NOW)
        .unwrap();
    assert!(!session.session_id.is_empty());
}

#[test]
fn status_labels() {
    assert_eq!(status_label(true), "SUCCESS");
    assert_eq!(status_label(false), "FAILED");
}

#[test]
fn parse_db_error_codes() {
    let cfg = store_with_alice();
    let acc = cfg.find_by_username("alice").unwrap();
    let e = AccountError::parse_db_error("42P10", &acc, "m".to_string());
    assert!(matches!(e, AccountError::UsernameTaken(v) if v == "alice"));
    let e = AccountError::parse_db_error("42P11", &acc, "m".to_string());
    assert!(matches!(e, AccountError::EmailTaken(v) if v == "a@ex.com"));
    let e = AccountError::parse_db_error("42P12", &acc, "row is gone".to_string());
    assert!(matches!(e, AccountError::InvalidFormat(v) if v == "row is gone"));
    let e = AccountError::parse_db_error("23505", &acc, "store says no".to_string());
    assert!(matches!(e, AccountError::InvalidFormat(v) if v == "store says no"));
}
