use blog_auth_core::account::Account;
use blog_auth_core::hash::kdf_verify;
use blog_auth_core::rank::{AccountField, LoginMethod, Rank};
use blog_auth_core::strutil::{eq_ignore_case, str_eq, u64_to_decimal};

#[test]
fn new_account_with_rounds_fields() {
    let acc = Account::new_with_rounds("zeljko", "iloveyou", "zeljko@gmail.com", 1000);
    assert_eq!(acc.username(), "zeljko");
    assert_eq!(acc.email(), "zeljko@gmail.com");
    assert_eq!(*acc.rank(), Rank::Member);
    assert!(!acc.id().is_empty());
    assert!(acc.id().chars().all(|c| c.is_ascii_digit()));
    // The stored value is an encoded hash, never the plaintext.
    assert_ne!(acc.password(), "iloveyou");
}

#[test]
fn hash_then_verify_round_trip() {
    let acc = Account::new_with_rounds("zeljko", "iloveyou", "zeljko@gmail.com", 1000);
    assert!(kdf_verify("iloveyou", acc.password()));
}

#[test]
fn verify_rejects_other_password() {
    let acc = Account::new_with_rounds("zeljko", "iloveyou", "zeljko@gmail.com", 1000);
    assert!(!kdf_verify("idontloveyou", acc.password()));
    assert!(!kdf_verify("", acc.password()));
}

#[test]
fn verify_rejects_malformed_hash() {
    assert!(!kdf_verify("iloveyou", "not a PHC string"));
    assert!(!kdf_verify("iloveyou", ""));
}

#[test]
fn new_account_default_work_factor() {
    let acc = Account::new("alice", "hunter2", "a@ex.com");
    assert_eq!(acc.username(), "alice");
    assert_eq!(acc.email(), "a@ex.com");
    assert_eq!(*acc.rank(), Rank::Member);
    // The default work factor is embedded in the encoded parameters.
    assert!(acc.password().contains("i=600000"));
}

#[test]
fn from_row_round_trips_fields() {
    let acc = Account::from_row("17", "zeljko", "z@ex.com", "$pbkdf2-sha256$...", "Admin")
        .expect("well-formed row");
    assert_eq!(acc.id(), "17");
    assert_eq!(acc.username(), "zeljko");
    assert_eq!(acc.email(), "z@ex.com");
    assert_eq!(acc.password(), "$pbkdf2-sha256$...");
    assert_eq!(*acc.rank(), Rank::Admin);
}

#[test]
fn from_row_rejects_unknown_rank() {
    assert!(Account::from_row("17", "zeljko", "z@ex.com", "h", "Sultan").is_none());
}

#[test]
fn rank_round_trips_all_five_values() {
    let ranks = [
        Rank::Unranked,
        Rank::Member,
        Rank::Moderator,
        Rank::Admin,
        Rank::Owner,
    ];
    for r in ranks {
        assert_eq!(Rank::from_str(r.as_str()), Some(r));
    }
}

#[test]
fn rank_encodings() {
    assert_eq!(Rank::Unranked.as_str(), "None");
    assert_eq!(Rank::Member.as_str(), "Member");
    assert_eq!(Rank::Moderator.as_str(), "Moderator");
    assert_eq!(Rank::Admin.as_str(), "Admin");
    assert_eq!(Rank::Owner.as_str(), "Owner");
    assert_eq!(Rank::from_str("member"), None);
    assert_eq!(Rank::from_str(""), None);
}

#[test]
fn login_method_and_field_names() {
    assert_eq!(LoginMethod::Username.as_str(), "Username");
    assert_eq!(LoginMethod::Email.as_str(), "Email");
    assert_eq!(AccountField::Id.as_str(), "Id");
    assert_eq!(AccountField::Username.as_str(), "Username");
    assert_eq!(AccountField::Password.as_str(), "Password");
    assert_eq!(AccountField::Email.as_str(), "Email");
    assert_eq!(AccountField::Role.as_str(), "Role");
}

#[test]
fn decimal_rendering() {
    assert_eq!(u64_to_decimal(0), "0");
    assert_eq!(u64_to_decimal(7), "7");
    assert_eq!(u64_to_decimal(42), "42");
    assert_eq!(u64_to_decimal(1673919920888240800), "1673919920888240800");
    assert_eq!(u64_to_decimal(u64::MAX), "18446744073709551615");
}

#[test]
fn case_insensitive_equality() {
    assert!(eq_ignore_case("Alice", "alice"));
    assert!(eq_ignore_case("ALICE", "alice"));
    assert!(eq_ignore_case("", ""));
    assert!(!eq_ignore_case("Alice", "Alicia"));
    assert!(!eq_ignore_case("Alice", "Alice "));
    assert!(str_eq("same", "same"));
    assert!(!str_eq("same", "Same"));
}

#[test]
fn duplicate_copies_every_field() {
    let acc = Account::from_row("1", "a", "a@ex.com", "h", "Owner").unwrap();
    let copy = acc.duplicate();
    assert_eq!(copy.id(), acc.id());
    assert_eq!(copy.username(), acc.username());
    assert_eq!(copy.email(), acc.email());
    assert_eq!(copy.password(), acc.password());
    assert_eq!(*copy.rank(), *acc.rank());
}
