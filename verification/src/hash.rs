//! Password hashing: a salted key-derivation function behind trusted
//! wrappers, with verification modelled by the uninterpreted predicate
//! [`verifies`].
//!
//! A hash is a self-describing PHC string carrying the algorithm, its
//! parameters and the salt, so whether a password verifies against a hash
//! is a function of the password and the hash alone.

use vstd::prelude::*;
use pbkdf2::Pbkdf2;
use pbkdf2::password_hash::{PasswordHash, PasswordHasher, PasswordVerifier, SaltString};
use rand_core::OsRng;

verus! {

/// Whether re-deriving `pass` under the algorithm, parameters and salt
/// embedded in `hash` yields the key embedded in `hash`. This is what
/// `pbkdf2::Pbkdf2::verify_password` computes; it depends on its two
/// arguments alone.
pub uninterp spec fn verifies(pass: Seq<char>, hash: Seq<char>) -> bool;

/// The work factor used for interactive authentication, the number of
/// PBKDF2 rounds recommended for HMAC-SHA-256.
pub const DEFAULT_KDF_ROUNDS: u32 = 600000;

/// Derives a salted hash of `pass` with the given number of rounds.
///
/// Relies on `pbkdf2::Pbkdf2::hash_password_customized` with a fresh salt
/// from `password_hash::SaltString::generate`: the returned PHC string
/// embeds the salt and parameters, so re-verifying the same password
/// against it succeeds. With a freshly generated salt and a 32-byte
/// output length the call cannot fail.
#[verifier::external_body]
pub fn kdf_hash(pass: &str, rounds: u32) -> (h: String)
    requires
        1 <= rounds,
    ensures
        verifies(pass@, h@),
{
    let salt = SaltString::generate(&mut OsRng);
    let params = pbkdf2::Params { rounds, output_length: 32 };
    let hashed = Pbkdf2
        .hash_password_customized(pass.as_bytes(), None, None, params, &salt)
        .expect("key derivation with a fresh salt");
    hashed.to_string()
}

/// Checks `pass` against an encoded hash; a malformed hash verifies
/// nothing.
///
/// Relies on `pbkdf2::Pbkdf2::verify_password` (together with
/// `password_hash::PasswordHash::new` for parsing): it re-derives the key
/// from the embedded salt and parameters and compares in constant time,
/// a function of the password and the encoded hash alone.
#[verifier::external_body]
pub fn kdf_verify(pass: &str, hash: &str) -> (r: bool)
    ensures
        r == verifies(pass@, hash@),
{
    match PasswordHash::new(hash) {
        Ok(parsed) => Pbkdf2.verify_password(pass.as_bytes(), &parsed).is_ok(),
        Err(_) => false,
    }
}

} // verus!
