//! Opaque session tokens: URL-safe strings of 21 characters drawn from a
//! cryptographically secure generator.

use vstd::prelude::*;
use crate::strutil::url_safe_char;

verus! {

/// The length of a session token, giving over 126 bits of entropy over
/// the 64-character URL-safe alphabet.
pub const TOKEN_LEN: usize = 21;

/// Draws a fresh high-entropy session token.
///
/// Relies on `nanoid::format` with `nanoid::alphabet::SAFE` and
/// `nanoid::rngs::default`: the result has exactly the requested number
/// of characters, each taken from the URL-safe alphabet
/// `A-Za-z0-9_-`. Nothing else is promised: the token is random.
#[verifier::external_body]
pub fn generate_token() -> (t: String)
    ensures
        t@.len() == TOKEN_LEN,
        forall|i: int| 0 <= i < t@.len() ==> url_safe_char(t@[i]),
{
    nanoid::format(nanoid::rngs::default, &nanoid::alphabet::SAFE, TOKEN_LEN)
}

} // verus!
