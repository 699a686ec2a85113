//! The process clock behind trusted wrappers, and the time-based account
//! identifier built on it.
//!
//! Nothing is promised of what the clock returns: every caller states
//! what holds whatever instant came back.

use vstd::prelude::*;
use std::time::{SystemTime, UNIX_EPOCH};
use crate::strutil::{spec_decimal, u64_to_decimal};

verus! {

/// Milliseconds since the Unix epoch, as the clock reports them.
///
/// Relies on `std::time::SystemTime::now`; an instant before the epoch
/// or beyond `u64` milliseconds reads as zero rather than failing.
#[verifier::external_body]
pub fn now_millis() -> u64 {
    match SystemTime::now().duration_since(UNIX_EPOCH) {
        Ok(d) => u64::try_from(d.as_millis()).unwrap_or(0),
        Err(_) => 0,
    }
}

/// Nanoseconds since the Unix epoch, as the clock reports them.
///
/// Relies on `std::time::SystemTime::now`; an instant before the epoch
/// or beyond `u64` nanoseconds reads as zero rather than failing.
#[verifier::external_body]
pub fn now_nanos() -> u64 {
    match SystemTime::now().duration_since(UNIX_EPOCH) {
        Ok(d) => u64::try_from(d.as_nanos()).unwrap_or(0),
        Err(_) => 0,
    }
}

/// A fresh time-based account identifier: the decimal rendering of the
/// clock's nanoseconds. Two identifiers drawn in the same clock tick
/// collide; the store's uniqueness constraint is the safety net.
pub fn fresh_account_id() -> (r: String)
    ensures
        exists|n: u64| r@ == spec_decimal(n as int),
{
    let n = now_nanos();
    let r = u64_to_decimal(n);
    proof {
        assert(r@ == spec_decimal(n as int));
    }
    r
}

} // verus!
