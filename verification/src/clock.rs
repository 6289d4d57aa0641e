//! The wall clock. The readings depend on the machine and the moment, so
//! nothing is promised of them; every function of this library that uses a
//! reading takes it as a plain argument and is specified for every value.

use vstd::prelude::*;

verus! {

/// Relies on chrono's `Local::now` and `DateTime::timestamp`: the wall
/// clock, as seconds since the Unix epoch. Nothing is promised of the value.
#[verifier::external_body]
pub fn now_epoch_seconds() -> i64 {
    chrono::Local::now().timestamp()
}

/// Relies on chrono's `Local::now` and `DateTime::to_rfc3339`: the current
/// instant as RFC 3339 text in the machine's local offset. Nothing is
/// promised of the text.
#[verifier::external_body]
pub fn now_rfc3339() -> String {
    chrono::Local::now().to_rfc3339()
}

} // verus!
