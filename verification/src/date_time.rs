//! The clock.

use vstd::prelude::*;

verus! {

/// Whether the clock can show this time: it counts from the Unix epoch, not
/// back from it.
pub open spec fn clock_time(seconds: i64) -> bool {
    seconds >= 0
}

/// `chrono`'s `Utc::now().timestamp()`: seconds since the Unix epoch. It is
/// whatever the machine's clock says; on one that says a time before the epoch
/// `chrono` stops rather than answer.
#[verifier::external_body]
pub fn now() -> (seconds: i64)
    ensures
        clock_time(seconds),
{
    chrono::Utc::now().timestamp()
}

} // verus!
