//! The one place the library asks for the time. Nothing can be promised of
//! a clock reading; every function that depends on one takes the reading
//! as an argument and is verified for all of them.

use vstd::prelude::*;

verus! {

/// Relies on chrono::Utc::now: the current wall-clock time as whole
/// seconds since the Unix epoch. No contract: callers must hold for every
/// reading.
#[verifier::external_body]
pub(crate) fn unix_time_now() -> i64 {
    chrono::Utc::now().timestamp()
}

} // verus!
