//! The wall clock, read through the outside world.

use vstd::prelude::*;

verus! {

/// Relies on chrono::Utc::now (and DateTime::timestamp) for the current
/// instant, as whole seconds since the Unix epoch. Nothing can be
/// promised of the value: callers must hold for every reading. The
/// outside call aborts on a system clock set before the epoch.
#[verifier::external_body]
pub(crate) fn now_utc_s() -> i64 {
    chrono::Utc::now().timestamp()
}

} // verus!
