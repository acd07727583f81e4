//! The wall clock, read through chrono.

use vstd::prelude::*;

verus! {

/// The current time in whole seconds since the Unix epoch, as chrono's
/// `Utc::now()` followed by `DateTime::timestamp()` gives it.
///
/// Nothing is claimed of the value: two calls may differ in any way. chrono
/// itself stops the program if the system clock is set before 1970.
#[verifier::external_body]
pub(crate) fn unix_time() -> (now: i64) {
    chrono::Utc::now().timestamp()
}

} // verus!
