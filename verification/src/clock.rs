//! The wall clock, read through `chrono`.

use vstd::prelude::*;

verus! {

/// The current time in milliseconds since the Unix epoch.
///
/// Calls `chrono::Utc::now` and converts the instant with
/// `DateTime::timestamp_millis`. Nothing is claimed of the value: it is
/// whatever the system clock says, and two calls may go backwards. `Utc::now`
/// panics when the system clock is set before 1970.
#[verifier::external_body]
pub(crate) fn now_millis() -> (now: i64) {
    chrono::Utc::now().timestamp_millis()
}

} // verus!
