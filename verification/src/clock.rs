//! Readings of the wall clock.

use vstd::prelude::*;

verus! {

/// Calls `chrono::Utc::now` and formats the instant with
/// `DateTime::format` as year, month, day, a hyphen, then hour, minute,
/// second and millisecond. The text depends on the clock, so nothing is
/// claimed of it. `Utc::now` panics if the system clock is set before the
/// Unix epoch.
#[verifier::external_body]
pub(crate) fn generate_uid() -> (uid: String) {
    chrono::Utc::now().format("%Y%m%d-%H%M%S%3f").to_string()
}

/// Calls `chrono::Utc::now` and `DateTime::timestamp_millis`: the current
/// time in milliseconds since the Unix epoch. The number depends on the
/// clock, so nothing is claimed of it. `Utc::now` panics if the system
/// clock is set before the Unix epoch.
#[verifier::external_body]
pub(crate) fn now_millis() -> (now: i64) {
    chrono::Utc::now().timestamp_millis()
}

} // verus!
