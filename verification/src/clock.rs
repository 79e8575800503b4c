//! The wall clock. Nothing is stated of what it returns: each reading may be
//! any value, and the functions that read it say what holds for every value.

use vstd::prelude::*;

verus! {

/// Reads `chrono::Utc::now()` and returns its `timestamp()`: whole seconds
/// since the Unix epoch. Nothing is promised about the value.
#[verifier::external_body]
pub(crate) fn unix_time_seconds() -> (t: i64) {
    chrono::Utc::now().timestamp()
}

/// Reads `chrono::Utc::now()` and returns its `timestamp_millis()`:
/// milliseconds since the Unix epoch. Nothing is promised about the value.
#[verifier::external_body]
pub(crate) fn unix_time_millis() -> (t: i64) {
    chrono::Utc::now().timestamp_millis()
}

/// Reads `chrono::Utc::now()` once and returns its `timestamp()` and
/// `timestamp_subsec_nanos()`: whole seconds since the Unix epoch and the
/// nanoseconds past that second. Nothing is promised about the values.
#[verifier::external_body]
pub(crate) fn unix_time_precise() -> (t: (i64, u32)) {
    let now = chrono::Utc::now();
    (now.timestamp(), now.timestamp_subsec_nanos())
}

} // verus!
