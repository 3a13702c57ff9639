//! The wall clock.

use vstd::prelude::*;

verus! {

/// Calls `mongodb::bson::DateTime::now` and takes its `timestamp_millis`.
/// Nothing is claimed of the reading: two calls may return any two times.
#[verifier::external_body]
pub(crate) fn now_millis() -> (now: i64) {
    mongodb::bson::DateTime::now().timestamp_millis()
}

/// Calls `chrono::Utc::now` and takes its `timestamp`, the seconds since
/// the Unix epoch. Nothing is claimed of the reading. The call fails where
/// the system clock stands before 1970.
#[verifier::external_body]
pub(crate) fn now_seconds() -> (now: i64) {
    chrono::Utc::now().timestamp()
}

} // verus!
