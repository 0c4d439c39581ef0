//! Points in time, as the UNIX timestamps that `chrono` gives.

use vstd::prelude::*;

use chrono::Utc;

verus! {

/// A point in time: seconds since the UNIX epoch, and nanoseconds past that
/// second (over 999,999,999 only within a leap second, as in `chrono`).
#[derive(Debug, Clone, Copy, PartialEq, Eq, Structural)]
pub struct Timestamp {
    pub secs: i64,
    pub nanos: u32,
}

/// Calls `chrono::Utc::now` and reads its UNIX seconds and sub-second
/// nanoseconds. Nothing is stated of the result: it is the clock's reading.
#[verifier::external_body]
pub fn utc_now() -> Timestamp {
    let now = Utc::now();
    Timestamp { secs: now.timestamp(), nanos: now.timestamp_subsec_nanos() }
}

} // verus!
