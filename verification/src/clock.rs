//! The wall clock.
use vstd::prelude::*;

verus! {

/// A moment in UTC: seconds since the Unix epoch, and the nanoseconds since that second began.
#[derive(Clone, Copy, PartialEq, Eq, Structural, Debug)]
pub struct Timestamp {
    pub secs: i64,
    pub nanos: u32,
}

impl Timestamp {
    /// What the wall clock can show: no moment before the epoch, and less than a second of
    /// nanoseconds.
    pub open spec fn is_reading(self) -> bool {
        0 <= self.secs && self.nanos < 1_000_000_000
    }
}

/// Reads the wall clock: `chrono::Utc::now`, taken apart by `DateTime::timestamp` and
/// `DateTime::timestamp_subsec_nanos`.
///
/// The contract claims only that the moment lies at or after the Unix epoch and that its
/// nanoseconds do not reach a full second; which moment it is, nothing here says. On a machine
/// whose clock is set before the epoch `Utc::now` panics instead of returning.
#[verifier::external_body]
pub(crate) fn utc_now() -> (now: Timestamp)
    ensures
        now.is_reading(),
{
    let now = chrono::Utc::now();
    Timestamp { secs: now.timestamp(), nanos: now.timestamp_subsec_nanos() }
}

} // verus!
