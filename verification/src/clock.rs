//! The clock of the machine, read as time since the Unix epoch.

use std::time::{Duration, SystemTime};
use vstd::prelude::*;

verus! {

/// A point in time of `std`, carried through without looking inside.
#[verifier::external_type_specification]
#[verifier::external_body]
pub struct ExSystemTime(SystemTime);

/// A reading of the clock: the whole seconds since the Unix epoch, and the
/// nanoseconds into the running second.
#[derive(Clone, Copy, Debug, PartialEq, Eq, Structural)]
pub struct Reading {
    pub seconds: u64,
    pub nanos: u32,
}

impl Reading {
    /// Every reading of a clock lies less than a second past its whole
    /// seconds.
    pub open spec fn well_formed(&self) -> bool {
        self.nanos < 1_000_000_000
    }
}

/// Calls `std::time::SystemTime::now`. No two calls need agree.
#[verifier::external_body]
fn system_time_now() -> (now: SystemTime) {
    SystemTime::now()
}

/// Calls `std::time::SystemTime::duration_since` with the Unix epoch; there
/// is no duration where the time lies before the epoch.
#[verifier::external_body]
fn since_unix_epoch(time: &SystemTime) -> (elapsed: Option<Duration>) {
    time.duration_since(std::time::UNIX_EPOCH).ok()
}

/// Calls `std::time::Duration::as_secs`.
#[verifier::external_body]
fn whole_seconds(duration: &Duration) -> (seconds: u64) {
    duration.as_secs()
}

/// Calls `std::time::Duration::subsec_nanos`, which gives the part of the
/// duration that lies past its whole seconds, less than a billion
/// nanoseconds.
#[verifier::external_body]
fn subsec_nanos(duration: &Duration) -> (nanos: u32)
    ensures
        nanos < 1_000_000_000,
{
    duration.subsec_nanos()
}

/// Reads the clock as time since the Unix epoch; nothing where the clock
/// stands before the epoch.
pub fn unix_time_now() -> (reading: Option<Reading>)
    ensures
        reading matches Some(r) ==> r.well_formed(),
{
    let now = system_time_now();
    match since_unix_epoch(&now) {
        Some(elapsed) => Some(
            Reading { seconds: whole_seconds(&elapsed), nanos: subsec_nanos(&elapsed) },
        ),
        None => None,
    }
}

/// Reads the clock. A clock that stands before the Unix epoch reads as the
/// epoch itself, the earliest time that the ids of the gateway can hold.
pub fn read_clock() -> (reading: Reading)
    ensures
        reading.well_formed(),
{
    match unix_time_now() {
        Some(reading) => reading,
        None => Reading { seconds: 0, nanos: 0 },
    }
}

} // verus!
