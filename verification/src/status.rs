//! The status report that the service hands out on request.

use std::time::{Duration, Instant};
use vstd::prelude::*;

verus! {

/// One sample of the process's condition: seconds since start, and the
/// load of processor, memory and disks in percent.
#[derive(Clone, Copy, Debug, PartialEq, Eq)]
pub struct StatusReport {
    pub uptime: u64,
    pub cpu: u64,
    pub ram: u64,
    pub disk: u64,
}

/// `std::time::Instant`, a reading of the monotonic clock. Nothing of what
/// a reading holds is visible to the proofs.
#[verifier::external_type_specification]
#[verifier::external_body]
pub struct ExInstant(std::time::Instant);

/// `std::time::Instant::now` reads the monotonic clock. Nothing is claimed
/// of the reading.
pub assume_specification[ Instant::now ]() -> (now: Instant)
;

/// `std::time::Instant::duration_since` gives the time that passed from
/// `earlier` to `later`, and no time at all where `earlier` is the later
/// of the two. Nothing is claimed of the result.
pub assume_specification[ Instant::duration_since ](later: &Instant, earlier: Instant) -> (elapsed:
    Duration)
;

/// `std::time::Duration::as_secs` gives the whole seconds of a duration.
/// Nothing is claimed of the result.
pub assume_specification[ Duration::as_secs ](elapsed: &Duration) -> (secs: u64)
;

/// The whole seconds that have passed on the monotonic clock since `start`.
pub fn get_uptime(start: Instant) -> (uptime: u64) {
    Instant::now().duration_since(start).as_secs()
}

/// Puts a status report together: the uptime is read off the clock, the
/// three loads are the caller's samples, in percent.
pub fn get_status(start: Instant, cpu: u64, ram: u64, disk: u64) -> (report: StatusReport)
    ensures
        report.cpu == cpu,
        report.ram == ram,
        report.disk == disk,
{
    StatusReport { uptime: get_uptime(start), cpu, ram, disk }
}

} // verus!
