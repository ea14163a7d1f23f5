//! Points in time as the database stores them (UTC, without offset).

use vstd::prelude::*;

verus! {

/// Nanoseconds in one second.
pub const NANOS_PER_SECOND: u32 = 1_000_000_000;

/// A UTC date and time: whole seconds since the Unix epoch and the
/// nanoseconds within that second.
#[derive(Clone, Copy, Debug, PartialEq, Eq, Structural)]
pub struct Timestamp {
    pub secs: i64,
    pub nanos: u32,
}

impl Timestamp {
    /// A timestamp is well formed when its nanoseconds stay within one second.
    pub open spec fn wf(self) -> bool {
        self.nanos < NANOS_PER_SECOND
    }

    /// The instant in nanoseconds since the epoch.
    pub open spec fn total_nanos(self) -> int {
        self.secs * 1_000_000_000 + self.nanos
    }
}

/// Whether `later - earlier` is strictly longer than `secs` seconds.
pub fn elapsed_more_than(later: Timestamp, earlier: Timestamp, secs: i64) -> (r: bool)
    requires
        later.wf(),
        earlier.wf(),
        0 <= secs,
    ensures
        r == (later.total_nanos() - earlier.total_nanos() > secs * 1_000_000_000),
{
    let diff: i128 = (later.secs as i128 - earlier.secs as i128) * 1_000_000_000i128
        + (later.nanos as i128 - earlier.nanos as i128);
    let bound: i128 = secs as i128 * 1_000_000_000i128;
    diff > bound
}

} // verus!
