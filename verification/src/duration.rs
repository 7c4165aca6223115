//! Whole spans of time as seconds and nanoseconds.

use vstd::prelude::*;

verus! {

/// Nanoseconds in a second.
pub const NANOS_PER_SECOND: u32 = 1_000_000_000;

/// A span of time: whole seconds and the nanoseconds of the last, partial one.
#[derive(Clone, Copy, Debug, PartialEq, Eq, Structural)]
pub struct Duration {
    pub seconds: u64,
    pub nanos: u32,
}

impl Duration {
    /// The nanoseconds stay below one second.
    pub open spec fn wf(self) -> bool {
        self.nanos < NANOS_PER_SECOND
    }

    /// The whole span in nanoseconds.
    pub open spec fn total_nanos(self) -> int {
        self.seconds * 1_000_000_000 + self.nanos
    }

    /// The whole milliseconds of the span.
    pub open spec fn total_millis(self) -> int {
        self.seconds * 1_000 + self.nanos as int / 1_000_000
    }

    /// A span of whole seconds.
    pub fn from_secs(seconds: u64) -> (r: Self)
        ensures
            r == (Duration { seconds, nanos: 0 }),
            r.wf(),
    {
        Duration { seconds, nanos: 0 }
    }

    /// A span of whole milliseconds.
    pub fn from_millis(millis: u64) -> (r: Self)
        ensures
            r.wf(),
            r.total_nanos() == millis * 1_000_000,
            r.total_millis() == millis,
    {
        Duration { seconds: millis / 1_000, nanos: ((millis % 1_000) * 1_000_000) as u32 }
    }

    /// Whether a span is empty.
    pub fn is_zero(self) -> (r: bool)
        ensures
            r == (self.seconds == 0 && self.nanos == 0),
    {
        self.seconds == 0 && self.nanos == 0
    }

    /// The whole milliseconds; a partial one is cut off.
    pub fn as_millis(self) -> (r: u128)
        ensures
            r == self.total_millis(),
    {
        self.seconds as u128 * 1_000 + (self.nanos / 1_000_000) as u128
    }
}

} // verus!
