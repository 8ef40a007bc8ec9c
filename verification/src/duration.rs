//! Lengths of time, to the nanosecond.

use vstd::prelude::*;

verus! {

/// A length of time.
#[derive(Clone, Copy, PartialEq, Eq, Structural, Debug)]
pub struct Duration {
    pub nanos: u128,
}

/// The nanoseconds of some seconds.
pub open spec fn nanos_of(secs: u64) -> nat {
    secs as nat * 1_000_000_000
}

impl Duration {
    /// A number of seconds.
    pub fn from_secs(secs: u64) -> (d: Duration)
        ensures
            d.nanos == nanos_of(secs),
    {
        Duration { nanos: secs as u128 * 1_000_000_000 }
    }

    /// A number of milliseconds.
    pub fn from_millis(millis: u64) -> (d: Duration)
        ensures
            d.nanos == millis * 1_000_000,
    {
        Duration { nanos: millis as u128 * 1_000_000 }
    }

    /// The whole seconds.
    pub fn whole_secs(self) -> (secs: u128)
        ensures
            secs == self.nanos / 1_000_000_000,
    {
        self.nanos / 1_000_000_000
    }

    /// The nanoseconds on top of the whole seconds.
    pub fn subsec_nanos(self) -> (nanos: u32)
        ensures
            nanos == self.nanos % 1_000_000_000,
    {
        (self.nanos % 1_000_000_000) as u32
    }
}

} // verus!
