//! Time as the debouncer sees it: instants and durations counted in clock ticks.

use vstd::prelude::*;

verus! {

/// A point in time: the number of ticks since the clock started.
#[derive(Clone, Copy, PartialEq, Eq, PartialOrd, Ord, Hash, Debug)]
pub struct Instant {
    ticks: u64,
}

/// A span of time, in ticks of the same clock.
#[derive(Clone, Copy, PartialEq, Eq, PartialOrd, Ord, Hash, Debug)]
pub struct Duration {
    ticks: u64,
}

impl View for Instant {
    type V = nat;

    closed spec fn view(&self) -> nat {
        self.ticks as nat
    }
}

impl View for Duration {
    type V = nat;

    closed spec fn view(&self) -> nat {
        self.ticks as nat
    }
}

impl Instant {
    /// The instant `ticks` ticks after the clock started.
    pub fn from_ticks(ticks: u64) -> (instant: Instant)
        ensures
            instant@ == ticks,
    {
        Instant { ticks }
    }

    /// The number of ticks since the clock started.
    pub fn ticks(&self) -> (ticks: u64)
        ensures
            ticks == self@,
    {
        self.ticks
    }

    /// Whether `self` lies at or after `start + span`.
    ///
    /// The sum is never formed, so no pair of arguments overflows.
    pub fn has_reached(&self, start: Instant, span: Duration) -> (reached: bool)
        ensures
            reached == (self@ >= start@ + span@),
    {
        self.ticks >= start.ticks && self.ticks - start.ticks >= span.ticks
    }
}

impl Duration {
    /// The span of `ticks` ticks.
    pub fn from_ticks(ticks: u64) -> (duration: Duration)
        ensures
            duration@ == ticks,
    {
        Duration { ticks }
    }

    /// The length of the span in ticks.
    pub fn ticks(&self) -> (ticks: u64)
        ensures
            ticks == self@,
    {
        self.ticks
    }
}

/// A clock that never runs backwards.
///
/// The debouncer reads the time through this trait only, so that any timer of the
/// embedding system can drive it, and a clock that is advanced by hand can test it.
pub trait Monotonic {
    /// The current time.
    fn now() -> Instant;
}

} // verus!
