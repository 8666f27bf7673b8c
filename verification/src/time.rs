//! Time-related traits and a verified instant type.

use vstd::prelude::*;

verus! {

/// A specific instant in time.
///
/// Algorithms which use time, commonly to implement timeouts, define time
/// through this trait. Each implementation fixes, as specification
/// functions, what it means to move an instant forward by a number of
/// seconds and what it means for one instant to lie before another; the
/// executable operations are bound to those meanings.
pub trait Time: Sized + Copy {
    /// The instant that lies the given number of seconds after this one.
    spec fn spec_plus_seconds(self, seconds: u64) -> Self;

    /// Whether this instant lies strictly before the other.
    spec fn spec_before(self, other: Self) -> bool;

    /// Returns the instant the given number of seconds after this one.
    fn plus_seconds(&self, seconds: u64) -> (r: Self)
        ensures
            r == self.spec_plus_seconds(seconds),
    ;

    /// Returns whether this instant lies strictly after the other.
    fn is_after(&self, other: &Self) -> (r: bool)
        ensures
            r == other.spec_before(*self),
    ;
}

/// A factory for getting the current time.
///
/// Algorithms which need the current time (for example, to determine whether
/// a timeout has expired) receive it from a time source. What `now` returns
/// is up to the implementation; the algorithms' contracts hold for every
/// value it may produce.
pub trait TimeSource {
    /// The type of instants this source produces.
    type Time: Time;

    /// Returns the current time.
    fn now(&self) -> Self::Time;
}

/// An instant measured in milliseconds from some fixed origin.
///
/// Adding seconds saturates at the largest representable instant instead of
/// wrapping around, so later instants never compare before earlier ones.
#[derive(Clone, Copy, Debug, PartialEq, Eq, Structural)]
pub struct TimePoint {
    /// Milliseconds since the origin.
    pub millis: u64,
}

/// The instant `millis + seconds * 1000` milliseconds from the origin,
/// saturated at the largest representable value.
pub open spec fn plus_seconds_millis(millis: u64, seconds: u64) -> u64 {
    if millis + seconds * 1000 > u64::MAX {
        u64::MAX
    } else {
        (millis + seconds * 1000) as u64
    }
}

impl TimePoint {
    /// Builds the instant lying the given number of milliseconds from the
    /// origin.
    pub fn from_millis(millis: u64) -> (r: Self)
        ensures
            r.millis == millis,
    {
        TimePoint { millis }
    }
}

impl Time for TimePoint {
    open spec fn spec_plus_seconds(self, seconds: u64) -> Self {
        TimePoint { millis: plus_seconds_millis(self.millis, seconds) }
    }

    open spec fn spec_before(self, other: Self) -> bool {
        self.millis < other.millis
    }

    fn plus_seconds(&self, seconds: u64) -> (r: Self)
        ensures
            r == self.spec_plus_seconds(seconds),
    {
        let offset = match seconds.checked_mul(1000) {
            Some(ms) => ms,
            None => u64::MAX,
        };
        TimePoint { millis: self.millis.saturating_add(offset) }
    }

    fn is_after(&self, other: &Self) -> (r: bool)
        ensures
            r == other.spec_before(*self),
    {
        self.millis > other.millis
    }
}

/// A time source that always reports the same instant.
///
/// It serves embedders that drive the engine from a simulated clock, most
/// prominently tests: the reported instant is chosen when the source is
/// built, so every timeout decision of the engine becomes reproducible.
#[derive(Clone, Copy, Debug, PartialEq, Eq, Structural)]
pub struct FixedTimeSource {
    /// The instant that `now` reports.
    pub time: TimePoint,
}

impl FixedTimeSource {
    /// Builds a source that reports the given instant.
    pub fn at(time: TimePoint) -> (r: Self)
        ensures
            r.time == time,
    {
        FixedTimeSource { time }
    }
}

impl TimeSource for FixedTimeSource {
    type Time = TimePoint;

    fn now(&self) -> (r: TimePoint)
        ensures
            r == self.time,
    {
        self.time
    }
}

} // verus!
