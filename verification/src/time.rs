use vstd::prelude::*;

verus! {

pub const NANOS_PER_SEC: u128 = 1_000_000_000;

pub const NANOS_PER_MILLI: u128 = 1_000_000;

pub const NANOS_PER_MICRO: u128 = 1_000;

/// A span of virtual time, counted in nanoseconds.
#[derive(Clone, Copy, Debug, PartialEq, Eq, Structural)]
pub struct Duration {
    pub nanos: u128,
}

impl Duration {
    /// The span of `secs` seconds and `nanos` further nanoseconds.
    pub fn new(secs: u64, nanos: u32) -> (d: Duration)
        ensures
            d.nanos == secs * NANOS_PER_SEC + nanos,
    {
        Duration { nanos: (secs as u128) * NANOS_PER_SEC + (nanos as u128) }
    }

    pub fn from_secs(secs: u64) -> (d: Duration)
        ensures
            d.nanos == secs * NANOS_PER_SEC,
    {
        Duration { nanos: (secs as u128) * NANOS_PER_SEC }
    }

    pub fn from_millis(millis: u64) -> (d: Duration)
        ensures
            d.nanos == millis * NANOS_PER_MILLI,
    {
        Duration { nanos: (millis as u128) * NANOS_PER_MILLI }
    }

    pub fn from_micros(micros: u64) -> (d: Duration)
        ensures
            d.nanos == micros * NANOS_PER_MICRO,
    {
        Duration { nanos: (micros as u128) * NANOS_PER_MICRO }
    }

    pub fn is_zero(&self) -> (z: bool)
        ensures
            z == (self.nanos == 0),
    {
        self.nanos == 0
    }

    pub fn as_nanos(&self) -> (n: u128)
        ensures
            n == self.nanos,
    {
        self.nanos
    }
}

/// A point of virtual time: nanoseconds since the clock's origin.
#[derive(Clone, Copy, Debug, PartialEq, Eq, Structural)]
pub struct Instant {
    pub nanos: u128,
}

impl Instant {
    /// The origin of the virtual clock.
    pub fn origin() -> (t: Instant)
        ensures
            t.nanos == 0,
    {
        Instant { nanos: 0 }
    }

    /// The instant `d` after `self`; the latest instant there is when the sum
    /// cannot be represented.
    pub open spec fn plus(self, d: Duration) -> Instant {
        Instant {
            nanos: if self.nanos + d.nanos <= u128::MAX {
                (self.nanos + d.nanos) as u128
            } else {
                u128::MAX
            },
        }
    }

    /// The instant `d` after `self`; the latest instant there is when the sum
    /// cannot be represented.
    pub fn saturating_add(&self, d: Duration) -> (t: Instant)
        ensures
            t == self.plus(d),
    {
        Instant { nanos: self.nanos.saturating_add(d.nanos) }
    }

    /// Whether `self` is no earlier than `other`.
    pub fn has_reached(&self, other: Instant) -> (r: bool)
        ensures
            r == (self.nanos >= other.nanos),
    {
        self.nanos >= other.nanos
    }
}

} // verus!
