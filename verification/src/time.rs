//! Spans of time.

use vstd::prelude::*;

verus! {

/// The number of nanoseconds in a second.
pub const NANOS_PER_SEC: u32 = 1000000000;

/// A span of time: whole seconds and the nanoseconds beyond them.
#[derive(Clone, Copy, Debug, PartialEq, Eq)]
pub struct Duration {
    secs: u64,
    nanos: u32,
}

impl Duration {
    #[verifier::type_invariant]
    closed spec fn inv(&self) -> bool {
        self.nanos < NANOS_PER_SEC
    }

    /// The whole seconds of the span.
    pub closed spec fn seconds(&self) -> nat {
        self.secs as nat
    }

    /// The nanoseconds beyond the whole seconds, fewer than a second.
    pub closed spec fn nanoseconds(&self) -> nat {
        self.nanos as nat
    }

    /// The whole milliseconds of the span.
    pub open spec fn milliseconds(&self) -> nat {
        self.seconds() * 1000 + self.nanoseconds() / 1000000
    }

    /// A span of `secs` seconds and `nanos` nanoseconds; a second's worth of
    /// nanoseconds or more is carried over into the seconds.
    pub fn new(secs: u64, nanos: u32) -> (d: Duration)
        requires
            secs + nanos / NANOS_PER_SEC <= u64::MAX,
        ensures
            d.seconds() == secs + nanos / NANOS_PER_SEC,
            d.nanoseconds() == nanos % NANOS_PER_SEC,
    {
        Duration { secs: secs + (nanos / NANOS_PER_SEC) as u64, nanos: nanos % NANOS_PER_SEC }
    }

    /// A span of whole seconds.
    pub fn from_secs(secs: u64) -> (d: Duration)
        ensures
            d.seconds() == secs,
            d.nanoseconds() == 0,
    {
        Duration { secs, nanos: 0 }
    }

    /// A span of whole milliseconds.
    pub fn from_millis(millis: u64) -> (d: Duration)
        ensures
            d.seconds() == millis / 1000,
            d.nanoseconds() == (millis % 1000) * 1000000,
            d.milliseconds() == millis,
    {
        let nanos = ((millis % 1000) as u32) * 1000000;
        Duration { secs: millis / 1000, nanos }
    }

    /// A span of whole nanoseconds.
    pub fn from_nanos(nanos: u64) -> (d: Duration)
        ensures
            d.seconds() == nanos / 1000000000,
            d.nanoseconds() == nanos % 1000000000,
            d.total_nanoseconds() == nanos,
    {
        Duration { secs: nanos / 1000000000, nanos: (nanos % 1000000000) as u32 }
    }

    /// The whole span in nanoseconds.
    pub open spec fn total_nanoseconds(&self) -> nat {
        self.seconds() * 1000000000 + self.nanoseconds()
    }

    /// The whole span in nanoseconds.
    pub fn as_nanos(&self) -> (r: u128)
        ensures
            r == self.total_nanoseconds(),
    {
        proof {
            use_type_invariant(self);
        }
        (self.secs as u128) * 1000000000 + (self.nanos as u128)
    }

    pub fn as_secs(&self) -> (r: u64)
        ensures
            r == self.seconds(),
    {
        self.secs
    }

    pub fn subsec_nanos(&self) -> (r: u32)
        ensures
            r == self.nanoseconds(),
            r < NANOS_PER_SEC,
    {
        proof {
            use_type_invariant(self);
        }
        self.nanos
    }

    /// The whole milliseconds of the span.
    pub fn as_millis(&self) -> (r: u128)
        ensures
            r == self.milliseconds(),
    {
        (self.secs as u128) * 1000 + (self.nanos / 1000000) as u128
    }

    /// Whether two spans are equal.
    pub fn same(&self, other: &Duration) -> (r: bool)
        ensures
            r == (self.seconds() == other.seconds() && self.nanoseconds() == other.nanoseconds()),
            r == (*self == *other),
    {
        self.secs == other.secs && self.nanos == other.nanos
    }
}

} // verus!
