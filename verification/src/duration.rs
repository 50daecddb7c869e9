//! The duration value type: whole seconds plus a nanoseconds remainder
//! normalized below one second.

use vstd::prelude::*;

verus! {

/// One second, in nanoseconds.
pub const NANOS_PER_SEC: u32 = 1_000_000_000;

/// An exact, non-negative elapsed time: whole seconds plus a nanoseconds
/// remainder in `[0, 1_000_000_000)`.
#[derive(Debug, Clone, Copy, PartialEq, Eq, Structural)]
pub struct Duration {
    pub secs: u64,
    pub nanos: u32,
}

impl Duration {
    /// Well-formedness: the nanoseconds component is normalized below one second.
    pub open spec fn wf(self) -> bool {
        self.nanos < NANOS_PER_SEC
    }

    /// The value as a total count of nanoseconds.
    pub open spec fn total_nanos(self) -> nat {
        self.secs as nat * NANOS_PER_SEC as nat + self.nanos as nat
    }

    pub open spec fn spec_secs(self) -> u64 {
        self.secs
    }

    pub open spec fn spec_subsec_nanos(self) -> u32 {
        self.nanos
    }

    /// Builds a duration from whole seconds and a sub-second nanosecond remainder.
    pub fn new(secs: u64, nanos: u32) -> (d: Duration)
        requires
            nanos < NANOS_PER_SEC,
        ensures
            d.wf(),
            d.spec_secs() == secs,
            d.spec_subsec_nanos() == nanos,
    {
        Duration { secs, nanos }
    }

    /// The zero duration.
    pub fn zero() -> (d: Duration)
        ensures
            d.wf(),
            d.spec_secs() == 0,
            d.spec_subsec_nanos() == 0,
            d.total_nanos() == 0,
    {
        Duration { secs: 0, nanos: 0 }
    }

    pub fn as_secs(&self) -> (s: u64)
        ensures
            s == self.spec_secs(),
    {
        self.secs
    }

    pub fn subsec_nanos(&self) -> (n: u32)
        ensures
            n == self.spec_subsec_nanos(),
    {
        self.nanos
    }

    /// What adding two durations yields, when the seconds do not overflow.
    pub open spec fn spec_add(self, other: Duration) -> Option<Duration> {
        let n = self.nanos + other.nanos;
        let carry: int = if n >= NANOS_PER_SEC { 1 } else { 0 };
        if self.secs + other.secs + carry <= u64::MAX {
            Some(
                Duration {
                    secs: (self.secs + other.secs + carry) as u64,
                    nanos: (n - carry * NANOS_PER_SEC) as u32,
                },
            )
        } else {
            None
        }
    }

    /// Adds two durations; `None` when the whole-seconds sum exceeds `u64::MAX`.
    pub fn checked_add(self, other: Duration) -> (r: Option<Duration>)
        requires
            self.wf(),
            other.wf(),
        ensures
            r == self.spec_add(other),
            r matches Some(d) ==> d.wf() && d.total_nanos() == self.total_nanos()
                + other.total_nanos(),
    {
        let n = self.nanos + other.nanos;
        let (carry, rem): (u64, u32) = if n >= NANOS_PER_SEC {
            (1, n - NANOS_PER_SEC)
        } else {
            (0, n)
        };
        match self.secs.checked_add(other.secs) {
            Some(s) => match s.checked_add(carry) {
                Some(s2) => Some(Duration { secs: s2, nanos: rem }),
                None => None,
            },
            None => None,
        }
    }
}

} // verus!
