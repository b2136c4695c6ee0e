//! A timed span that counts elapsed milliseconds up towards a target duration.

use vstd::prelude::*;

verus! {

/// Milliseconds in one second.
pub const MILLIS_PER_SEC: u64 = 1000;

/// The longest interval, in seconds, whose duration still fits in `u64` milliseconds.
pub const MAX_INTERVAL_SECS: u64 = 18446744073709551;

/// Adds two elapsed times, pinned to `u64::MAX` where the sum does not fit.
pub open spec fn saturating_sum(a: u64, b: u64) -> u64 {
    if a + b > u64::MAX {
        u64::MAX
    } else {
        (a + b) as u64
    }
}

/// A running interval: how long it is meant to last and how much of it has passed.
#[derive(Clone, Copy, Debug, PartialEq, Eq)]
pub struct Interval {
    pub elapsed_ms: u64,
    pub duration_ms: u64,
}

impl Interval {
    /// The interval has ended once elapsed time reaches the duration.
    pub open spec fn ended(self) -> bool {
        self.elapsed_ms >= self.duration_ms
    }

    /// Whole seconds left, never below zero.
    pub open spec fn remaining_secs_spec(self) -> nat {
        if self.ended() {
            0
        } else {
            ((self.duration_ms - self.elapsed_ms) / (MILLIS_PER_SEC as int)) as nat
        }
    }

    /// A fresh interval of `secs` seconds with nothing elapsed.
    pub fn from_secs(secs: u64) -> (r: Interval)
        requires
            secs <= MAX_INTERVAL_SECS,
        ensures
            r.elapsed_ms == 0,
            r.duration_ms == secs * MILLIS_PER_SEC,
    {
        Interval { elapsed_ms: 0, duration_ms: secs * MILLIS_PER_SEC }
    }

    /// Whether the elapsed time has reached the duration.
    pub fn has_ended(&self) -> (r: bool)
        ensures
            r == self.ended(),
    {
        self.elapsed_ms >= self.duration_ms
    }

    /// Counts `ms` more milliseconds as elapsed.
    pub fn add_elapsed(&mut self, ms: u64)
        ensures
            final(self).duration_ms == old(self).duration_ms,
            final(self).elapsed_ms == saturating_sum(old(self).elapsed_ms, ms),
    {
        self.elapsed_ms = self.elapsed_ms.saturating_add(ms);
    }

    /// Whole seconds left before the interval ends; zero once it has ended.
    pub fn remaining_secs(&self) -> (r: u64)
        ensures
            r as nat == self.remaining_secs_spec(),
    {
        if self.elapsed_ms >= self.duration_ms {
            0
        } else {
            (self.duration_ms - self.elapsed_ms) / MILLIS_PER_SEC
        }
    }
}

} // verus!
