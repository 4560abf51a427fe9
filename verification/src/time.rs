//! Monotonic instants and durations.
//!
//! Readings come from a backend's monotonic clock as whole microseconds.
//! Differences saturate at zero instead of wrapping or panicking, because a
//! backend may hand out two readings in either order around a counter reset.

use vstd::prelude::*;

verus! {

/// A moment in time, obtained from a backend's monotonic clock.
#[derive(Copy, Clone)]
pub struct Instant {
    /// Microseconds since an arbitrary epoch.
    pub us: u32,
}

impl Instant {
    /// Time elapsed from `rhs` to `self`, saturating at zero when `rhs`
    /// is the later reading.
    pub fn sub(self, rhs: Instant) -> (r: Duration)
        ensures
            r.us == if self.us >= rhs.us { self.us - rhs.us } else { 0 },
    {
        Duration { us: if self.us >= rhs.us { self.us - rhs.us } else { 0 } }
    }
}

/// Difference between two [`Instant`]s; also the unit of a backend's delay.
#[derive(PartialEq, Eq, Structural, Copy, Clone)]
pub struct Duration {
    /// Length of the duration in microseconds.
    pub us: u32,
}

impl Duration {
    /// Given the desired frames per second, the duration of a single frame.
    pub fn from_fps(fps: u32) -> (r: Self)
        requires
            fps > 0,
        ensures
            r.us == 1_000_000u32 / fps,
    {
        Self { us: 1_000_000 / fps }
    }

    pub fn from_s(s: u32) -> (r: Self)
        requires
            s * 1_000_000 <= u32::MAX,
        ensures
            r.us == s * 1_000_000,
    {
        Self { us: s * 1_000_000 }
    }

    pub fn from_ms(ms: u32) -> (r: Self)
        requires
            ms * 1000 <= u32::MAX,
        ensures
            r.us == ms * 1000,
    {
        Self { us: ms * 1000 }
    }

    pub fn from_us(us: u32) -> (r: Self)
        ensures
            r.us == us,
    {
        Self { us }
    }

    /// Whole seconds, rounding down.
    pub fn s(&self) -> (r: u32)
        ensures
            r == self.us / 1_000_000u32,
    {
        self.us / 1_000_000
    }

    /// Whole milliseconds, rounding down.
    pub fn ms(&self) -> (r: u32)
        ensures
            r == self.us / 1000u32,
    {
        self.us / 1000
    }

    /// Whole microseconds.
    pub fn us(&self) -> (r: u32)
        ensures
            r == self.us,
    {
        self.us
    }

    /// Nanoseconds, saturating at `u32::MAX`.
    pub fn ns(&self) -> (r: u32)
        ensures
            r == if self.us * 1000 <= u32::MAX { self.us * 1000 } else { u32::MAX as int },
    {
        if self.us <= u32::MAX / 1000 {
            self.us * 1000
        } else {
            u32::MAX
        }
    }

    /// Difference of two durations, saturating at zero: durations never
    /// wrap or panic when the subtrahend is longer.
    pub fn sub(self, rhs: Self) -> (r: Self)
        ensures
            r.us == if self.us >= rhs.us {
                self.us - rhs.us
            } else {
                0
            },
    {
        Self { us: if self.us >= rhs.us { self.us - rhs.us } else { 0 } }
    }

    /// Add `rhs` to this duration, saturating at `u32::MAX`.
    pub fn add_assign(&mut self, rhs: Self)
        ensures
            final (self).us == if old(self).us + rhs.us <= u32::MAX {
                old(self).us + rhs.us
            } else {
                u32::MAX as int
            },
    {
        self.us = if self.us <= u32::MAX - rhs.us {
            self.us + rhs.us
        } else {
            u32::MAX
        };
    }

    /// Subtract `rhs` from this duration, saturating at zero.
    pub fn sub_assign(&mut self, rhs: Self)
        ensures
            final (self).us == if old(self).us >= rhs.us {
                old(self).us - rhs.us
            } else {
                0
            },
    {
        self.us = if self.us >= rhs.us {
            self.us - rhs.us
        } else {
            0
        };
    }
}

impl PartialOrd for Duration {
    fn partial_cmp(&self, other: &Self) -> (r: Option<core::cmp::Ordering>) {
        if self.us < other.us {
            Some(core::cmp::Ordering::Less)
        } else if self.us == other.us {
            Some(core::cmp::Ordering::Equal)
        } else {
            Some(core::cmp::Ordering::Greater)
        }
    }
}

impl vstd::std_specs::cmp::PartialOrdSpecImpl for Duration {
    open spec fn obeys_partial_cmp_spec() -> bool {
        true
    }

    open spec fn partial_cmp_spec(&self, other: &Self) -> Option<core::cmp::Ordering> {
        if self.us < other.us {
            Some(core::cmp::Ordering::Less)
        } else if self.us == other.us {
            Some(core::cmp::Ordering::Equal)
        } else {
            Some(core::cmp::Ordering::Greater)
        }
    }
}

} // verus!
