//! Points in time and spans of time, as plain numbers of nanoseconds.

use vstd::prelude::*;

verus! {

pub const NANOS_PER_MILLI: u128 = 1_000_000;

pub const NANOS_PER_SEC: u128 = 1_000_000_000;

/// A span of time.
#[derive(Clone, Copy, PartialEq, Eq, Debug, Structural)]
pub struct Duration {
    pub nanos: u128,
}

impl Duration {
    pub open spec fn millis(self) -> u128 {
        self.nanos / NANOS_PER_MILLI
    }

    pub open spec fn secs(self) -> u128 {
        self.nanos / NANOS_PER_SEC
    }

    pub fn from_millis(millis: u64) -> (res: Self)
        ensures
            res.nanos == millis * NANOS_PER_MILLI,
            res.millis() == millis,
    {
        let nanos: u128 = millis as u128 * NANOS_PER_MILLI;
        Duration { nanos }
    }

    pub fn as_millis(&self) -> (res: u128)
        ensures
            res == self.millis(),
    {
        self.nanos / NANOS_PER_MILLI
    }

    pub fn as_secs(&self) -> (res: u128)
        ensures
            res == self.secs(),
    {
        self.nanos / NANOS_PER_SEC
    }
}

/// A point in time on a clock that never goes back.
#[derive(Clone, Copy, PartialEq, Eq, Debug, Structural)]
pub struct Instant {
    pub nanos: u128,
}

impl Instant {
    /// The time from `earlier` to `self`, or none at all where `earlier` is not earlier.
    pub open spec fn since(self, earlier: Instant) -> Duration {
        Duration {
            nanos: if self.nanos >= earlier.nanos {
                (self.nanos - earlier.nanos) as u128
            } else {
                0
            },
        }
    }

    pub fn duration_since(&self, earlier: Instant) -> (res: Duration)
        ensures
            res == self.since(earlier),
    {
        if self.nanos >= earlier.nanos {
            Duration { nanos: self.nanos - earlier.nanos }
        } else {
            Duration { nanos: 0 }
        }
    }
}

/// So many whole milliseconds and seconds fit into a span of time, and no more.
pub proof fn law_units_fit_into_the_span(duration: Duration)
    ensures
        duration.millis() * 1_000_000 <= duration.nanos < (duration.millis() + 1) * 1_000_000,
        duration.secs() * 1_000_000_000 <= duration.nanos < (duration.secs() + 1) * 1_000_000_000,
{
}

/// The span since an earlier point in time leads from there to the later one, and there is none since
/// a later one.
pub proof fn law_span_leads_from_earlier_to_later(earlier: Instant, later: Instant)
    requires
        earlier.nanos <= later.nanos,
    ensures
        earlier.nanos + later.since(earlier).nanos == later.nanos,
        earlier.since(later).nanos == 0,
{
}

} // verus!
