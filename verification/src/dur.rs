use vstd::prelude::*;

verus! {

/// Number of nanoseconds in one second.
pub const NANOS_PER_SEC: u32 = 1_000_000_000;

/// A span of time, stored as whole seconds plus a sub-second
/// nanosecond part. This is the unit in which playback positions
/// and total durations are kept.
#[derive(Clone, Copy, Debug, PartialEq, Eq, Structural)]
pub struct PlayerDuration {
    pub secs: u64,
    pub nanos: u32,
}

impl PlayerDuration {
    /// A duration is well formed when the nanosecond part has been
    /// carried into the seconds.
    pub open spec fn wf(self) -> bool {
        self.nanos < NANOS_PER_SEC
    }

    /// The whole span expressed in nanoseconds.
    pub open spec fn total_nanos(self) -> int {
        self.secs as int * NANOS_PER_SEC as int + self.nanos as int
    }

    pub fn new(secs: u64, nanos: u32) -> (r: PlayerDuration)
        requires
            nanos < NANOS_PER_SEC,
        ensures
            r.wf(),
            r.secs == secs,
            r.nanos == nanos,
    {
        PlayerDuration { secs, nanos }
    }

    pub fn from_secs(secs: u64) -> (r: PlayerDuration)
        ensures
            r.wf(),
            r.secs == secs,
            r.nanos == 0,
            r.total_nanos() == secs as int * NANOS_PER_SEC as int,
    {
        PlayerDuration { secs, nanos: 0 }
    }

    pub fn zero() -> (r: PlayerDuration)
        ensures
            r.wf(),
            r.total_nanos() == 0,
    {
        PlayerDuration { secs: 0, nanos: 0 }
    }

    /// The whole span in nanoseconds, as an executable value.
    pub fn total_nanos_u128(&self) -> (r: u128)
        ensures
            r as int == self.total_nanos(),
            r <= u64::MAX as u128 * NANOS_PER_SEC as u128 + u32::MAX as u128,
    {
        proof {
            assert(self.secs as int * (NANOS_PER_SEC as int) <= u64::MAX as int * (
            NANOS_PER_SEC as int)) by (nonlinear_arith)
                requires
                    self.secs <= u64::MAX,
            ;
        }
        self.secs as u128 * (NANOS_PER_SEC as u128) + self.nanos as u128
    }

    pub fn as_secs(&self) -> (r: u64)
        ensures
            r == self.secs,
    {
        self.secs
    }

    /// `self < other` over the spans they denote.
    pub fn lt(&self, other: &PlayerDuration) -> (r: bool)
        requires
            self.wf(),
            other.wf(),
        ensures
            r <==> self.total_nanos() < other.total_nanos(),
    {
        if self.secs < other.secs {
            true
        } else if self.secs == other.secs {
            self.nanos < other.nanos
        } else {
            false
        }
    }

    /// The difference `self - other`, floored at zero.
    pub fn saturating_sub(&self, other: &PlayerDuration) -> (r: PlayerDuration)
        requires
            self.wf(),
            other.wf(),
        ensures
            r.wf(),
            r.total_nanos() == if self.total_nanos() >= other.total_nanos() {
                self.total_nanos() - other.total_nanos()
            } else {
                0
            },
    {
        if self.secs > other.secs {
            if self.nanos >= other.nanos {
                PlayerDuration { secs: self.secs - other.secs, nanos: self.nanos - other.nanos }
            } else {
                PlayerDuration {
                    secs: self.secs - other.secs - 1,
                    nanos: (self.nanos + NANOS_PER_SEC) - other.nanos,
                }
            }
        } else if self.secs == other.secs && self.nanos > other.nanos {
            PlayerDuration { secs: 0, nanos: self.nanos - other.nanos }
        } else {
            PlayerDuration { secs: 0, nanos: 0 }
        }
    }

    /// The sum `self + other`, capped at the largest representable span.
    pub fn saturating_add(&self, other: &PlayerDuration) -> (r: PlayerDuration)
        requires
            self.wf(),
            other.wf(),
        ensures
            r.wf(),
            r.total_nanos() == if self.total_nanos() + other.total_nanos() <= max_duration_nanos() {
                self.total_nanos() + other.total_nanos()
            } else {
                max_duration_nanos()
            },
    {
        let nanos_sum: u32 = self.nanos + other.nanos;
        let (carry, nanos): (u64, u32) = if nanos_sum >= NANOS_PER_SEC {
            (1u64, nanos_sum - NANOS_PER_SEC)
        } else {
            (0u64, nanos_sum)
        };
        if self.secs <= u64::MAX - other.secs && carry <= u64::MAX - (self.secs + other.secs) {
            PlayerDuration { secs: self.secs + other.secs + carry, nanos }
        } else {
            PlayerDuration { secs: u64::MAX, nanos: NANOS_PER_SEC - 1 }
        }
    }
}

/// The largest span `PlayerDuration` can hold, in nanoseconds.
pub open spec fn max_duration_nanos() -> int {
    u64::MAX as int * NANOS_PER_SEC as int + (NANOS_PER_SEC - 1) as int
}

} // verus!
