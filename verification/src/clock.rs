//! Wall-clock time and the tick accumulator that advances it.
//!
//! A fixed-frequency hardware counter is sampled once per periodic tick
//! interrupt.  Wall-clock seconds advance by exactly one only when the
//! counter's low-order bits equal the configured per-second boundary
//! mask, so integer seconds stay drift-free regardless of scheduling
//! jitter.  A second, independently-masked test on the same counter
//! paces lower-frequency work (sensor sampling) without touching the
//! clock cadence.

use vstd::prelude::*;

verus! {

/// Seconds in one minute.
pub const SECS_PER_MINUTE: u64 = 60;

/// Seconds in one hour.
pub const SECS_PER_HOUR: u64 = 3600;

/// Hours on the 24-hour dial.
pub const HOURS_PER_DAY: u64 = 24;

/// Minutes in one hour.
pub const MINUTES_PER_HOUR: u64 = 60;

/// Volatile wall-clock value: whole seconds since power-up epoch zero.
#[derive(Clone, Copy, PartialEq, Eq, Structural, Debug)]
pub struct WallClock {
    seconds: u64,
}

impl WallClock {
    /// Seconds since the epoch.
    pub closed spec fn seconds_spec(self) -> u64 {
        self.seconds
    }

    /// The hour of day this many seconds into an epoch that started at
    /// midnight.
    pub open spec fn hour_of(seconds: u64) -> u64 {
        (seconds / SECS_PER_HOUR) % HOURS_PER_DAY
    }

    /// The minute of hour at this many seconds into the epoch.
    pub open spec fn minute_of(seconds: u64) -> u64 {
        (seconds / SECS_PER_MINUTE) % MINUTES_PER_HOUR
    }

    /// The clock at epoch zero (power-up default).
    pub fn at_epoch() -> (r: Self)
        ensures
            r.seconds_spec() == 0,
    {
        WallClock { seconds: 0 }
    }

    /// A clock a given number of seconds into the epoch.
    pub fn from_seconds(seconds: u64) -> (r: Self)
        ensures
            r.seconds_spec() == seconds,
    {
        WallClock { seconds }
    }

    /// Seconds since the epoch.
    pub fn seconds(&self) -> (r: u64)
        ensures
            r == self.seconds_spec(),
    {
        self.seconds
    }

    /// Advances the clock by exactly one second.
    pub fn advance_second(&mut self)
        requires
            old(self).seconds_spec() < u64::MAX,
        ensures
            final(self).seconds_spec() == old(self).seconds_spec() + 1,
    {
        self.seconds = self.seconds + 1;
    }

    /// The hour of day, in `[0, 24)`.
    pub fn hour(&self) -> (r: u64)
        ensures
            r == Self::hour_of(self.seconds_spec()),
            r < HOURS_PER_DAY,
    {
        (self.seconds / SECS_PER_HOUR) % HOURS_PER_DAY
    }

    /// The minute of hour, in `[0, 60)`.
    pub fn minute(&self) -> (r: u64)
        ensures
            r == Self::minute_of(self.seconds_spec()),
            r < MINUTES_PER_HOUR,
    {
        (self.seconds / SECS_PER_MINUTE) % MINUTES_PER_HOUR
    }
}

/// Converts the periodic hardware counter into elapsed wall-clock time
/// and a lower-frequency sampling cue, by two independent boundary
/// masks.
///
/// A counter value crosses a boundary when its low-order bits equal the
/// mask, i.e. `counter & mask == mask`; a power-of-two-minus-one mask
/// makes the test true exactly once per `mask + 1` sub-ticks and
/// naturally tolerates counter wraparound at a power-of-two modulus.
pub struct TickAccumulator {
    second_mask: u32,
    sample_mask: u32,
    clock: WallClock,
}

/// Whether `counter` sits on the boundary selected by `mask`.
pub open spec fn at_boundary(counter: u32, mask: u32) -> bool {
    counter & mask == mask
}

impl TickAccumulator {
    /// The per-second boundary mask.
    pub closed spec fn second_mask_spec(self) -> u32 {
        self.second_mask
    }

    /// The sampling-cadence boundary mask.
    pub closed spec fn sample_mask_spec(self) -> u32 {
        self.sample_mask
    }

    /// The accumulated wall-clock value.
    pub closed spec fn clock_spec(self) -> WallClock {
        self.clock
    }

    /// An accumulator with the given boundary masks and the wall clock
    /// at epoch zero.
    pub fn new(second_mask: u32, sample_mask: u32) -> (r: Self)
        ensures
            r.second_mask_spec() == second_mask,
            r.sample_mask_spec() == sample_mask,
            r.clock_spec().seconds_spec() == 0,
    {
        TickAccumulator { second_mask, sample_mask, clock: WallClock::at_epoch() }
    }

    /// The accumulated wall-clock value.
    pub fn clock(&self) -> (r: WallClock)
        ensures
            r == self.clock_spec(),
    {
        self.clock
    }

    /// Handles one periodic tick: advances the wall clock by exactly one
    /// second when `counter` sits on the per-second boundary (and not
    /// otherwise), and reports whether `counter` sits on the sampling
    /// boundary, in which case the caller should cue a sensor read.
    pub fn on_tick(&mut self, counter: u32) -> (sample: bool)
        requires
            old(self).clock_spec().seconds_spec() < u64::MAX,
        ensures
            final(self).second_mask_spec() == old(self).second_mask_spec(),
            final(self).sample_mask_spec() == old(self).sample_mask_spec(),
            at_boundary(counter, old(self).second_mask_spec()) ==> final(self).clock_spec().seconds_spec()
                == old(self).clock_spec().seconds_spec() + 1,
            !at_boundary(counter, old(self).second_mask_spec()) ==> final(self).clock_spec()
                == old(self).clock_spec(),
            sample == at_boundary(counter, old(self).sample_mask_spec()),
    {
        if counter & self.second_mask == self.second_mask {
            self.clock.advance_second();
        }
        counter & self.sample_mask == self.sample_mask
    }
}

} // verus!
