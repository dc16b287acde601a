//! Backlight level state machine: a small discrete brightness level in
//! `[0, 7]` whose three bits each drive one active-low output line.
//!
//! The three physical lines are modelled as [`LineDrive`] values; the
//! unverified shell translates them to pin writes.

use vstd::prelude::*;

verus! {

/// Highest selectable brightness level (all three drive lines on).
pub const MAX_LEVEL: u8 = 7;

/// State of one active-low drive line.  `Asserted` means the line is
/// driven to logic low, turning its backlight stage on; `Released` means
/// logic high, stage off.
#[derive(Clone, Copy, PartialEq, Eq, Structural, Debug)]
pub enum LineDrive {
    Asserted,
    Released,
}

/// The drive state bit `k` of `pattern` calls for.
pub open spec fn drive_for_bit(pattern: u8, bit: u8) -> LineDrive {
    if pattern & bit != 0 {
        LineDrive::Asserted
    } else {
        LineDrive::Released
    }
}

/// Three-line backlight driver.  The stored `level` survives `off`, so a
/// later `on` restores the previous brightness.
pub struct Backlight {
    level: u8,
    low: LineDrive,
    mid: LineDrive,
    high: LineDrive,
}

impl Backlight {
    /// The stored brightness level.
    pub closed spec fn level_spec(self) -> u8 {
        self.level
    }

    /// The drive states currently on the three lines, low bit first.
    pub closed spec fn lines_spec(self) -> (LineDrive, LineDrive, LineDrive) {
        (self.low, self.mid, self.high)
    }

    /// The stored level never leaves `[0, MAX_LEVEL]`.
    pub open spec fn wf(self) -> bool {
        self.level_spec() <= MAX_LEVEL
    }

    /// The three lines express `pattern`: a set bit asserts its line.
    pub open spec fn drives(self, pattern: u8) -> bool {
        self.lines_spec() == (
            drive_for_bit(pattern, 0b001),
            drive_for_bit(pattern, 0b010),
            drive_for_bit(pattern, 0b100),
        )
    }

    /// Builds the driver and immediately drives all three lines to match
    /// `level`, whatever state the lines were handed over in.
    pub fn new(level: u8, low: LineDrive, mid: LineDrive, high: LineDrive) -> (r: Self)
        requires
            level <= MAX_LEVEL,
        ensures
            r.wf(),
            r.level_spec() == level,
            r.drives(level),
    {
        let mut backlight = Backlight { level, low, mid, high };
        backlight.apply();
        backlight
    }

    /// Re-applies the stored level to the lines.
    pub fn on(&mut self)
        requires
            old(self).wf(),
        ensures
            final(self).wf(),
            final(self).level_spec() == old(self).level_spec(),
            final(self).drives(final(self).level_spec()),
    {
        self.apply();
    }

    /// Drives all three lines off without forgetting the stored level.
    pub fn off(&mut self)
        requires
            old(self).wf(),
        ensures
            final(self).wf(),
            final(self).level_spec() == old(self).level_spec(),
            final(self).drives(0),
    {
        self.set(0);
    }

    /// Stores `level` and drives the lines to match it; silently ignored
    /// when `level` is out of range.
    pub fn set_level(&mut self, level: u8)
        requires
            old(self).wf(),
        ensures
            final(self).wf(),
            level <= MAX_LEVEL ==> final(self).level_spec() == level && final(self).drives(level),
            level > MAX_LEVEL ==> *final(self) == *old(self),
    {
        if level <= 0b111 {
            self.level = level;
            self.apply();
        }
    }

    /// One step brighter, saturating: a no-op (lines untouched) at
    /// `MAX_LEVEL`.
    pub fn increase(&mut self)
        requires
            old(self).wf(),
        ensures
            final(self).wf(),
            old(self).level_spec() < MAX_LEVEL ==> {
                &&& final(self).level_spec() == old(self).level_spec() + 1
                &&& final(self).drives(final(self).level_spec())
            },
            old(self).level_spec() == MAX_LEVEL ==> *final(self) == *old(self),
    {
        if self.level < 0b111 {
            self.level = self.level + 1;
            self.apply();
        }
    }

    /// One step darker, saturating: a no-op (lines untouched) at level 0.
    pub fn decrease(&mut self)
        requires
            old(self).wf(),
        ensures
            final(self).wf(),
            old(self).level_spec() > 0 ==> {
                &&& final(self).level_spec() == old(self).level_spec() - 1
                &&& final(self).drives(final(self).level_spec())
            },
            old(self).level_spec() == 0 ==> *final(self) == *old(self),
    {
        if self.level > 0 {
            self.level = self.level - 1;
            self.apply();
        }
    }

    /// The stored level.
    pub fn level(&self) -> (r: u8)
        ensures
            r == self.level_spec(),
    {
        self.level
    }

    /// The drive states currently on the lines, low bit first.
    pub fn lines(&self) -> (r: (LineDrive, LineDrive, LineDrive))
        ensures
            r == self.lines_spec(),
    {
        (self.low, self.mid, self.high)
    }

    fn apply(&mut self)
        ensures
            final(self).level_spec() == old(self).level_spec(),
            final(self).drives(old(self).level_spec()),
    {
        self.set(self.level);
    }

    fn set(&mut self, level: u8)
        ensures
            final(self).level_spec() == old(self).level_spec(),
            final(self).drives(level),
    {
        if level & 0b001 != 0 {
            self.low = LineDrive::Asserted;
        } else {
            self.low = LineDrive::Released;
        }

        if level & 0b010 != 0 {
            self.mid = LineDrive::Asserted;
        } else {
            self.mid = LineDrive::Released;
        }

        if level & 0b100 != 0 {
            self.high = LineDrive::Asserted;
        } else {
            self.high = LineDrive::Released;
        }
    }
}

} // verus!
