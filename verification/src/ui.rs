//! What the UI task renders, as plain values: the digital clock's text
//! with its placement and colors, and the strip-chart drawing commands
//! for the heart-rate plot.
//!
//! Colors are raw RGB565 words; the display driver outside the library
//! turns these commands into bus traffic.

use vstd::prelude::*;

use crate::clock::WallClock;

verus! {

/// Raw RGB565 black.
pub const BLACK: u16 = 0x0000;

/// Raw RGB565 white.
pub const WHITE: u16 = 0xFFFF;

/// Left edge of the clock text.
pub const TEXT_LEFT: u32 = 60;

/// Top edge of the clock text.
pub const TEXT_TOP: u32 = 40;

/// Width and height of the square display, in pixels.
pub const SCREEN_SIZE: u32 = 240;

/// ASCII code of decimal digit `d`.
pub open spec fn ascii_digit(d: u8) -> u8 {
    (0x30 + d) as u8
}

/// The five bytes `HH:MM`, both fields zero-padded to two digits.
pub open spec fn clock_text(hour: u8, minute: u8) -> Seq<u8> {
    seq![
        ascii_digit((hour / 10) as u8),
        ascii_digit((hour % 10) as u8),
        0x3Au8,
        ascii_digit((minute / 10) as u8),
        ascii_digit((minute % 10) as u8),
    ]
}

/// A piece of text to paint at a fixed position with foreground and
/// background colors.
pub struct TextCmd {
    /// ASCII bytes to paint.
    pub text: Vec<u8>,
    /// Left edge, in pixels.
    pub left: u32,
    /// Top edge, in pixels.
    pub top: u32,
    /// Foreground RGB565 color.
    pub fg_color: u16,
    /// Background RGB565 color.
    pub bg_color: u16,
}

/// The time-of-day widget: a snapshot of the wall clock plus its two
/// colors.
pub struct DigitalClock {
    bg_color: u16,
    fg_color: u16,
    hour: u8,
    minute: u8,
}

impl DigitalClock {
    /// The captured hour of day.
    pub closed spec fn hour_spec(self) -> u8 {
        self.hour
    }

    /// The captured minute of hour.
    pub closed spec fn minute_spec(self) -> u8 {
        self.minute
    }

    /// The foreground color.
    pub closed spec fn fg_spec(self) -> u16 {
        self.fg_color
    }

    /// The background color.
    pub closed spec fn bg_spec(self) -> u16 {
        self.bg_color
    }

    /// The captured time names a real time of day.
    pub open spec fn wf(self) -> bool {
        self.hour_spec() < 24 && self.minute_spec() < 60
    }

    /// A widget showing `datetime`'s hour and minute, white on black.
    pub fn with_date(datetime: &WallClock) -> (r: Self)
        ensures
            r.wf(),
            r.hour_spec() == WallClock::hour_of(datetime.seconds_spec()),
            r.minute_spec() == WallClock::minute_of(datetime.seconds_spec()),
            r.fg_spec() == WHITE,
            r.bg_spec() == BLACK,
    {
        DigitalClock {
            bg_color: BLACK,
            fg_color: WHITE,
            hour: datetime.hour() as u8,
            minute: datetime.minute() as u8,
        }
    }

    /// Repaints the text in this foreground color.
    pub fn fg_color(&mut self, fg_color: u16)
        ensures
            final(self).fg_spec() == fg_color,
            final(self).bg_spec() == old(self).bg_spec(),
            final(self).hour_spec() == old(self).hour_spec(),
            final(self).minute_spec() == old(self).minute_spec(),
    {
        self.fg_color = fg_color;
    }

    /// Repaints the text on this background color.
    pub fn bg_color(&mut self, bg_color: u16)
        ensures
            final(self).bg_spec() == bg_color,
            final(self).fg_spec() == old(self).fg_spec(),
            final(self).hour_spec() == old(self).hour_spec(),
            final(self).minute_spec() == old(self).minute_spec(),
    {
        self.bg_color = bg_color;
    }

    /// What to paint: the zero-padded `HH:MM` text at the fixed text
    /// position, in this widget's colors.
    pub fn render(&self) -> (r: TextCmd)
        requires
            self.wf(),
        ensures
            r.text@ == clock_text(self.hour_spec(), self.minute_spec()),
            r.left == TEXT_LEFT,
            r.top == TEXT_TOP,
            r.fg_color == self.fg_spec(),
            r.bg_color == self.bg_spec(),
    {
        let mut text: Vec<u8> = Vec::new();
        text.push(0x30 + self.hour / 10);
        text.push(0x30 + self.hour % 10);
        text.push(0x3A);
        text.push(0x30 + self.minute / 10);
        text.push(0x30 + self.minute % 10);
        proof {
            assert(text@ =~= clock_text(self.hour_spec(), self.minute_spec()));
        }
        TextCmd {
            text,
            left: TEXT_LEFT,
            top: TEXT_TOP,
            fg_color: self.fg_color,
            bg_color: self.bg_color,
        }
    }
}

/// One strip-chart drawing step.  The erase color is black, the data
/// color white, as on the device.
#[derive(Clone, Copy, PartialEq, Eq, Structural, Debug)]
pub enum DrawCmd {
    /// Erase the full-height column at `x` before redrawing it.
    ClearColumn { x: u32 },
    /// Paint the single data pixel at `(x, y)`.
    Point { x: u32, y: u32 },
    /// Connect the two most recent data points with a line.
    Segment { x0: u32, y0: u32, x1: u32, y1: u32 },
}

impl DrawCmd {
    /// Every coordinate stays on the square screen.
    pub open spec fn on_screen(self) -> bool {
        match self {
            DrawCmd::ClearColumn { x } => x < SCREEN_SIZE,
            DrawCmd::Point { x, y } => x < SCREEN_SIZE && y < SCREEN_SIZE,
            DrawCmd::Segment { x0, y0, x1, y1 } => x0 < SCREEN_SIZE && y0 < SCREEN_SIZE && x1
                < SCREEN_SIZE && y1 < SCREEN_SIZE,
        }
    }
}

} // verus!
