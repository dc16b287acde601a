use xochron::clock::{TickAccumulator, WallClock};
use xochron::ui::{DigitalClock, BLACK, TEXT_LEFT, TEXT_TOP, WHITE};

#[test]
fn seconds_advance_only_on_the_mask_boundary() {
    // every 128th sub-tick advances the clock; every 2nd cues a sample
    let mut acc = TickAccumulator::new(0x7F, 0x01);
    let mut cues = 0u32;
    for counter in 0u32..=255 {
        let before = acc.clock().seconds();
        let cue = acc.on_tick(counter);
        let after = acc.clock().seconds();
        if counter == 127 || counter == 255 {
            assert_eq!(after, before + 1);
        } else {
            assert_eq!(after, before);
        }
        assert_eq!(cue, counter & 0x01 == 0x01);
        if cue {
            cues += 1;
        }
    }
    // exactly one second per 128 sub-ticks, never more or less
    assert_eq!(acc.clock().seconds(), 2);
    assert_eq!(cues, 128);
}

#[test]
fn clock_starts_at_epoch_zero() {
    let acc = TickAccumulator::new(0x7F, 0x01);
    assert_eq!(acc.clock().seconds(), 0);
    assert_eq!(acc.clock().hour(), 0);
    assert_eq!(acc.clock().minute(), 0);
}

#[test]
fn hour_and_minute_come_from_seconds() {
    let clock = WallClock::from_seconds(3661);
    assert_eq!(clock.hour(), 1);
    assert_eq!(clock.minute(), 1);
    // the hour wraps on the 24-hour dial
    let clock = WallClock::from_seconds(25 * 3600 + 59 * 60);
    assert_eq!(clock.hour(), 1);
    assert_eq!(clock.minute(), 59);
}

#[test]
fn advance_second_adds_exactly_one() {
    let mut clock = WallClock::at_epoch();
    clock.advance_second();
    clock.advance_second();
    assert_eq!(clock.seconds(), 2);
}

#[test]
fn digital_clock_pads_both_fields() {
    let clock = WallClock::from_seconds(3661);
    let widget = DigitalClock::with_date(&clock);
    let cmd = widget.render();
    assert_eq!(cmd.text, b"01:01".to_vec());
    assert_eq!(cmd.left, TEXT_LEFT);
    assert_eq!(cmd.top, TEXT_TOP);
    assert_eq!(cmd.fg_color, WHITE);
    assert_eq!(cmd.bg_color, BLACK);
}

#[test]
fn digital_clock_leaves_wide_fields_unpadded_values_intact() {
    let clock = WallClock::from_seconds(23 * 3600 + 59 * 60);
    let widget = DigitalClock::with_date(&clock);
    assert_eq!(widget.render().text, b"23:59".to_vec());
}

#[test]
fn digital_clock_colors_can_be_swapped() {
    let clock = WallClock::at_epoch();
    let mut widget = DigitalClock::with_date(&clock);
    widget.fg_color(BLACK);
    widget.bg_color(WHITE);
    let cmd = widget.render();
    assert_eq!(cmd.text, b"00:00".to_vec());
    assert_eq!(cmd.fg_color, BLACK);
    assert_eq!(cmd.bg_color, WHITE);
}
