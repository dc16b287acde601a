//! The concrete watch: its task table, its event-channel bindings, and
//! the logic of each task body.
//!
//! The interrupt handlers here are the compute halves of the device's
//! tasks: the unverified shell reads the hardware (tick counter, edge
//! register, sensor sample), hands the values in, and carries the
//! returned values (spawn cues, drawing commands) back out.

use vstd::prelude::*;

use crate::backlight::Backlight;
use crate::channels::{ChannelBank, Polarity, CHANNEL_COUNT};
use crate::clock::{at_boundary, TickAccumulator};
use crate::heart_rate::HeartRateSensor;
use crate::scheduler::{TaskDesc, Trigger};
use crate::ui::DrawCmd;

verus! {

/// Task id of the UI refresh task.
pub const UPDATE_UI: usize = 0;

/// Task id of the heart-rate measurement task.
pub const MEASURE_HR: usize = 1;

/// Task id of the periodic clock-tick task.
pub const RTC0: usize = 2;

/// Task id of the edge-event handling task.
pub const GPIOTE: usize = 3;

/// Static priority of the UI refresh task.
pub const UPDATE_UI_PRIORITY: u8 = 1;

/// Static priority of the heart-rate measurement task.
pub const MEASURE_HR_PRIORITY: u8 = 2;

/// Static priority of the clock-tick task.
pub const RTC0_PRIORITY: u8 = 3;

/// Static priority of the edge-event task.
pub const GPIOTE_PRIORITY: u8 = 1;

/// Interrupt source number of the edge-detector block.
pub const GPIOTE_IRQ: u8 = 1;

/// Per-second tick boundary mask: the counter ticks 128 times a second.
pub const SECOND_MASK: u32 = 0x7F;

/// Sampling cue boundary mask: every second sub-tick.
pub const SAMPLE_MASK: u32 = 0x01;

/// Physical line of the push button.
pub const BUTTON_LINE: u8 = 13;

/// Physical line of the touch controller's event output.
pub const TOUCH_LINE: u8 = 28;

/// Physical line of the accelerometer's event output.
pub const ACCEL_LINE: u8 = 8;

/// Physical line of the charging indicator.
pub const CHARGING_LINE: u8 = 12;

/// Physical line of the power-presence indicator.
pub const POWER_LINE: u8 = 19;

/// Channel latched when the button goes down.
pub const CH_BUTTON_DOWN: usize = 0;

/// Channel latched when the button comes up.
pub const CH_BUTTON_UP: usize = 1;

/// Channel latched on a touch event.
pub const CH_TOUCH: usize = 2;

/// Channel latched on an accelerometer event.
pub const CH_ACCEL: usize = 3;

/// Channel latched when charging starts.
pub const CH_CHARGING_ON: usize = 4;

/// Channel latched when charging stops.
pub const CH_CHARGING_OFF: usize = 5;

/// Channel latched when external power appears.
pub const CH_POWER_ON: usize = 6;

/// Channel latched when external power goes away.
pub const CH_POWER_OFF: usize = 7;

/// Backlight level driven at power-up.
pub const DEFAULT_BACKLIGHT_LEVEL: u8 = 0b010;

/// Scale factor turning a normalized sample into a screen row.
pub const PLOT_SCALE: u32 = 239;

/// The mutable state shared between the measurement task and the UI
/// task, lent out under the ceiling of the higher of the two.
pub struct State {
    /// Whether measuring has been requested by the user.
    pub running: bool,
    /// The heart-rate sampling pipeline.
    pub heart_rate_sensor: HeartRateSensor,
}

/// The watch's static task table, indexed by the task-id constants.
pub fn watch_tasks() -> (r: Vec<TaskDesc>)
    ensures
        r@.len() == 4,
        r@[UPDATE_UI as int] == (TaskDesc {
            priority: UPDATE_UI_PRIORITY,
            trigger: Trigger::SpawnOnly,
        }),
        r@[MEASURE_HR as int] == (TaskDesc {
            priority: MEASURE_HR_PRIORITY,
            trigger: Trigger::SpawnOnly,
        }),
        r@[RTC0 as int] == (TaskDesc { priority: RTC0_PRIORITY, trigger: Trigger::Periodic }),
        r@[GPIOTE as int] == (TaskDesc {
            priority: GPIOTE_PRIORITY,
            trigger: Trigger::Interrupt(GPIOTE_IRQ),
        }),
    {
    let mut tasks: Vec<TaskDesc> = Vec::new();
    tasks.push(TaskDesc { priority: UPDATE_UI_PRIORITY, trigger: Trigger::SpawnOnly });
    tasks.push(TaskDesc { priority: MEASURE_HR_PRIORITY, trigger: Trigger::SpawnOnly });
    tasks.push(TaskDesc { priority: RTC0_PRIORITY, trigger: Trigger::Periodic });
    tasks.push(TaskDesc { priority: GPIOTE_PRIORITY, trigger: Trigger::Interrupt(GPIOTE_IRQ) });
    tasks
}

/// The tasks that share the measurement [`State`]; a task reaching it
/// from below the resulting ceiling must hold that ceiling on the
/// scheduler for the span of the access.
///
/// The display handle and the backlight are single-owner — the display
/// is touched by the UI task alone, the backlight by the edge-event
/// task alone — so they need no ceiling
/// ([`crate::scheduler::lemma_single_owner_exclusive`]); adding another
/// accessor to either means adding it here instead and locking.
pub fn state_accessors() -> (r: Vec<usize>)
    ensures
        r@ =~= seq![UPDATE_UI, MEASURE_HR, RTC0, GPIOTE],
{
    let mut accessors: Vec<usize> = Vec::new();
    accessors.push(UPDATE_UI);
    accessors.push(MEASURE_HR);
    accessors.push(RTC0);
    accessors.push(GPIOTE);
    accessors
}

/// The tasks that share the wall clock: the tick task writes it, the UI
/// task reads it.
pub fn clock_accessors() -> (r: Vec<usize>)
    ensures
        r@ =~= seq![UPDATE_UI, RTC0],
{
    let mut accessors: Vec<usize> = Vec::new();
    accessors.push(UPDATE_UI);
    accessors.push(RTC0);
    accessors
}

/// The channel a watch event lands on, as configured at bring-up.
pub open spec fn watch_binding(ch: int) -> (u8, Polarity) {
    if ch == CH_BUTTON_DOWN {
        (BUTTON_LINE, Polarity::Falling)
    } else if ch == CH_BUTTON_UP {
        (BUTTON_LINE, Polarity::Rising)
    } else if ch == CH_TOUCH {
        (TOUCH_LINE, Polarity::Rising)
    } else if ch == CH_ACCEL {
        (ACCEL_LINE, Polarity::Rising)
    } else if ch == CH_CHARGING_ON {
        (CHARGING_LINE, Polarity::Falling)
    } else if ch == CH_CHARGING_OFF {
        (CHARGING_LINE, Polarity::Rising)
    } else if ch == CH_POWER_ON {
        (POWER_LINE, Polarity::Falling)
    } else {
        (POWER_LINE, Polarity::Rising)
    }
}

/// Binds all eight channels as the watch wires them: button down/up on
/// the button line's falling/rising edge, and so on.  Polarity, not
/// separate hardware, tells press from release on one physical line.
pub fn configure_watch_channels(bank: &mut ChannelBank)
    requires
        old(bank).wf(),
    ensures
        final(bank).wf(),
        forall|ch: int| 0 <= ch < CHANNEL_COUNT ==> {
            let c = #[trigger] final(bank).channels_spec()[ch];
            &&& c.binding == Some(
                (crate::channels::Binding {
                    line: watch_binding(ch).0,
                    polarity: watch_binding(ch).1,
                }),
            )
            &&& !c.triggered
        },
{
    bank.configure(CH_BUTTON_DOWN, BUTTON_LINE, Polarity::Falling);
    bank.configure(CH_BUTTON_UP, BUTTON_LINE, Polarity::Rising);
    bank.configure(CH_TOUCH, TOUCH_LINE, Polarity::Rising);
    bank.configure(CH_ACCEL, ACCEL_LINE, Polarity::Rising);
    bank.configure(CH_CHARGING_ON, CHARGING_LINE, Polarity::Falling);
    bank.configure(CH_CHARGING_OFF, CHARGING_LINE, Polarity::Rising);
    bank.configure(CH_POWER_ON, POWER_LINE, Polarity::Falling);
    bank.configure(CH_POWER_OFF, POWER_LINE, Polarity::Rising);
}

/// Body of the periodic clock task.  When the tick event really fired,
/// the counter is folded into the accumulator: the wall clock advances
/// by one second exactly on the per-second boundary, and the returned
/// cue says whether the sampling tasks should be spawned this tick.
pub fn rtc0_task(accumulator: &mut TickAccumulator, counter: u32, tick_fired: bool) -> (cue:
    bool)
    requires
        old(accumulator).clock_spec().seconds_spec() < u64::MAX,
    ensures
        final(accumulator).second_mask_spec() == old(accumulator).second_mask_spec(),
        final(accumulator).sample_mask_spec() == old(accumulator).sample_mask_spec(),
        tick_fired && at_boundary(counter, old(accumulator).second_mask_spec())
            ==> final(accumulator).clock_spec().seconds_spec()
            == old(accumulator).clock_spec().seconds_spec() + 1,
        !(tick_fired && at_boundary(counter, old(accumulator).second_mask_spec()))
            ==> final(accumulator).clock_spec() == old(accumulator).clock_spec(),
        cue == (tick_fired && at_boundary(counter, old(accumulator).sample_mask_spec())),
{
    if tick_fired {
        accumulator.on_tick(counter)
    } else {
        false
    }
}

/// Body of the edge-event task: drains every latched channel in one
/// pass, each behind its own triggered check, because one hardware
/// dispatch can coalesce several simultaneous edges.  Button-up arms
/// measuring; a touch steps the backlight up; power appearing restores
/// the stored backlight level; power going away darkens without
/// forgetting it.  Every latch is acknowledged; no binding changes.
pub fn gpiote_task(bank: &mut ChannelBank, backlight: &mut Backlight, state: &mut State)
    requires
        old(bank).wf(),
        old(backlight).wf(),
    ensures
        final(bank).wf(),
        final(backlight).wf(),
        forall|ch: int| 0 <= ch < CHANNEL_COUNT ==> (#[trigger] final(bank).channels_spec()[ch]).binding
            == old(bank).channels_spec()[ch].binding && !final(bank).channels_spec()[ch].triggered,
        final(state).running == (old(state).running || old(bank).channels_spec()[
            CH_BUTTON_UP as int
        ].triggered),
        final(state).heart_rate_sensor == old(state).heart_rate_sensor,
        ({
            let touch = old(bank).channels_spec()[CH_TOUCH as int].triggered;
            let power_on = old(bank).channels_spec()[CH_POWER_ON as int].triggered;
            let power_off = old(bank).channels_spec()[CH_POWER_OFF as int].triggered;
            let level = old(backlight).level_spec();
            &&& final(backlight).level_spec() == gpiote_level(level, touch)
            &&& power_off ==> final(backlight).drives(0)
            &&& !power_off && power_on ==> final(backlight).drives(final(backlight).level_spec())
            &&& !power_off && !power_on && touch && level < 7 ==> final(backlight).drives(
                final(backlight).level_spec(),
            )
            &&& !power_off && !power_on && !(touch && level < 7) ==> final(backlight).lines_spec()
                == old(backlight).lines_spec()
        }),
{
    if bank.is_triggered(CH_BUTTON_DOWN) {
        bank.acknowledge(CH_BUTTON_DOWN);
    }

    if bank.is_triggered(CH_BUTTON_UP) {
        bank.acknowledge(CH_BUTTON_UP);
        state.running = true;
    }

    if bank.is_triggered(CH_TOUCH) {
        bank.acknowledge(CH_TOUCH);
        backlight.increase();
    }

    if bank.is_triggered(CH_ACCEL) {
        bank.acknowledge(CH_ACCEL);
    }

    if bank.is_triggered(CH_CHARGING_ON) {
        bank.acknowledge(CH_CHARGING_ON);
    }

    if bank.is_triggered(CH_CHARGING_OFF) {
        bank.acknowledge(CH_CHARGING_OFF);
    }

    if bank.is_triggered(CH_POWER_ON) {
        bank.acknowledge(CH_POWER_ON);
        backlight.on();
    }

    if bank.is_triggered(CH_POWER_OFF) {
        bank.acknowledge(CH_POWER_OFF);
        backlight.off();
    }
}

/// The backlight level after the edge-event task: one saturating step
/// up when a touch was latched.
pub open spec fn gpiote_level(level: u8, touch: bool) -> u8 {
    if touch && level < 7 {
        (level + 1) as u8
    } else {
        level
    }
}

/// The screen row a raw sample lands on: its distance above the running
/// minimum, rescaled to `[0, PLOT_SCALE]` by the observed range.
pub open spec fn plot_row(raw: u32, low: u32, range: u32) -> int {
    (raw - low) * PLOT_SCALE / (range as int)
}

/// Body of the UI refresh task, as drawing commands: erase the current
/// column, then — once a range has been observed — paint the newest
/// sample, joined to the previous one unless the chart just wrapped to
/// column 0.  Every command stays on screen.
pub fn update_ui_task(state: &State) -> (r: Vec<DrawCmd>)
    requires
        state.heart_rate_sensor.wf(),
    ensures
        forall|k: int| 0 <= k < r@.len() ==> (#[trigger] r@[k]).on_screen(),
        r@.len() == (if state.heart_rate_sensor.min_spec() < state.heart_rate_sensor.max_spec() {
            2int
        } else {
            1int
        }),
        r@[0] == (DrawCmd::ClearColumn { x: state.heart_rate_sensor.index_spec() as u32 }),
        state.heart_rate_sensor.min_spec() < state.heart_rate_sensor.max_spec() ==> {
            let hrs = state.heart_rate_sensor;
            let range = hrs.max_spec() - hrs.min_spec();
            let row = plot_row(hrs.samples()[hrs.index_spec()], hrs.min_spec(), range as u32);
            if hrs.index_spec() == 0 {
                r@[1] == (DrawCmd::Point { x: 0, y: row as u32 })
            } else {
                r@[1] == (DrawCmd::Segment {
                    x0: (hrs.index_spec() - 1) as u32,
                    y0: plot_row(
                        hrs.samples()[hrs.index_spec() - 1],
                        hrs.min_spec(),
                        range as u32,
                    ) as u32,
                    x1: hrs.index_spec() as u32,
                    y1: row as u32,
                })
            }
        },
{
    let hrs = &state.heart_rate_sensor;
    let mut commands: Vec<DrawCmd> = Vec::new();

    let index = hrs.index();
    commands.push(DrawCmd::ClearColumn { x: index as u32 });

    let range_known = hrs.min() < hrs.max();
    if range_known {
        let (index, norm) = hrs.value_norm();
        let row = norm.scaled(PLOT_SCALE);
        if index == 0 {
            commands.push(DrawCmd::Point { x: 0, y: row });
        } else {
            let (prev_index, prev_norm) = hrs.prev_value_norm();
            let prev_row = prev_norm.scaled(PLOT_SCALE);
            commands.push(
                DrawCmd::Segment {
                    x0: prev_index as u32,
                    y0: prev_row,
                    x1: index as u32,
                    y1: row,
                },
            );
        }
    }
    commands
}

} // verus!
