use xochron::backlight::{Backlight, LineDrive};
use xochron::channels::{ChannelBank, Polarity};
use xochron::clock::TickAccumulator;
use xochron::heart_rate::HeartRateSensor;
use xochron::scheduler::{Scheduler, Trigger};
use xochron::ui::DrawCmd;
use xochron::watch::{
    configure_watch_channels, gpiote_task, rtc0_task, update_ui_task, watch_tasks, State,
    BUTTON_LINE, CH_BUTTON_DOWN, CH_BUTTON_UP, CH_POWER_OFF, CH_POWER_ON, CH_TOUCH, GPIOTE,
    GPIOTE_PRIORITY, MEASURE_HR, MEASURE_HR_PRIORITY, POWER_LINE, RTC0, RTC0_PRIORITY,
    SAMPLE_MASK, SECOND_MASK, TOUCH_LINE, UPDATE_UI, UPDATE_UI_PRIORITY,
};

fn fresh_state() -> State {
    State { running: false, heart_rate_sensor: HeartRateSensor::new().unwrap() }
}

fn fresh_backlight(level: u8) -> Backlight {
    Backlight::new(level, LineDrive::Released, LineDrive::Released, LineDrive::Released)
}

#[test]
fn task_table_matches_the_device() {
    let tasks = watch_tasks();
    assert_eq!(tasks.len(), 4);
    assert_eq!(tasks[UPDATE_UI].priority, UPDATE_UI_PRIORITY);
    assert_eq!(tasks[MEASURE_HR].priority, MEASURE_HR_PRIORITY);
    assert_eq!(tasks[RTC0].priority, RTC0_PRIORITY);
    assert_eq!(tasks[GPIOTE].priority, GPIOTE_PRIORITY);
    assert!(matches!(tasks[UPDATE_UI].trigger, Trigger::SpawnOnly));
    assert!(matches!(tasks[MEASURE_HR].trigger, Trigger::SpawnOnly));
    assert!(matches!(tasks[RTC0].trigger, Trigger::Periodic));
    assert!(matches!(tasks[GPIOTE].trigger, Trigger::Interrupt(_)));
}

#[test]
fn rtc0_task_ignores_a_pass_without_a_tick_event() {
    let mut acc = TickAccumulator::new(SECOND_MASK, SAMPLE_MASK);
    let cue = rtc0_task(&mut acc, 127, false);
    assert!(!cue);
    assert_eq!(acc.clock().seconds(), 0);
}

#[test]
fn rtc0_task_advances_clock_and_cues_sampling() {
    let mut acc = TickAccumulator::new(SECOND_MASK, SAMPLE_MASK);
    assert!(rtc0_task(&mut acc, 127, true));
    assert_eq!(acc.clock().seconds(), 1);
    assert!(!rtc0_task(&mut acc, 128, true));
    assert_eq!(acc.clock().seconds(), 1);
    assert!(rtc0_task(&mut acc, 129, true));
    assert_eq!(acc.clock().seconds(), 1);
}

#[test]
fn button_release_arms_measuring() {
    let mut bank = ChannelBank::new();
    configure_watch_channels(&mut bank);
    let mut backlight = fresh_backlight(2);
    let mut state = fresh_state();

    bank.on_edge(BUTTON_LINE, Polarity::Falling); // press
    gpiote_task(&mut bank, &mut backlight, &mut state);
    assert!(!state.running);

    bank.on_edge(BUTTON_LINE, Polarity::Rising); // release
    gpiote_task(&mut bank, &mut backlight, &mut state);
    assert!(state.running);
}

#[test]
fn touch_steps_the_backlight_up() {
    let mut bank = ChannelBank::new();
    configure_watch_channels(&mut bank);
    let mut backlight = fresh_backlight(2);
    let mut state = fresh_state();

    bank.on_edge(TOUCH_LINE, Polarity::Rising);
    gpiote_task(&mut bank, &mut backlight, &mut state);
    assert_eq!(backlight.level(), 3);
    assert_eq!(
        backlight.lines(),
        (LineDrive::Asserted, LineDrive::Asserted, LineDrive::Released)
    );
}

#[test]
fn power_gone_darkens_without_forgetting() {
    let mut bank = ChannelBank::new();
    configure_watch_channels(&mut bank);
    let mut backlight = fresh_backlight(2);
    let mut state = fresh_state();

    bank.on_edge(POWER_LINE, Polarity::Rising); // power disconnected
    gpiote_task(&mut bank, &mut backlight, &mut state);
    assert_eq!(backlight.level(), 2);
    assert_eq!(
        backlight.lines(),
        (LineDrive::Released, LineDrive::Released, LineDrive::Released)
    );

    bank.on_edge(POWER_LINE, Polarity::Falling); // power connected
    gpiote_task(&mut bank, &mut backlight, &mut state);
    assert_eq!(backlight.level(), 2);
    assert_eq!(
        backlight.lines(),
        (LineDrive::Released, LineDrive::Asserted, LineDrive::Released)
    );
}

#[test]
fn one_pass_drains_every_latched_channel() {
    let mut bank = ChannelBank::new();
    configure_watch_channels(&mut bank);
    let mut backlight = fresh_backlight(2);
    let mut state = fresh_state();

    // several edges coalesce into one hardware dispatch
    bank.on_edge(BUTTON_LINE, Polarity::Falling);
    bank.on_edge(BUTTON_LINE, Polarity::Rising);
    bank.on_edge(TOUCH_LINE, Polarity::Rising);
    assert_eq!(bank.poll(), vec![CH_BUTTON_DOWN, CH_BUTTON_UP, CH_TOUCH]);

    gpiote_task(&mut bank, &mut backlight, &mut state);
    assert_eq!(bank.poll(), Vec::<usize>::new());
    assert!(state.running);
    assert_eq!(backlight.level(), 3);
}

#[test]
fn gpiote_handles_touch_and_power_off_in_channel_order() {
    let mut bank = ChannelBank::new();
    configure_watch_channels(&mut bank);
    let mut backlight = fresh_backlight(2);
    let mut state = fresh_state();

    assert!(CH_TOUCH < CH_POWER_ON && CH_POWER_ON < CH_POWER_OFF);
    bank.on_edge(TOUCH_LINE, Polarity::Rising);
    bank.on_edge(POWER_LINE, Polarity::Rising);
    gpiote_task(&mut bank, &mut backlight, &mut state);
    // the touch raised the stored level, but power-off drove the lines dark last
    assert_eq!(backlight.level(), 3);
    assert_eq!(
        backlight.lines(),
        (LineDrive::Released, LineDrive::Released, LineDrive::Released)
    );
}

#[test]
fn update_ui_only_erases_before_any_range() {
    let state = fresh_state();
    let commands = update_ui_task(&state);
    assert_eq!(commands, vec![DrawCmd::ClearColumn { x: 0 }]);
}

#[test]
fn update_ui_draws_a_segment_between_the_two_newest_points() {
    let mut state = fresh_state();
    state.heart_rate_sensor.update_hrs(100);
    state.heart_rate_sensor.update_hrs(300);
    let commands = update_ui_task(&state);
    assert_eq!(commands.len(), 2);
    assert_eq!(commands[0], DrawCmd::ClearColumn { x: 2 });
    // previous sample 100 is the minimum (row 0); newest 300 the maximum (row 239)
    assert_eq!(
        commands[1],
        DrawCmd::Segment { x0: 1, y0: 0, x1: 2, y1: 239 }
    );
}

#[test]
fn update_ui_draws_a_point_when_the_chart_wraps() {
    let mut state = fresh_state();
    state.heart_rate_sensor.update_hrs(100);
    state.heart_rate_sensor.update_hrs(300);
    // push until the write index wraps to column 0
    for _ in 2..240 {
        state.heart_rate_sensor.update_hrs(200);
    }
    assert_eq!(state.heart_rate_sensor.index(), 0);
    let commands = update_ui_task(&state);
    assert_eq!(commands.len(), 2);
    assert_eq!(commands[0], DrawCmd::ClearColumn { x: 0 });
    assert_eq!(commands[1], DrawCmd::Point { x: 0, y: 119 });
}

#[test]
fn button_scenario_end_to_end() {
    // hardware: a falling edge on line 13 latches the button-down channel
    let mut bank = ChannelBank::new();
    configure_watch_channels(&mut bank);
    let mut sched = Scheduler::new(watch_tasks());

    bank.on_edge(BUTTON_LINE, Polarity::Falling);
    // polled twice before acknowledgment: still one latched trigger
    assert!(bank.is_triggered(CH_BUTTON_DOWN));
    assert!(bank.is_triggered(CH_BUTTON_DOWN));

    // the edge marks the handling task pending; it dispatches at its priority
    sched.spawn(GPIOTE);
    assert_eq!(sched.dispatch(), Some(GPIOTE));
    let mut backlight = fresh_backlight(2);
    let mut state = fresh_state();
    gpiote_task(&mut bank, &mut backlight, &mut state);
    sched.finish();

    assert!(!bank.is_triggered(CH_BUTTON_DOWN));
    // a subsequent identical transition latches again
    bank.on_edge(BUTTON_LINE, Polarity::Falling);
    assert!(bank.is_triggered(CH_BUTTON_DOWN));
}
