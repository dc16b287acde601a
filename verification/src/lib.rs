//! Runtime core of a battery-powered wearable: a priority-ceiling task
//! scheduler together with the feeder subsystems the tasks render from —
//! an edge-triggered event channel bank, a real-time-clock tick
//! accumulator, a circular heart-rate sample buffer, and a three-line
//! backlight state machine.
//!
//! Everything here is plain data and verified logic.  Hardware access
//! (pin drives, the I2C sensor read, the display bus) happens outside the
//! library; the functions here take the values such reads produce and hand
//! back the values such writes need.

pub mod backlight;
pub mod channels;
pub mod clock;
pub mod heart_rate;
pub mod sample_store;
pub mod scheduler;
pub mod ui;
pub mod watch;
