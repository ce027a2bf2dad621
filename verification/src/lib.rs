//! A Pomodoro-style work/rest timer for a 5x5 monochrome LED matrix with two
//! push-buttons.
//!
//! The crate holds the device's logic: an edge-latching debounce for the two
//! buttons, a mode state machine that starts work and rest intervals and
//! records completed ones as history, and a renderer that turns the current
//! mode into a 5x5 binary frame. Hardware polling, the physical display and
//! the clock live outside; they hand plain values in and take frames out.

pub mod frame;
pub mod history;
pub mod input;
pub mod laws;
pub mod machine;
pub mod render;
