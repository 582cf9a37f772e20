//! Decision logic of a small audio-player front panel: a three-colour
//! indicator that a debounced button steps through, the PWM settings that
//! show each colour, and the bounded sample queue between a producer and a
//! consumer task.
//!
//! Nothing here touches a peripheral. The firmware owns the pins, the timer
//! and the executor; it hands events to [`control::ControlLoop`] and performs
//! the action that comes back.

pub mod channel;
pub mod control;
pub mod display;
pub mod indicator;
pub mod pwm;
