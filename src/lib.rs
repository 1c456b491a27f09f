//! Ownership-safe driver layer for the LED Control (PWM) peripheral.
//!
//! The peripheral has four timers, which generate a clock of a chosen
//! frequency, and six output channels, each bound to a timer and an output pin.
//! Every physical unit is represented by a move-only token type; a [`Timer`]
//! owns its token, and a [`Channel`] owns its token and pin while borrowing the
//! timer that clocks it.
//!
//! The vendor driver is kept outside this crate. Each operation that must talk
//! to it is split in two: the library computes the exact request to hand to the
//! driver, and then takes the driver's status code to decide the outcome.
use vstd::prelude::*;

pub mod channel;
pub mod chip;
pub mod config;
pub mod error;
pub mod fade;
pub mod timer;


pub use chip::{
    HwChannel, HwTimer, Peripheral, CHANNEL0, CHANNEL1, CHANNEL2, CHANNEL3, CHANNEL4, CHANNEL5,
    TIMER0, TIMER1, TIMER2, TIMER3,
};
pub use config::{Hertz, SpeedMode, TimerConfig};
pub use channel::{Channel, ChannelRequest, ChannelState, DutyCommit, OutputPin};
pub use error::DriverError;
pub use fade::FadeInit;
pub use timer::{Timer, TimerRequest};


