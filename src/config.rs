//! Timer configuration.
use vstd::prelude::*;

verus! {

/// Frequency a timer runs at when nothing else is asked for, in hertz.
pub const DEFAULT_FREQUENCY_HZ: u32 = 1000;

/// A frequency in hertz.
#[derive(Clone, Copy, Debug, PartialEq, Eq, Structural)]
pub struct Hertz(pub u32);

/// Clock domain of a timer and of the channels bound to it.
#[derive(Clone, Copy, Debug, PartialEq, Eq, Structural)]
pub enum SpeedMode {
    Low,
    High,
}

/// Frequency and speed mode that a timer is configured with.
#[derive(Clone, Copy, Debug, PartialEq, Eq, Structural)]
pub struct TimerConfig {
    pub frequency: Hertz,
    pub speed_mode: SpeedMode,
}

impl TimerConfig {
    /// The same configuration with frequency `f`.
    pub fn frequency(self, f: Hertz) -> (r: Self)
        ensures
            r == (TimerConfig { frequency: f, ..self }),
    {
        TimerConfig { frequency: f, ..self }
    }

    /// The same configuration with speed mode `mode`.
    pub fn speed_mode(self, mode: SpeedMode) -> (r: Self)
        ensures
            r == (TimerConfig { speed_mode: mode, ..self }),
    {
        TimerConfig { speed_mode: mode, ..self }
    }
}

impl Default for TimerConfig {
    /// 1000 Hz in low speed mode.
    fn default() -> (r: Self)
        ensures
            r.frequency == Hertz(DEFAULT_FREQUENCY_HZ),
            r.speed_mode == SpeedMode::Low,
    {
        TimerConfig { frequency: Hertz(DEFAULT_FREQUENCY_HZ), speed_mode: SpeedMode::Low }
    }
}

} // verus!
