//! Timers: a timer token together with the configuration it was programmed with.
use vstd::prelude::*;
use crate::chip::HwTimer;
use crate::config::{SpeedMode, TimerConfig};
use crate::error::{status_result, DriverError};

verus! {

/// Duty resolution that every timer is programmed with, in bits.
pub const DUTY_RESOLUTION_BITS: u32 = 8;

/// The timer configuration to hand to the driver.
#[derive(Clone, Copy, Debug, PartialEq, Eq, Structural)]
pub struct TimerRequest {
    pub speed_mode: SpeedMode,
    pub timer_num: u8,
    pub duty_resolution_bits: u32,
    pub freq_hz: u32,
    /// The driver picks the clock source itself.
    pub auto_clock: bool,
}

/// The request that configures timer unit `unit` for `config`.
pub open spec fn timer_request(unit: u8, config: TimerConfig) -> TimerRequest {
    TimerRequest {
        speed_mode: config.speed_mode,
        timer_num: unit,
        duty_resolution_bits: DUTY_RESOLUTION_BITS,
        freq_hz: config.frequency.0,
        auto_clock: true,
    }
}

/// A configured timer. It owns its token until it is released.
pub struct Timer<T: HwTimer> {
    instance: T,
    speed_mode: SpeedMode,
}

impl<T: HwTimer> Timer<T> {
    /// The token the timer owns.
    pub closed spec fn token(&self) -> T {
        self.instance
    }

    /// The speed mode the timer was configured with.
    pub closed spec fn mode(&self) -> SpeedMode {
        self.speed_mode
    }

    /// The timer that owns `instance` and was configured with `config`.
    pub closed spec fn configured(instance: T, config: TimerConfig) -> Self {
        Timer { instance, speed_mode: config.speed_mode }
    }

    /// The request to hand to the driver before [`Timer::new`].
    pub fn request(config: &TimerConfig) -> (r: TimerRequest)
        ensures
            r == timer_request(T::unit(), *config),
    {
        TimerRequest {
            speed_mode: config.speed_mode,
            timer_num: T::timer(),
            duty_resolution_bits: DUTY_RESOLUTION_BITS,
            freq_hz: config.frequency.0,
            auto_clock: true,
        }
    }

    /// Takes ownership of `instance` once the driver answered `status` to
    /// `Timer::request(config)`; a failure status is returned as the error.
    pub fn new(instance: T, config: &TimerConfig, status: i32) -> (r: Result<Self, DriverError>)
        ensures
            r is Ok <==> status_result(status) is Ok,
            r is Ok ==> r->Ok_0 == Self::configured(instance, *config),
            r is Ok ==> r->Ok_0.token() == instance && r->Ok_0.mode() == config.speed_mode,
            r is Err ==> Err::<(), DriverError>(r->Err_0) == status_result(status),
    {
        match DriverError::check(status) {
            Ok(()) => Ok(Timer { instance, speed_mode: config.speed_mode }),
            Err(e) => Err(e),
        }
    }

    /// The speed mode the timer was configured with.
    pub fn speed_mode(&self) -> (r: SpeedMode)
        ensures
            r == self.mode(),
    {
        self.speed_mode
    }

    /// Gives the token back. The physical timer keeps running.
    pub fn release(self) -> (r: Result<T, DriverError>)
        ensures
            r == Ok::<T, DriverError>(self.token()),
    {
        Ok(self.instance)
    }
}

/// A timer configured with `config` has that speed mode, and releasing it
/// hands back the very token it was built from.
pub proof fn lemma_release_returns_token<T: HwTimer>(instance: T, config: TimerConfig)
    ensures
        Timer::<T>::configured(instance, config).token() == instance,
        Timer::<T>::configured(instance, config).mode() == config.speed_mode,
{
}

} // verus!
