//! Output channels: a channel token bound to a timer and an output pin, with a
//! cache of the duty last asked for.
//!
//! The cache is updated as soon as a duty is set, before the driver commits
//! it. If the commit fails, the cache keeps the duty that was asked for, and a
//! later `enable` commits it again.
use vstd::prelude::*;
use crate::chip::{HwChannel, HwTimer};
use crate::config::SpeedMode;
use crate::error::{status_result, DriverError};
use crate::timer::Timer;

verus! {

/// Phase offset within the period at which every channel's duty starts.
pub const HPOINT: u32 = 0;

/// Largest duty value at the timers' 8-bit resolution.
pub const MAX_DUTY: u8 = 255;

/// An output pin that a channel can drive.
pub trait OutputPin {
    /// The pin's number as the driver knows it.
    fn pin(&self) -> i32;
}

/// The channel configuration to hand to the driver.
#[derive(Clone, Copy, Debug, PartialEq, Eq, Structural)]
pub struct ChannelRequest {
    pub speed_mode: SpeedMode,
    pub channel: u8,
    pub timer_sel: u8,
    pub interrupt_enabled: bool,
    pub gpio_num: i32,
    pub duty: u32,
    pub hpoint: i32,
}

/// A duty to commit to the driver for one channel.
#[derive(Clone, Copy, Debug, PartialEq, Eq, Structural)]
pub struct DutyCommit {
    pub speed_mode: SpeedMode,
    pub channel: u8,
    pub duty: u32,
    pub hpoint: u32,
}

/// What a channel is: its speed mode, its unit, the unit of its timer, and its
/// cached duty.
#[derive(Clone, Copy, Debug, PartialEq, Eq, Structural)]
pub struct ChannelState {
    pub speed_mode: SpeedMode,
    pub channel: u8,
    pub timer: u8,
    pub duty: u8,
}

/// The request that programs channel unit `channel`, clocked by timer unit
/// `timer` in speed mode `mode`, to drive pin `gpio`, starting with duty 0.
pub open spec fn channel_request(mode: SpeedMode, channel: u8, timer: u8, gpio: i32) -> ChannelRequest {
    ChannelRequest {
        speed_mode: mode,
        channel,
        timer_sel: timer,
        interrupt_enabled: false,
        gpio_num: gpio,
        duty: 0,
        hpoint: HPOINT as i32,
    }
}

/// The commit that sets channel `s` to `duty`.
pub open spec fn duty_commit(s: ChannelState, duty: u8) -> DutyCommit {
    DutyCommit { speed_mode: s.speed_mode, channel: s.channel, duty: duty as u32, hpoint: HPOINT }
}

/// Channel `s` with duty `duty` cached.
pub open spec fn with_duty(s: ChannelState, duty: u8) -> ChannelState {
    ChannelState { duty, ..s }
}

/// A channel that owns its token and pin and borrows its timer.
pub struct Channel<'a, C: HwChannel, T: HwTimer, P: OutputPin> {
    instance: C,
    timer: &'a Timer<T>,
    pin: P,
    duty: u8,
}

impl<'a, C: HwChannel, T: HwTimer, P: OutputPin> View for Channel<'a, C, T, P> {
    type V = ChannelState;

    closed spec fn view(&self) -> ChannelState {
        ChannelState {
            speed_mode: self.timer.mode(),
            channel: C::unit(),
            timer: T::unit(),
            duty: self.duty,
        }
    }
}

impl<'a, C: HwChannel, T: HwTimer, P: OutputPin> Channel<'a, C, T, P> {
    /// The token the channel owns.
    pub closed spec fn token(&self) -> C {
        self.instance
    }

    /// The pin the channel owns.
    pub closed spec fn output(&self) -> P {
        self.pin
    }

    /// The request to hand to the driver before [`Channel::new`], for the pin
    /// whose [`OutputPin::pin`] is `gpio_num`. The fade subsystem must have
    /// been activated first (see `FadeInit`).
    pub fn request(timer: &Timer<T>, gpio_num: i32) -> (r: ChannelRequest)
        ensures
            r == channel_request(timer.mode(), C::unit(), T::unit(), gpio_num),
    {
        ChannelRequest {
            speed_mode: timer.speed_mode(),
            channel: C::channel(),
            timer_sel: T::timer(),
            interrupt_enabled: false,
            gpio_num,
            duty: 0,
            hpoint: HPOINT as i32,
        }
    }

    /// Takes ownership of `instance` and `pin` once the driver answered
    /// `status` to `Channel::request(timer, pin.pin())`; a failure status is
    /// returned as the error, and nothing is kept.
    pub fn new(instance: C, timer: &'a Timer<T>, pin: P, status: i32) -> (r: Result<Self, DriverError>)
        ensures
            r is Ok <==> status_result(status) is Ok,
            r is Ok ==> ({
                let c = r->Ok_0;
                &&& c@ == (ChannelState {
                    speed_mode: timer.mode(),
                    channel: C::unit(),
                    timer: T::unit(),
                    duty: 0,
                })
                &&& c.token() == instance
                &&& c.output() == pin
            }),
            r is Err ==> Err::<(), DriverError>(r->Err_0) == status_result(status),
    {
        match DriverError::check(status) {
            Ok(()) => Ok(Channel { instance, timer, pin, duty: 0 }),
            Err(e) => Err(e),
        }
    }

    /// Gives the token and the pin back. The physical channel keeps its duty.
    pub fn release(self) -> (r: Result<(C, P), DriverError>)
        ensures
            r == Ok::<(C, P), DriverError>((self.token(), self.output())),
    {
        Ok((self.instance, self.pin))
    }

    fn commit(&self, duty: u8) -> (r: DutyCommit)
        ensures
            r == duty_commit(self@, duty),
    {
        DutyCommit {
            speed_mode: self.timer.speed_mode(),
            channel: C::channel(),
            duty: duty as u32,
            hpoint: HPOINT,
        }
    }

    /// The commit that turns the output off; the cached duty is kept.
    pub fn disable(&self) -> (r: DutyCommit)
        ensures
            r == duty_commit(self@, 0),
    {
        self.commit(0)
    }

    /// The commit that turns the output back on at the cached duty.
    pub fn enable(&self) -> (r: DutyCommit)
        ensures
            r == duty_commit(self@, self@.duty),
    {
        self.commit(self.duty)
    }

    /// The cached duty.
    pub fn get_duty(&self) -> (r: u8)
        ensures
            r == self@.duty,
    {
        self.duty
    }

    /// The largest duty, whatever the configuration.
    pub fn get_max_duty(&self) -> (r: u8)
        ensures
            r == MAX_DUTY,
    {
        MAX_DUTY
    }

    /// Caches `duty` and returns the commit that sets it.
    pub fn set_duty(&mut self, duty: u8) -> (r: DutyCommit)
        ensures
            final(self)@ == with_duty(old(self)@, duty),
            final(self).token() == old(self).token(),
            final(self).output() == old(self).output(),
            r == duty_commit(final(self)@, duty),
    {
        self.duty = duty;
        self.commit(duty)
    }
}

/// Setting a duty and reading it back gives that duty.
pub proof fn lemma_duty_round_trip(s: ChannelState, duty: u8)
    ensures
        with_duty(s, duty).duty == duty,
{
}

/// After setting `duty`, disabling commits 0 and leaves the channel as it is,
/// so enabling afterwards commits `duty` again.
pub proof fn lemma_enable_restores_duty(s: ChannelState, duty: u8)
    ensures
        duty_commit(with_duty(s, duty), 0).duty == 0,
        duty_commit(with_duty(s, duty), with_duty(s, duty).duty) == duty_commit(s, duty),
{
}

} // verus!
