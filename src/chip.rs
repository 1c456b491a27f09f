//! Resource tokens: one move-only type per physical timer and channel unit.
//!
//! A token can only be made by [`Peripheral::new`], which hands out the whole
//! set at most once. None of the token types is `Clone` or `Copy`, so holding
//! one is proof of exclusive use of its unit.
#![allow(non_camel_case_types)]
use vstd::prelude::*;

verus! {

/// Number of timer units.
pub const TIMER_COUNT: u8 = 4;

/// Number of output channel units.
pub const CHANNEL_COUNT: u8 = 6;

/// A timer unit of the peripheral.
pub trait HwTimer {
    /// Index of the unit.
    spec fn unit() -> u8;

    /// Index of the unit, as the driver numbers timers.
    fn timer() -> (r: u8)
        ensures
            r == Self::unit(),
            r < TIMER_COUNT,
    ;
}

/// An output channel unit of the peripheral.
pub trait HwChannel {
    /// Index of the unit.
    spec fn unit() -> u8;

    /// Index of the unit, as the driver numbers channels.
    fn channel() -> (r: u8)
        ensures
            r == Self::unit(),
            r < CHANNEL_COUNT,
    ;
}

/// Token of timer unit 0.
pub struct TIMER0 {
    _private: (),
}

impl TIMER0 {
    fn new() -> Self {
        TIMER0 { _private: () }
    }
}

impl HwTimer for TIMER0 {
    open spec fn unit() -> u8 {
        0
    }

    fn timer() -> (r: u8) {
        0
    }
}

/// Token of timer unit 1.
pub struct TIMER1 {
    _private: (),
}

impl TIMER1 {
    fn new() -> Self {
        TIMER1 { _private: () }
    }
}

impl HwTimer for TIMER1 {
    open spec fn unit() -> u8 {
        1
    }

    fn timer() -> (r: u8) {
        1
    }
}

/// Token of timer unit 2.
pub struct TIMER2 {
    _private: (),
}

impl TIMER2 {
    fn new() -> Self {
        TIMER2 { _private: () }
    }
}

impl HwTimer for TIMER2 {
    open spec fn unit() -> u8 {
        2
    }

    fn timer() -> (r: u8) {
        2
    }
}

/// Token of timer unit 3.
pub struct TIMER3 {
    _private: (),
}

impl TIMER3 {
    fn new() -> Self {
        TIMER3 { _private: () }
    }
}

impl HwTimer for TIMER3 {
    open spec fn unit() -> u8 {
        3
    }

    fn timer() -> (r: u8) {
        3
    }
}

/// Token of output channel unit 0.
pub struct CHANNEL0 {
    _private: (),
}

impl CHANNEL0 {
    fn new() -> Self {
        CHANNEL0 { _private: () }
    }
}

impl HwChannel for CHANNEL0 {
    open spec fn unit() -> u8 {
        0
    }

    fn channel() -> (r: u8) {
        0
    }
}

/// Token of output channel unit 1.
pub struct CHANNEL1 {
    _private: (),
}

impl CHANNEL1 {
    fn new() -> Self {
        CHANNEL1 { _private: () }
    }
}

impl HwChannel for CHANNEL1 {
    open spec fn unit() -> u8 {
        1
    }

    fn channel() -> (r: u8) {
        1
    }
}

/// Token of output channel unit 2.
pub struct CHANNEL2 {
    _private: (),
}

impl CHANNEL2 {
    fn new() -> Self {
        CHANNEL2 { _private: () }
    }
}

impl HwChannel for CHANNEL2 {
    open spec fn unit() -> u8 {
        2
    }

    fn channel() -> (r: u8) {
        2
    }
}

/// Token of output channel unit 3.
pub struct CHANNEL3 {
    _private: (),
}

impl CHANNEL3 {
    fn new() -> Self {
        CHANNEL3 { _private: () }
    }
}

impl HwChannel for CHANNEL3 {
    open spec fn unit() -> u8 {
        3
    }

    fn channel() -> (r: u8) {
        3
    }
}

/// Token of output channel unit 4.
pub struct CHANNEL4 {
    _private: (),
}

impl CHANNEL4 {
    fn new() -> Self {
        CHANNEL4 { _private: () }
    }
}

impl HwChannel for CHANNEL4 {
    open spec fn unit() -> u8 {
        4
    }

    fn channel() -> (r: u8) {
        4
    }
}

/// Token of output channel unit 5.
pub struct CHANNEL5 {
    _private: (),
}

impl CHANNEL5 {
    fn new() -> Self {
        CHANNEL5 { _private: () }
    }
}

impl HwChannel for CHANNEL5 {
    open spec fn unit() -> u8 {
        5
    }

    fn channel() -> (r: u8) {
        5
    }
}

/// The LED Control peripheral: one token for each of its timers and channels.
pub struct Peripheral {
    pub timer0: TIMER0,
    pub timer1: TIMER1,
    pub timer2: TIMER2,
    pub timer3: TIMER3,
    pub channel0: CHANNEL0,
    pub channel1: CHANNEL1,
    pub channel2: CHANNEL2,
    pub channel3: CHANNEL3,
    pub channel4: CHANNEL4,
    pub channel5: CHANNEL5,
}

impl Peripheral {
    /// Hands out the peripheral's tokens, at most once for each `taken` flag.
    ///
    /// `taken` records whether the tokens were handed out already; the process
    /// keeps a single such flag, so that each token exists at most once.
    pub fn new(taken: &mut bool) -> (r: Option<Self>)
        ensures
            r is Some <==> !*old(taken),
            *final(taken),
    {
        if *taken {
            return None;
        }
        *taken = true;
        Some(Peripheral {
            timer0: TIMER0::new(),
            timer1: TIMER1::new(),
            timer2: TIMER2::new(),
            timer3: TIMER3::new(),
            channel0: CHANNEL0::new(),
            channel1: CHANNEL1::new(),
            channel2: CHANNEL2::new(),
            channel3: CHANNEL3::new(),
            channel4: CHANNEL4::new(),
            channel5: CHANNEL5::new(),
        })
    }
}

} // verus!
