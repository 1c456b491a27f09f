use ledc::{
    Channel, ChannelRequest, DriverError, DutyCommit, FadeInit, Hertz, HwChannel, HwTimer,
    OutputPin, Peripheral, SpeedMode, Timer, TimerConfig, TimerRequest, CHANNEL0, CHANNEL1,
    CHANNEL2, CHANNEL5, TIMER0, TIMER1, TIMER3,
};

struct Gpio(i32);

impl OutputPin for Gpio {
    fn pin(&self) -> i32 {
        self.0
    }
}

/// Stands in for the vendor driver: answers with fixed statuses and records
/// every call.
struct FakeDriver {
    fade_status: i32,
    fade_calls: usize,
    channel_requests: Vec<ChannelRequest>,
    commits: Vec<DutyCommit>,
}

impl FakeDriver {
    fn new(fade_status: i32) -> Self {
        FakeDriver { fade_status, fade_calls: 0, channel_requests: Vec::new(), commits: Vec::new() }
    }

    fn install_fade(&mut self) -> i32 {
        self.fade_calls += 1;
        self.fade_status
    }

    fn configure_channel(&mut self, r: ChannelRequest) -> i32 {
        self.channel_requests.push(r);
        0
    }

    fn commit(&mut self, c: DutyCommit) -> Result<(), DriverError> {
        self.commits.push(c);
        DriverError::check(0)
    }
}

/// Channel construction as the application runs it.
fn open_channel<'a, C: HwChannel, T: HwTimer>(
    driver: &mut FakeDriver,
    fade: &mut FadeInit,
    token: C,
    timer: &'a Timer<T>,
    pin: Gpio,
) -> Result<Channel<'a, C, T, Gpio>, DriverError> {
    if fade.needs_install() {
        let status = driver.install_fade();
        fade.record_install(status)?;
    }
    let status = driver.configure_channel(Channel::<C, T, Gpio>::request(timer, pin.pin()));
    Channel::new(token, timer, pin, status)
}

fn tokens() -> Peripheral {
    let mut taken = false;
    Peripheral::new(&mut taken).unwrap()
}

#[test]
fn default_config_is_1000_hz_low_speed() {
    let c = TimerConfig::default();
    assert_eq!(c.frequency, Hertz(1000));
    assert_eq!(c.speed_mode, SpeedMode::Low);
}

#[test]
fn config_builders_replace_one_field() {
    let c = TimerConfig::default().frequency(Hertz(25000)).speed_mode(SpeedMode::High);
    assert_eq!(c, TimerConfig { frequency: Hertz(25000), speed_mode: SpeedMode::High });
    let d = c.frequency(Hertz(5));
    assert_eq!(d.speed_mode, SpeedMode::High);
    assert_eq!(d.frequency, Hertz(5));
}

#[test]
fn peripheral_is_handed_out_once() {
    let mut taken = false;
    assert!(Peripheral::new(&mut taken).is_some());
    assert!(taken);
    assert!(Peripheral::new(&mut taken).is_none());
    assert!(taken);
}

#[test]
fn token_units_are_numbered() {
    assert_eq!(TIMER0::timer(), 0);
    assert_eq!(TIMER3::timer(), 3);
    assert_eq!(CHANNEL0::channel(), 0);
    assert_eq!(CHANNEL5::channel(), 5);
}

#[test]
fn driver_status_check() {
    assert_eq!(DriverError::check(0), Ok(()));
    let e = DriverError::check(258).unwrap_err();
    assert_eq!(e, DriverError { code: 258 });
    assert_eq!(e.code(), 258);
}

#[test]
fn timer_request_carries_config() {
    let cfg = TimerConfig::default().frequency(Hertz(25000)).speed_mode(SpeedMode::High);
    assert_eq!(
        Timer::<TIMER1>::request(&cfg),
        TimerRequest {
            speed_mode: SpeedMode::High,
            timer_num: 1,
            duty_resolution_bits: 8,
            freq_hz: 25000,
            auto_clock: true,
        }
    );
}

#[test]
fn timer_new_then_release_returns_token() {
    let p = tokens();
    let cfg = TimerConfig::default().speed_mode(SpeedMode::High);
    let t = Timer::new(p.timer3, &cfg, 0).unwrap();
    assert_eq!(t.speed_mode(), SpeedMode::High);
    let token: TIMER3 = t.release().unwrap();
    let again = Timer::new(token, &TimerConfig::default(), 0).unwrap();
    assert_eq!(again.speed_mode(), SpeedMode::Low);
}

#[test]
fn timer_new_passes_driver_error_on() {
    let p = tokens();
    let r = Timer::new(p.timer0, &TimerConfig::default(), 259);
    assert_eq!(r.err(), Some(DriverError { code: 259 }));
}

#[test]
fn channel_request_matches_timer_and_pin() {
    let p = tokens();
    let cfg = TimerConfig::default().speed_mode(SpeedMode::High);
    let t = Timer::new(p.timer1, &cfg, 0).unwrap();
    assert_eq!(
        Channel::<CHANNEL2, TIMER1, Gpio>::request(&t, 7),
        ChannelRequest {
            speed_mode: SpeedMode::High,
            channel: 2,
            timer_sel: 1,
            interrupt_enabled: false,
            gpio_num: 7,
            duty: 0,
            hpoint: 0,
        }
    );
}

#[test]
fn channel_new_passes_driver_error_on() {
    let p = tokens();
    let t = Timer::new(p.timer0, &TimerConfig::default(), 0).unwrap();
    let r = Channel::new(p.channel0, &t, Gpio(1), 260);
    assert_eq!(r.err(), Some(DriverError { code: 260 }));
}

#[test]
fn new_channel_starts_at_duty_zero() {
    let p = tokens();
    let t = Timer::new(p.timer0, &TimerConfig::default(), 0).unwrap();
    let ch = Channel::new(p.channel1, &t, Gpio(4), 0).unwrap();
    assert_eq!(ch.get_duty(), 0);
    let (token, pin) = ch.release().unwrap();
    assert_eq!(CHANNEL1::channel(), 1);
    assert_eq!(pin.pin(), 4);
    drop(token);
}

#[test]
fn set_duty_then_get_duty_for_every_value() {
    let p = tokens();
    let t = Timer::new(p.timer0, &TimerConfig::default(), 0).unwrap();
    let mut ch = Channel::new(p.channel0, &t, Gpio(1), 0).unwrap();
    for d in 0..=255u8 {
        let c = ch.set_duty(d);
        assert_eq!(c.duty, d as u32);
        assert_eq!(ch.get_duty(), d);
    }
}

#[test]
fn disable_then_enable_restores_duty() {
    let p = tokens();
    let t = Timer::new(p.timer0, &TimerConfig::default(), 0).unwrap();
    let mut ch = Channel::new(p.channel0, &t, Gpio(1), 0).unwrap();
    ch.set_duty(200);
    let off = ch.disable();
    assert_eq!(off.duty, 0);
    assert_eq!(ch.get_duty(), 200);
    let on = ch.enable();
    assert_eq!(on.duty, 200);
    assert_eq!(on.hpoint, 0);
}

#[test]
fn max_duty_is_255_in_every_configuration() {
    let p = tokens();
    let low = Timer::new(p.timer0, &TimerConfig::default(), 0).unwrap();
    let cfg = TimerConfig::default().frequency(Hertz(40_000)).speed_mode(SpeedMode::High);
    let high = Timer::new(p.timer1, &cfg, 0).unwrap();
    let mut a = Channel::new(p.channel0, &low, Gpio(1), 0).unwrap();
    let b = Channel::new(p.channel1, &high, Gpio(2), 0).unwrap();
    assert_eq!(a.get_max_duty(), 255);
    assert_eq!(b.get_max_duty(), 255);
    a.set_duty(3);
    assert_eq!(a.get_max_duty(), 255);
}

#[test]
fn fade_activated_once_for_many_channels() {
    let p = tokens();
    let mut driver = FakeDriver::new(0);
    let mut fade = FadeInit::new();
    let t = Timer::new(p.timer0, &TimerConfig::default(), 0).unwrap();
    let c0 = open_channel(&mut driver, &mut fade, p.channel0, &t, Gpio(1)).unwrap();
    let c1 = open_channel(&mut driver, &mut fade, p.channel1, &t, Gpio(2)).unwrap();
    let c5 = open_channel(&mut driver, &mut fade, p.channel5, &t, Gpio(3)).unwrap();
    let c2 = open_channel(&mut driver, &mut fade, p.channel2, &t, Gpio(4)).unwrap();
    assert_eq!(driver.fade_calls, 1);
    assert!(fade.is_installed());
    assert_eq!(driver.channel_requests.len(), 4);
    assert_eq!(driver.channel_requests[2].channel, 5);
    drop((c0, c1, c5, c2));
}

#[test]
fn scenario_25khz_low_speed_duty_64() {
    let p = tokens();
    let mut driver = FakeDriver::new(0);
    let mut fade = FadeInit::new();
    let cfg = TimerConfig::default().frequency(Hertz(25000)).speed_mode(SpeedMode::Low);
    assert_eq!(Timer::<TIMER0>::request(&cfg).freq_hz, 25000);
    let t = Timer::new(p.timer0, &cfg, 0).unwrap();
    let mut ch = open_channel(&mut driver, &mut fade, p.channel0, &t, Gpio(1)).unwrap();
    let c = ch.set_duty(64);
    driver.commit(c).unwrap();
    assert_eq!(ch.get_duty(), 64);
    assert_eq!(
        driver.commits,
        vec![DutyCommit { speed_mode: SpeedMode::Low, channel: 0, duty: 64, hpoint: 0 }]
    );
    assert_eq!(driver.channel_requests[0].gpio_num, 1);
}

#[test]
fn scenario_failed_fade_activation_is_retried() {
    let p = tokens();
    let mut fade = FadeInit::new();
    let t = Timer::new(p.timer1, &TimerConfig::default(), 0).unwrap();
    let mut failing = FakeDriver::new(261);
    let r = open_channel(&mut failing, &mut fade, p.channel0, &t, Gpio(1));
    assert_eq!(r.err(), Some(DriverError { code: 261 }));
    assert!(!fade.is_installed());
    assert!(failing.channel_requests.is_empty());
    let mut working = FakeDriver::new(0);
    let ch = open_channel(&mut working, &mut fade, p.channel1, &t, Gpio(2)).unwrap();
    assert!(fade.is_installed());
    assert_eq!(working.fade_calls, 1);
    assert_eq!(ch.get_duty(), 0);
}
