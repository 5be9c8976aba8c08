use teensy4_bsp::isotp::timing::{
    deadline_after, is_past, separation_time_us, Deadline, Timer, TimerConfig,
    DEFAULT_TIMEOUT_US, RESERVED_SEPARATION_US,
};

#[test]
fn default_timers_are_one_second() {
    let timers = TimerConfig::default();
    assert_eq!(DEFAULT_TIMEOUT_US, 1_000_000);
    for timer in [Timer::NAs, Timer::NBs, Timer::NCs, Timer::NAr, Timer::NBr, Timer::NCr] {
        assert_eq!(timers.duration(timer), 1_000_000);
    }
}

#[test]
fn timers_are_configurable_one_by_one() {
    let timers = TimerConfig { n_as: 1, n_bs: 2, n_cs: 3, n_ar: 4, n_br: 5, n_cr: 6 };
    assert_eq!(timers.duration(Timer::NAs), 1);
    assert_eq!(timers.duration(Timer::NBs), 2);
    assert_eq!(timers.duration(Timer::NCs), 3);
    assert_eq!(timers.duration(Timer::NAr), 4);
    assert_eq!(timers.duration(Timer::NBr), 5);
    assert_eq!(timers.duration(Timer::NCr), 6);
}

#[test]
fn deadline_is_start_plus_duration() {
    assert_eq!(deadline_after(0, 0), 0);
    assert_eq!(deadline_after(1_000, 250), 1_250);
    assert_eq!(deadline_after(u64::MAX - 10, 10), u64::MAX);
    assert_eq!(deadline_after(u64::MAX - 10, 11), u64::MAX);
    assert_eq!(deadline_after(u64::MAX, u32::MAX), u64::MAX);
}

#[test]
fn timer_expires_after_its_duration() {
    let timers = TimerConfig { n_bs: 500, ..TimerConfig::default() };
    let deadline = timers.arm(Timer::NBs, 10_000);
    assert_eq!(deadline, Deadline { timer: Timer::NBs, expires_at: 10_500 });
    assert!(!deadline.has_expired(10_000));
    assert!(!deadline.has_expired(10_499));
    assert!(!deadline.has_expired(10_500));
    assert!(deadline.has_expired(10_501));
    assert!(deadline.has_expired(u64::MAX));
    assert!(!is_past(5, 5));
    assert!(is_past(5, 6));
    assert!(!is_past(5, 4));
}

#[test]
fn timer_at_the_end_of_the_clock_never_expires() {
    let timers = TimerConfig::default();
    let deadline = timers.arm(Timer::NCr, u64::MAX - 5);
    assert_eq!(deadline.expires_at, u64::MAX);
    assert!(!deadline.has_expired(u64::MAX));
}

#[test]
fn separation_time_codes() {
    assert_eq!(separation_time_us(0x00), 0);
    assert_eq!(separation_time_us(0x01), 1_000);
    assert_eq!(separation_time_us(0x14), 20_000);
    assert_eq!(separation_time_us(0x7F), 127_000);
    assert_eq!(separation_time_us(0xF1), 100);
    assert_eq!(separation_time_us(0xF5), 500);
    assert_eq!(separation_time_us(0xF9), 900);
    assert_eq!(RESERVED_SEPARATION_US, 1_000);
    for reserved in [0x80u8, 0xA0, 0xF0, 0xFA, 0xFF] {
        assert_eq!(separation_time_us(reserved), 1_000);
    }
}
