//! Timer arithmetic against a monotonic clock.
//!
//! All times are in microseconds. A timestamp is a `u64` reading of a clock
//! that never goes back; a duration is a `u32`.

use vstd::prelude::*;

verus! {

/// The six protocol timers. The first three belong to the sender, the last
/// three to the receiver.
#[derive(Clone, Copy, Debug, PartialEq, Eq, Structural)]
pub enum Timer {
    /// Sender: time allowed for one frame to be transmitted.
    NAs,
    /// Sender: time allowed until the next flow control frame arrives.
    NBs,
    /// Sender: time allowed until the next consecutive frame is sent.
    NCs,
    /// Receiver: time allowed for one frame to be transmitted.
    NAr,
    /// Receiver: time allowed until the next flow control frame is sent.
    NBr,
    /// Receiver: time allowed until the next consecutive frame arrives.
    NCr,
}

/// The upper bound that ISO 15765-2 gives for each timer: 1000 ms.
pub const DEFAULT_TIMEOUT_US: u32 = 1_000_000;

/// The separation time used where a flow control frame carries a reserved
/// code: 1 ms.
pub const RESERVED_SEPARATION_US: u32 = 1_000;

/// The duration of each timer, in microseconds.
#[derive(Clone, Copy, Debug, PartialEq, Eq, Structural)]
pub struct TimerConfig {
    pub n_as: u32,
    pub n_bs: u32,
    pub n_cs: u32,
    pub n_ar: u32,
    pub n_br: u32,
    pub n_cr: u32,
}

impl TimerConfig {
    /// The configured duration of `timer`.
    pub open spec fn spec_duration(self, timer: Timer) -> u32 {
        match timer {
            Timer::NAs => self.n_as,
            Timer::NBs => self.n_bs,
            Timer::NCs => self.n_cs,
            Timer::NAr => self.n_ar,
            Timer::NBr => self.n_br,
            Timer::NCr => self.n_cr,
        }
    }

    /// The configured duration of `timer`.
    #[verifier::when_used_as_spec(spec_duration)]
    pub fn duration(self, timer: Timer) -> (d: u32)
        ensures
            d == self.spec_duration(timer),
    {
        match timer {
            Timer::NAs => self.n_as,
            Timer::NBs => self.n_bs,
            Timer::NCs => self.n_cs,
            Timer::NAr => self.n_ar,
            Timer::NBr => self.n_br,
            Timer::NCr => self.n_cr,
        }
    }

    /// Every timer at the upper bound that ISO 15765-2 gives: 1000 ms.
    pub open spec fn iso_default() -> TimerConfig {
        TimerConfig {
            n_as: DEFAULT_TIMEOUT_US,
            n_bs: DEFAULT_TIMEOUT_US,
            n_cs: DEFAULT_TIMEOUT_US,
            n_ar: DEFAULT_TIMEOUT_US,
            n_br: DEFAULT_TIMEOUT_US,
            n_cr: DEFAULT_TIMEOUT_US,
        }
    }

    /// Starts `timer` at time `now`.
    pub fn arm(self, timer: Timer, now: u64) -> (deadline: Deadline)
        ensures
            deadline == spec_arm(self, timer, now),
    {
        Deadline { timer, expires_at: deadline_after(now, self.duration(timer)) }
    }
}

impl Default for TimerConfig {
    /// Every timer at the upper bound of ISO 15765-2.
    fn default() -> (config: TimerConfig)
        ensures
            config == TimerConfig::iso_default(),
    {
        TimerConfig {
            n_as: DEFAULT_TIMEOUT_US,
            n_bs: DEFAULT_TIMEOUT_US,
            n_cs: DEFAULT_TIMEOUT_US,
            n_ar: DEFAULT_TIMEOUT_US,
            n_br: DEFAULT_TIMEOUT_US,
            n_cr: DEFAULT_TIMEOUT_US,
        }
    }
}

/// A running timer: which one it is, and the last instant at which it has
/// not yet run out.
#[derive(Clone, Copy, Debug, PartialEq, Eq, Structural)]
pub struct Deadline {
    pub timer: Timer,
    pub expires_at: u64,
}

/// The instant `duration` after `now`, held at the largest timestamp where
/// the clock's range ends before it.
pub open spec fn spec_deadline_after(now: u64, duration: u32) -> u64 {
    if now + duration <= u64::MAX {
        (now + duration) as u64
    } else {
        u64::MAX
    }
}

/// The deadline of `timer` when it is started at `now`.
pub open spec fn spec_arm(timers: TimerConfig, timer: Timer, now: u64) -> Deadline {
    Deadline { timer, expires_at: spec_deadline_after(now, timers.spec_duration(timer)) }
}

/// The instant `duration` after `now`.
#[verifier::when_used_as_spec(spec_deadline_after)]
pub fn deadline_after(now: u64, duration: u32) -> (at: u64)
    ensures
        at == spec_deadline_after(now, duration),
{
    let room: u64 = u64::MAX - now;
    if duration as u64 <= room {
        now + duration as u64
    } else {
        u64::MAX
    }
}

/// Whether the instant `at` lies before `now`.
pub open spec fn spec_is_past(at: u64, now: u64) -> bool {
    now > at
}

/// Whether the instant `at` lies before `now`.
#[verifier::when_used_as_spec(spec_is_past)]
pub fn is_past(at: u64, now: u64) -> (past: bool)
    ensures
        past == spec_is_past(at, now),
{
    now > at
}

impl Deadline {
    /// Whether the timer has run out at time `now`: more than its duration
    /// has gone by since it was started.
    pub open spec fn spec_has_expired(self, now: u64) -> bool {
        spec_is_past(self.expires_at, now)
    }

    /// Whether the timer has run out at time `now`.
    #[verifier::when_used_as_spec(spec_has_expired)]
    pub fn has_expired(self, now: u64) -> (expired: bool)
        ensures
            expired == self.spec_has_expired(now),
    {
        is_past(self.expires_at, now)
    }
}

/// A timer that was started at `start` has run out at `now` exactly when
/// more than its duration lies between the two, whatever the clock's range.
pub proof fn lemma_expiry_is_elapsed_time(timers: TimerConfig, timer: Timer, start: u64, now: u64)
    ensures
        spec_arm(timers, timer, start).spec_has_expired(now) <==> now - start
            > timers.spec_duration(timer),
{
}

/// The separation time that a flow control frame asks for with `code`:
/// `0x00..=0x7F` are milliseconds, `0xF1..=0xF9` are 100 to 900
/// microseconds, and every other code is reserved and stands for 1 ms.
pub open spec fn spec_separation_time_us(code: u8) -> u32 {
    if code <= 0x7F {
        (code * 1000) as u32
    } else if 0xF1 <= code <= 0xF9 {
        ((code - 0xF0) * 100) as u32
    } else {
        RESERVED_SEPARATION_US
    }
}

/// The separation time that a flow control frame asks for with `code`, in
/// microseconds.
#[verifier::when_used_as_spec(spec_separation_time_us)]
pub fn separation_time_us(code: u8) -> (us: u32)
    ensures
        us == spec_separation_time_us(code),
        us <= 127_000,
{
    if code <= 0x7F {
        code as u32 * 1000
    } else if 0xF1 <= code && code <= 0xF9 {
        (code - 0xF0) as u32 * 100
    } else {
        RESERVED_SEPARATION_US
    }
}

} // verus!
