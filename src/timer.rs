//! The delay timer, which counts down at 60 Hz of wall-clock time, and the
//! sound timer, which counts down once per executed instruction.

use vstd::prelude::*;

use std::time::{Duration, Instant};

verus! {

/// The shortest sound duration the machine responds to.
pub const MIN_SOUND_DURATION: u8 = 2;

/// Delay-timer decrements per second.
pub const FPS: u32 = 60;

/// Length of one delay-timer unit, in nanoseconds.
pub const WAIT_TIME_NS: u32 = 1_000_000_000 / FPS;

/// A point on the monotonic clock, kept only to measure elapsed time.
#[verifier::external_type_specification]
#[verifier::external_body]
pub struct ExInstant(Instant);

/// Relies on `Instant::now`: reads the clock; nothing is known of the value.
pub assume_specification[ Instant::now ]() -> Instant;

/// Relies on `Instant::elapsed`: the time since `self`; nothing is known of
/// the value.
pub assume_specification[ Instant::elapsed ](i: &Instant) -> Duration;

/// Relies on `Duration::as_nanos`: the whole nanoseconds of the duration,
/// which depend on the clock reading it came from.
pub assume_specification[ Duration::as_nanos ](d: &Duration) -> u128;

/// The value of a delay timer that held `value` once `nanos` nanoseconds
/// have passed: one less per whole unit of `WAIT_TIME_NS`, but never below
/// zero.
pub open spec fn delay_after(value: u8, nanos: u128) -> u8 {
    let units = nanos as int / WAIT_TIME_NS as int;
    if units >= value as int {
        0
    } else {
        (value as int - units) as u8
    }
}

/// A timer for the games' own pacing: it can be set and read, and counts
/// down lazily, from the time it was last set.
pub struct DelayTimer {
    value: u8,
    timer: Instant,
}

/// Used for sound effects: while its value is nonzero the machine beeps.
pub struct SoundTimer(u8);

impl DelayTimer {
    /// The value as last stored or brought up to date.
    pub closed spec fn value(&self) -> u8 {
        self.value
    }

    /// The value as last stored or brought up to date, without counting
    /// down.
    pub fn stored(&self) -> (r: u8)
        ensures
            r == self.value(),
    {
        self.value
    }

    /// The instant the countdown is measured from.
    pub closed spec fn reference(&self) -> Instant {
        self.timer
    }

    pub fn new() -> (r: Self)
        ensures
            r.value() == 0,
    {
        Self { value: 0, timer: Instant::now() }
    }

    pub fn reset(&mut self)
        ensures
            final(self).value() == 0,
            final(self).reference() == old(self).reference(),
    {
        self.value = 0;
    }

    /// Brings the value up to date after `nanos` nanoseconds since the last
    /// update, restarting the measurement when at least one unit passed.
    pub fn advance(&mut self, nanos: u128) -> (r: u8)
        ensures
            r == final(self).value(),
            final(self).value() == delay_after(old(self).value(), nanos),
            nanos / (WAIT_TIME_NS as u128) == 0 ==> final(self).reference() == old(self).reference(),
    {
        let div = nanos / (WAIT_TIME_NS as u128);
        if div > 0 {
            if div >= self.value as u128 {
                self.value = 0;
            } else {
                self.value = self.value - div as u8;
            }
            self.timer = Instant::now();
        }
        self.value
    }

    /// Nanoseconds since the value was last stored or brought up to date.
    pub fn elapsed_nanos(&self) -> (r: u128) {
        let elapsed = self.timer.elapsed();
        elapsed.as_nanos()
    }

    /// The current value, after counting down for the time that passed since
    /// it was last updated.
    pub fn load(&mut self) -> (r: u8)
        ensures
            r == final(self).value(),
            r <= old(self).value(),
            old(self).value() == 0 ==> r == 0,
            exists|nanos: u128| r == delay_after(old(self).value(), nanos),
            old(self).value() == 0 || r == old(self).value() ==> final(self).reference() == old(self).reference(),
    {
        if self.value > 0 {
            let nanos = self.elapsed_nanos();
            let r = self.advance(nanos);
            assert(exists|t: u128| r == delay_after(old(self).value(), t));
            r
        } else {
            proof {
                assert(0 == delay_after(old(self).value(), 0u128));
            }
            0
        }
    }

    /// Sets the value and restarts the countdown.
    pub fn store(&mut self, time: u8)
        ensures
            final(self).value() == time,
    {
        self.value = time;
        self.timer = Instant::now();
    }

    /// Counts down by one unit, not below zero.
    pub fn decrease(&mut self)
        ensures
            final(self).value() == if old(self).value() == 0 { 0 } else { (old(self).value() - 1) as u8 },
            final(self).reference() == old(self).reference(),
    {
        self.value = self.value.saturating_sub(1);
    }
}

impl SoundTimer {
    pub closed spec fn value(&self) -> u8 {
        self.0
    }

    pub fn new() -> (r: Self)
        ensures
            r.value() == 0,
    {
        Self(0)
    }

    pub fn reset(&mut self)
        ensures
            final(self).value() == 0,
    {
        self.0 = 0;
    }

    /// Sets the value; it must be at least `MIN_SOUND_DURATION`.
    pub fn store(&mut self, time: u8)
        requires
            time >= MIN_SOUND_DURATION,
        ensures
            final(self).value() == time,
    {
        self.0 = time;
    }

    /// Counts down by one, not below zero; called once per cycle.
    pub fn decrease(&mut self)
        ensures
            final(self).value() == if old(self).value() == 0 { 0 } else { (old(self).value() - 1) as u8 },
    {
        self.0 = self.0.saturating_sub(1);
    }

    /// Whether the machine should beep now.
    pub fn is_sounding(&self) -> (r: bool)
        ensures
            r == (self.value() > 0),
    {
        self.0 > 0
    }
}

} // verus!
