//! The delay timer: an 8-bit counter that loses one unit for every 16
//! milliseconds of real time that pass after it was set, down to zero.
//!
//! Nothing counts in the background. The timer remembers the value it was
//! given and the moment at which that happened, and works out the present
//! value whenever it is asked.

use vstd::prelude::*;
use std::time::Instant;

verus! {

/// Milliseconds of real time per unit of decay (60 Hz, rounded down).
pub const TICK_MILLIS: u8 = 16;

/// `std::time::Instant`, a reading of the monotonic clock. Nothing of what
/// it holds is visible to the proofs.
#[verifier::external_type_specification]
#[verifier::external_body]
pub struct ExInstant(std::time::Instant);

/// `Instant::now` reads the monotonic clock. Nothing is claimed of the
/// reading.
pub assume_specification[ std::time::Instant::now ]() -> (now: std::time::Instant)
;

/// `Instant::elapsed` measures the time since the instant was taken. Nothing
/// is claimed of the measurement.
pub assume_specification[ std::time::Instant::elapsed ](start: &std::time::Instant) -> (elapsed:
    std::time::Duration)
;

/// `Duration::as_millis` gives a duration in whole milliseconds. Nothing is
/// claimed of the number.
pub assume_specification[ std::time::Duration::as_millis ](duration: &std::time::Duration) -> (ms:
    u128)
;

/// The value a timer shows once `elapsed_ms` milliseconds have passed since
/// it was set to `value`: one unit less per whole tick, never below zero.
pub open spec fn decayed(value: u8, elapsed_ms: nat) -> u8 {
    if elapsed_ms / 16 >= value as nat {
        0u8
    } else {
        (value - elapsed_ms / 16) as u8
    }
}

/// Computes [`decayed`] for an elapsed time measured in milliseconds.
pub fn decay(value: u8, elapsed_ms: u128) -> (r: u8)
    ensures
        r == decayed(value, elapsed_ms as nat),
{
    let ticks: u128 = elapsed_ms / (TICK_MILLIS as u128);
    if ticks >= value as u128 {
        0
    } else {
        value - ticks as u8
    }
}

/// A timer that decays at 60 Hz.
pub struct DelayTimer {
    value: u8,
    start_time: Instant,
}

impl DelayTimer {
    /// The value that the timer was last set to.
    pub closed spec fn stored(&self) -> u8 {
        self.value
    }

    /// The moment from which the stored value decays.
    pub closed spec fn origin(&self) -> Instant {
        self.start_time
    }

    /// A timer that shows zero.
    pub fn new() -> (timer: DelayTimer)
        ensures
            timer.stored() == 0,
    {
        DelayTimer { value: 0, start_time: Instant::now() }
    }

    /// Sets the timer to `value` and makes `now` the moment from which it
    /// decays.
    pub fn set_value_at(&mut self, value: u8, now: Instant)
        ensures
            final(self).stored() == value,
            final(self).origin() == now,
    {
        self.value = value;
        self.start_time = now;
    }

    /// Sets the timer to `value`; it decays from this moment on. Which
    /// moment that is, is for the clock to say: see
    /// [`DelayTimer::set_value_at`].
    pub fn set_value(&mut self, value: u8)
        ensures
            final(self).stored() == value,
    {
        let now: Instant = Instant::now();
        self.set_value_at(value, now);
    }

    /// Milliseconds that have passed since the timer was last set.
    pub(crate) fn elapsed_millis(&self) -> u128 {
        let elapsed = self.start_time.elapsed();
        elapsed.as_millis()
    }

    /// The value that the timer shows `elapsed_ms` milliseconds after it was
    /// last set.
    pub fn value_after(&self, elapsed_ms: u128) -> (r: u8)
        ensures
            r == decayed(self.stored(), elapsed_ms as nat),
    {
        decay(self.value, elapsed_ms)
    }

    /// The value that the timer shows now. How much time has passed is for
    /// the clock to say, so the result is only known to be what the stored
    /// value decays to after some amount of time.
    pub fn get_value(&self) -> (r: u8)
        ensures
            exists|elapsed_ms: nat| r == #[trigger] decayed(self.stored(), elapsed_ms),
            r <= self.stored(),
    {
        let elapsed_ms: u128 = self.elapsed_millis();
        let r: u8 = self.value_after(elapsed_ms);
        assert(r == decayed(self.stored(), elapsed_ms as nat));
        r
    }
}

} // verus!
