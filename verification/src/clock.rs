//! The clock: one epoch, fixed at construction, against which every
//! timestamp is measured.

use crate::timer::Timer;
use crate::timer::TimerState;
use crate::timestamp::Timestamp;
use std::time::Instant;
use vstd::prelude::*;

verus! {

/// A monotonic clock whose epoch is the moment it was created.
#[derive(Clone, Copy, Debug)]
pub struct Clock {
    epoch: Instant,
}

impl Clock {
    /// A clock whose epoch is now.
    pub fn new() -> (clock: Clock) {
        Clock { epoch: Instant::now() }
    }

    /// A timer whose deadlines are measured from the epoch of this clock.
    pub fn timer(&self) -> (timer: Timer)
        ensures
            timer@ == TimerState::fresh(*self),
    {
        Timer::new(*self)
    }

    /// The time that has passed since the epoch.
    pub fn get_time(&self) -> (now: Timestamp) {
        let elapsed = self.epoch.elapsed();
        Timestamp::saturating_from_micros(elapsed.as_micros())
    }
}

impl Default for Clock {
    /// A clock whose epoch is now.
    fn default() -> (clock: Clock) {
        Clock::new()
    }
}

} // verus!
