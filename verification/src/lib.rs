//! A monotonic clock anchored to a fixed epoch, and a single-shot, rearmable
//! timer that schedules wakeups against that epoch.

pub mod clock;
pub mod std_specs;
pub mod timer;
pub mod timestamp;
