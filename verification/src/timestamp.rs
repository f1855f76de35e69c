//! Points in time, measured from the epoch of the clock that produced them.

use vstd::prelude::*;

verus! {

/// Microseconds in one millisecond, the granularity of timer deadlines.
pub const MICROS_PER_MILLI: u64 = 1000;

/// The whole milliseconds contained in `micros` microseconds.
pub open spec fn millis_floor(micros: nat) -> nat {
    micros / (MICROS_PER_MILLI as nat)
}

/// The microseconds at which the millisecond that contains `micros` begins:
/// `micros` rounded down to whole milliseconds, as a count of microseconds.
pub open spec fn floored_micros(micros: nat) -> nat {
    millis_floor(micros) * (MICROS_PER_MILLI as nat)
}

/// The microsecond count that a timestamp holds for a duration of `micros`
/// microseconds: the count itself, capped at the largest one that fits.
pub open spec fn saturated_micros(micros: nat) -> nat {
    if micros <= u64::MAX {
        micros
    } else {
        u64::MAX as nat
    }
}

/// A point in time, held as the whole microseconds that separate it from
/// the epoch of the clock it was read from.
///
/// A timestamp means nothing on its own. It is an offset from one epoch, and
/// has to be handed to a timer of the very clock that produced it: no other
/// clock shares that epoch, and nothing checks which clock a timestamp came
/// from.
#[derive(Clone, Copy, Debug, PartialEq, Eq, Structural)]
pub struct Timestamp {
    micros: u64,
}

impl View for Timestamp {
    type V = nat;

    /// The microseconds since the epoch.
    closed spec fn view(&self) -> nat {
        self.micros as nat
    }
}

impl Timestamp {
    /// The point in time `micros` microseconds after the epoch.
    pub fn from_micros(micros: u64) -> (t: Timestamp)
        ensures
            t@ == micros,
    {
        Timestamp { micros }
    }

    /// The point in time `micros` microseconds after the epoch, or the latest
    /// point that a timestamp can hold where `micros` lies beyond it.
    pub fn saturating_from_micros(micros: u128) -> (t: Timestamp)
        ensures
            t@ == saturated_micros(micros as nat),
    {
        if micros > u64::MAX as u128 {
            Timestamp { micros: u64::MAX }
        } else {
            Timestamp { micros: micros as u64 }
        }
    }

    /// The microseconds between the epoch and this point in time.
    pub fn as_micros(&self) -> (micros: u64)
        ensures
            micros == self@,
    {
        self.micros
    }

    /// A timestamp holds no more microseconds than fit in 64 bits, so the
    /// milliseconds in it fit as well.
    pub proof fn lemma_fits(self)
        ensures
            self@ <= u64::MAX,
            millis_floor(self@) <= u64::MAX,
    {
    }

    /// The offset from the epoch rounded down to whole milliseconds.
    pub fn floor_millis(&self) -> (millis: u64)
        ensures
            millis == millis_floor(self@),
    {
        self.micros / MICROS_PER_MILLI
    }
}

/// Rounding down to whole milliseconds is idempotent: a duration that was
/// rounded already is left as it is, and holds as many milliseconds as the
/// duration it was rounded from.
pub proof fn lemma_floor_idempotent(micros: nat)
    ensures
        floored_micros(micros) <= micros,
        millis_floor(floored_micros(micros)) == millis_floor(micros),
        floored_micros(floored_micros(micros)) == floored_micros(micros),
{
}

/// A longer duration never gives an earlier timestamp: capping the count of
/// microseconds keeps the order of the durations.
pub proof fn lemma_saturated_micros_monotonic(earlier: nat, later: nat)
    requires
        earlier <= later,
    ensures
        saturated_micros(earlier) <= saturated_micros(later),
{
}

} // verus!
