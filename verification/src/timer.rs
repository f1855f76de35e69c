//! The timer: a single deadline, measured from the epoch of one clock, and the
//! decisions that keep a host wait in step with it.
//!
//! The timer does not sleep by itself. Its owner holds one wait of the host
//! scheduler and lets the timer decide what happens to it:
//!
//! * a timer that was just created is armed for [`INITIAL_TIMEOUT_MILLIS`], and
//!   its owner starts a wait of that length;
//! * [`Timer::update`] says whether the wait still stands for the new deadline
//!   or has to be replaced, and by a wait of which length;
//! * on every poll the owner asks [`Timer::is_armed`], polls the wait only if
//!   the timer is armed, and hands the outcome to [`Timer::poll`], which says
//!   what the owner reports in turn.

use crate::clock::Clock;
use crate::timestamp::floored_micros;
use crate::timestamp::lemma_floor_idempotent;
use crate::timestamp::millis_floor;
use crate::timestamp::Timestamp;
use std::task::Poll;
use vstd::prelude::*;

verus! {

/// The deadline, in milliseconds after the epoch, that a timer is armed for
/// before its first update. It only gives the first wait something to stand
/// for: a real deadline is expected before the timer is relied upon.
pub const INITIAL_TIMEOUT_MILLIS: u64 = 1000;

/// What the owner of a timer does with its wait after an update.
#[derive(Clone, Copy, Debug, PartialEq, Eq, Structural)]
pub enum WaitAction {
    /// The wait in force already stands for the deadline: it is left alone.
    Keep,
    /// The wait in force is dropped, and one that resolves after
    /// `delay_millis` milliseconds takes its place.
    Restart { delay_millis: u64 },
}

/// What a timer is, as far as its decisions go.
pub struct TimerState {
    /// The clock whose epoch the target is measured from.
    pub clock: Clock,
    /// The deadline in milliseconds after the epoch, or `None` while the
    /// timer is disarmed.
    pub target: Option<u64>,
}

impl TimerState {
    /// The state of a timer that was just created from `clock`.
    pub open spec fn fresh(clock: Clock) -> TimerState {
        TimerState { clock, target: Some(INITIAL_TIMEOUT_MILLIS) }
    }

    /// The deadline that `timestamp` asks for: its offset from the epoch,
    /// rounded down to whole milliseconds. The count always fits (see
    /// [`lemma_requested_is_floor`]).
    pub open spec fn requested(timestamp: Timestamp) -> u64 {
        millis_floor(timestamp@) as u64
    }

    /// What becomes of the wait when the deadline moves to `timestamp`.
    pub open spec fn update_action(self, timestamp: Timestamp) -> WaitAction {
        if self.target == Some(Self::requested(timestamp)) {
            WaitAction::Keep
        } else {
            WaitAction::Restart { delay_millis: Self::requested(timestamp) }
        }
    }

    /// The state after the deadline has moved to `timestamp`.
    pub open spec fn updated(self, timestamp: Timestamp) -> TimerState {
        TimerState { clock: self.clock, target: Some(Self::requested(timestamp)) }
    }

    /// What a poll reports when the wait, had it been polled, gave `wait`.
    pub open spec fn poll_outcome(self, wait: Poll<()>) -> Poll<()> {
        if self.target is Some {
            wait
        } else {
            Poll::Pending
        }
    }

    /// The state after a poll in which the wait, had it been polled, gave
    /// `wait`.
    pub open spec fn polled(self, wait: Poll<()>) -> TimerState {
        if self.poll_outcome(wait) is Ready {
            TimerState { clock: self.clock, target: None }
        } else {
            self
        }
    }

    /// The state after one poll for each entry of `waits`, in order.
    pub open spec fn polled_through(self, waits: Seq<Poll<()>>) -> TimerState
        decreases waits.len(),
    {
        if waits.len() == 0 {
            self
        } else {
            self.polled(waits[0]).polled_through(waits.drop_first())
        }
    }
}

/// The length of the wait that the owner holds after it has done what
/// `action` says, where the wait it held before was started with a length of
/// `held` milliseconds.
pub open spec fn wait_in_force(held: u64, action: WaitAction) -> u64 {
    match action {
        WaitAction::Keep => held,
        WaitAction::Restart { delay_millis } => delay_millis,
    }
}

/// Whether a wait that was started with a length of `held` milliseconds
/// stands for the deadline of `state`. A disarmed timer has no deadline, and
/// any wait will do.
pub open spec fn in_step(state: TimerState, held: u64) -> bool {
    state.target matches Some(target) ==> held == target
}

/// The deadline that a timestamp asks for is the number of whole milliseconds
/// in it, with nothing cut off.
pub proof fn lemma_requested_is_floor(timestamp: Timestamp)
    ensures
        TimerState::requested(timestamp) == millis_floor(timestamp@),
{
    timestamp.lemma_fits();
}

/// A timestamp that was rounded down to whole milliseconds asks for the same
/// deadline as the timestamp it was rounded from: rounding twice sets the
/// target that rounding once sets, and does the same to the wait.
pub proof fn lemma_floored_timestamp_same_target(
    state: TimerState,
    once: Timestamp,
    twice: Timestamp,
)
    requires
        twice@ == floored_micros(once@),
    ensures
        TimerState::requested(twice) == TimerState::requested(once),
        state.updated(twice) == state.updated(once),
        state.update_action(twice) == state.update_action(once),
{
    lemma_floor_idempotent(once@);
}

/// The wait of a timer that was just created is in step with it, once the
/// owner has started it with the initial timeout.
pub proof fn lemma_fresh_in_step(clock: Clock)
    ensures
        in_step(TimerState::fresh(clock), INITIAL_TIMEOUT_MILLIS),
{
}

/// An update leaves the wait in step with the timer, and the wait in force
/// after it was started with exactly the whole milliseconds of the timestamp:
/// a wait that is kept is never one of another length, so the expiry is never
/// governed by a delay shorter than the rounded timestamp.
pub proof fn lemma_update_in_step(state: TimerState, held: u64, timestamp: Timestamp)
    requires
        in_step(state, held),
    ensures
        state.updated(timestamp).target == Some(TimerState::requested(timestamp)),
        wait_in_force(held, state.update_action(timestamp)) == millis_floor(timestamp@),
        in_step(state.updated(timestamp), wait_in_force(held, state.update_action(timestamp))),
{
    lemma_requested_is_floor(timestamp);
}

/// A poll never moves a deadline, it can only clear it: the wait stays in
/// step with the timer.
pub proof fn lemma_poll_in_step(state: TimerState, held: u64, wait: Poll<()>)
    requires
        in_step(state, held),
    ensures
        state.polled(wait).target is Some ==> state.polled(wait) == state,
        in_step(state.polled(wait), held),
{
}

/// Two updates in a row whose timestamps round down to the same millisecond:
/// the second one keeps the wait that the first one left in force, and changes
/// nothing in the timer.
pub proof fn lemma_same_floor_keeps_wait(state: TimerState, first: Timestamp, second: Timestamp)
    requires
        millis_floor(first@) == millis_floor(second@),
    ensures
        state.updated(first).update_action(second) == WaitAction::Keep,
        state.updated(first).updated(second) == state.updated(first),
{
}

/// Two updates in a row whose timestamps round down to different
/// milliseconds: the second one replaces the wait that the first one left in
/// force by one of its own delay, so the first deadline no longer fires.
pub proof fn lemma_other_floor_restarts_wait(
    state: TimerState,
    first: Timestamp,
    second: Timestamp,
)
    requires
        millis_floor(first@) != millis_floor(second@),
    ensures
        state.updated(first).update_action(second) == (WaitAction::Restart {
            delay_millis: TimerState::requested(second),
        }),
        state.updated(first).updated(second).target == Some(TimerState::requested(second)),
{
    lemma_requested_is_floor(first);
    lemma_requested_is_floor(second);
}

/// Once a poll has reported ready the timer is disarmed, and it stays so
/// through any number of further polls: each of them reports pending,
/// whatever the wait would have said, until the next update.
pub proof fn lemma_expired_stays_pending(
    state: TimerState,
    wait: Poll<()>,
    later: Seq<Poll<()>>,
    next: Poll<()>,
)
    requires
        state.poll_outcome(wait) is Ready,
    ensures
        state.polled(wait).target is None,
        state.polled(wait).polled_through(later) == state.polled(wait),
        state.polled(wait).polled_through(later).poll_outcome(next) is Pending,
{
    lemma_disarmed_stays_disarmed(state.polled(wait), later);
}

/// Polling a disarmed timer changes nothing, however often it is done.
pub proof fn lemma_disarmed_stays_disarmed(state: TimerState, waits: Seq<Poll<()>>)
    requires
        state.target is None,
    ensures
        state.polled_through(waits) == state,
    decreases waits.len(),
{
    if waits.len() > 0 {
        lemma_disarmed_stays_disarmed(state, waits.drop_first());
    }
}

/// An update arms the timer whatever state it was in: the next poll reports
/// what the wait reports. A disarmed timer is never armed with the wait it
/// had, which has fired: the update replaces it.
pub proof fn lemma_update_rearms(state: TimerState, timestamp: Timestamp, wait: Poll<()>)
    ensures
        state.updated(timestamp).target is Some,
        state.updated(timestamp).poll_outcome(wait) == wait,
        state.target is None ==> state.update_action(timestamp) == (WaitAction::Restart {
            delay_millis: TimerState::requested(timestamp),
        }),
{
}

/// A single-shot timer that can be armed again and again.
///
/// A timer belongs to one owner, who updates and polls it from one thread of
/// control. Every timestamp handed to it must come from the clock that the
/// timer was created from: one of another clock is measured from another
/// epoch, and the deadline would be off by the distance between the two.
pub struct Timer {
    clock: Clock,
    target: Option<u64>,
}

impl View for Timer {
    type V = TimerState;

    closed spec fn view(&self) -> TimerState {
        TimerState { clock: self.clock, target: self.target }
    }
}

impl Timer {
    /// A timer on `clock`, armed for the initial timeout.
    pub(crate) fn new(clock: Clock) -> (timer: Timer)
        ensures
            timer@ == TimerState::fresh(clock),
    {
        Timer { clock, target: Some(INITIAL_TIMEOUT_MILLIS) }
    }

    /// The clock that this timer was created from.
    pub fn clock(&self) -> (clock: Clock)
        ensures
            clock == self@.clock,
    {
        self.clock
    }

    /// Whether a deadline is set. Only then is the wait to be polled.
    pub fn is_armed(&self) -> (armed: bool)
        ensures
            armed == (self@.target is Some),
    {
        self.target.is_some()
    }

    /// Moves the deadline to `timestamp`, rounded down to whole milliseconds,
    /// and says what becomes of the wait.
    ///
    /// Where the rounded deadline is the one already set, nothing changes and
    /// the wait is kept, however far apart the timestamps were before
    /// rounding.
    pub fn update(&mut self, timestamp: Timestamp) -> (action: WaitAction)
        ensures
            action == old(self)@.update_action(timestamp),
            final(self)@ == old(self)@.updated(timestamp),
    {
        let next: u64 = timestamp.floor_millis();
        if self.is_target(next) {
            return WaitAction::Keep;
        }
        self.target = Some(next);
        WaitAction::Restart { delay_millis: next }
    }

    /// Whether the deadline set is exactly `millis` after the epoch.
    fn is_target(&self, millis: u64) -> (same: bool)
        ensures
            same == (self@.target == Some(millis)),
    {
        match self.target {
            Some(target) => target == millis,
            None => false,
        }
    }

    /// Takes the outcome of polling the wait and says what the timer reports.
    ///
    /// An armed timer reports what its wait reported, and is disarmed once the
    /// wait is ready, so that one expiry is reported once. A disarmed timer has
    /// nothing to wait for: it reports pending whatever `wait` says.
    pub fn poll(&mut self, wait: Poll<()>) -> (outcome: Poll<()>)
        ensures
            outcome == old(self)@.poll_outcome(wait),
            final(self)@ == old(self)@.polled(wait),
    {
        if self.target.is_none() {
            return Poll::Pending;
        }
        if let Poll::Ready(_) = wait {
            self.target = None;
        }
        wait
    }
}

} // verus!
