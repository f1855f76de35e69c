//! Declarations for the parts of the standard library that this crate relies
//! on and that are taken on trust rather than verified.

use std::task::Poll;
use std::time::Duration;
use std::time::Instant;
use vstd::prelude::*;

verus! {

/// `std::time::Instant`, a reading of the host's monotonic clock. Nothing is
/// known of what a value holds.
#[verifier::external_type_specification]
#[verifier::external_body]
pub struct ExInstant(Instant);

/// `std::task::Poll`, with both of its variants.
#[verifier::external_type_specification]
#[verifier::reject_recursive_types(T)]
pub struct ExPoll<T>(Poll<T>);

/// `Instant::now` reads the host's monotonic clock. The reading depends on
/// when the call is made, so nothing is claimed of it.
pub assume_specification[ Instant::now ]() -> (now: Instant);

/// `Instant::elapsed` measures the time since the instant was read. The result
/// depends on when the call is made, so nothing is claimed of it.
pub assume_specification[ Instant::elapsed ](instant: &Instant) -> (elapsed: Duration);

/// `Duration::as_micros` gives the whole microseconds in a duration. A duration
/// is opaque here, so nothing is claimed of the count.
pub assume_specification[ Duration::as_micros ](duration: &Duration) -> (micros: u128);

} // verus!
