//! What the crate takes on trust of `std::time`.
//!
//! An `Instant` is a reading of the monotonic clock and a `Duration` a span
//! of time. Both are carried through as they are: nothing here looks inside
//! one, and nothing is claimed of what the clock returns.

use std::time::{Duration, Instant};
use vstd::prelude::*;

verus! {

/// `std::time::Instant`, with nothing of its contents visible.
#[verifier::external_type_specification]
#[verifier::external_body]
pub struct ExInstant(Instant);

/// `Instant::now` reads the clock. Nothing is claimed of what it returns.
pub assume_specification[ Instant::now ]() -> Instant
;

/// `Instant::elapsed` is the time between the instant and now. Nothing is
/// claimed of what it returns.
pub assume_specification[ Instant::elapsed ](start: &Instant) -> Duration
;

/// `Duration::as_nanos` is the whole duration in nanoseconds. Nothing is
/// claimed of what it returns.
pub assume_specification[ Duration::as_nanos ](d: &Duration) -> u128
;

/// `Instant` is `Copy`: its clone is the same instant.
pub assume_specification[ <Instant as Clone>::clone ](t: &Instant) -> (copy: Instant)
    ensures
        copy == *t,
;

/// `Duration` is `Copy`: its clone is the same duration.
pub assume_specification[ <Duration as Clone>::clone ](d: &Duration) -> (copy: Duration)
    ensures
        copy == *d,
;

} // verus!
