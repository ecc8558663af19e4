//! The monotonic clock that challenges are timed against.

use vstd::prelude::*;
use std::time::{Duration, Instant};

verus! {

/// `std::time::Instant`, held as an opaque value: a point on the monotonic
/// clock.
#[verifier::external_type_specification]
#[verifier::external_body]
pub struct ExInstant(Instant);

/// Calls `Instant::now`. Nothing is claimed of the instant that comes back.
#[verifier::external_body]
pub(crate) fn clock_origin() -> Instant {
    Instant::now()
}

/// Calls `Instant::elapsed`. Nothing is claimed of the duration that comes
/// back: it depends on when the call is made.
#[verifier::external_body]
pub(crate) fn elapsed_since(origin: &Instant) -> Duration {
    origin.elapsed()
}

/// Calls `Duration::as_nanos`: the duration in whole nanoseconds. A duration
/// is opaque here, so nothing is claimed of the number.
#[verifier::external_body]
pub(crate) fn whole_nanos(duration: &Duration) -> u128 {
    duration.as_nanos()
}

} // verus!
