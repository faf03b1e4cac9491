//! The monotonic clock that a timer reads.

use vstd::prelude::*;
use std::time::{Duration, Instant};

verus! {

/// `std::time::Instant`, a reading of the system's monotonic clock. Nothing
/// is known of what a value holds.
#[verifier::external_type_specification]
#[verifier::external_body]
pub struct ExInstant(std::time::Instant);

/// `Instant::now` reads the clock. The reading depends on when the call is
/// made, so nothing is claimed of it.
pub assume_specification[ Instant::now ]() -> (now: Instant);

/// `Instant::elapsed` gives the time that has passed since the instant was
/// taken, and zero if the clock now reads earlier. It depends on when the call
/// is made, so nothing is claimed of it.
pub assume_specification[ Instant::elapsed ](origin: &Instant) -> (elapsed: Duration);

/// `Duration::as_nanos` gives a duration in whole nanoseconds. A duration is
/// opaque here, so nothing is claimed of the number.
pub assume_specification[ Duration::as_nanos ](duration: &Duration) -> (nanos: u128);

/// A clock that counts nanoseconds from the moment it was started.
pub(crate) struct Clock {
    origin: Instant,
}

impl Clock {
    /// A clock that starts counting now.
    pub(crate) fn start() -> Clock {
        Clock { origin: Instant::now() }
    }

    /// Nanoseconds since the clock was started. Every value may come back:
    /// callers are verified for all of them.
    pub(crate) fn now(&self) -> u128 {
        let elapsed = self.origin.elapsed();
        elapsed.as_nanos()
    }
}

} // verus!
