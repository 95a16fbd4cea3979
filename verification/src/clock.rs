//! Time as the cache sees it: whole nanoseconds on a clock that starts when it
//! is made.

use vstd::prelude::*;
use std::time::Duration;
use std::time::Instant;

verus! {

/// The nanoseconds in one second.
pub const NANOS_PER_SEC: u64 = 1_000_000_000;

/// `std::time::Instant`, a point on the monotonic clock. Nothing inside it is
/// visible to proofs.
#[verifier::external_type_specification]
#[verifier::external_body]
pub struct ExInstant(Instant);

/// `Instant::now` reads the machine's monotonic clock. Nothing is claimed of
/// the instant that it returns.
pub assume_specification[ Instant::now ]() -> (now: Instant)
;

/// `Instant::elapsed` measures the time from an instant to the present. Nothing
/// is claimed of the span that it returns.
pub assume_specification[ Instant::elapsed ](start: &Instant) -> (elapsed: Duration)
;

/// `Duration::as_nanos` gives a span as whole nanoseconds. The span is opaque
/// here, so nothing is claimed of the number.
pub assume_specification[ Duration::as_nanos ](span: &Duration) -> (nanos: u128)
;

/// The time that has passed at `now` since `earlier`; zero where `now` lies
/// before it.
pub open spec fn age(earlier: u64, now: u64) -> u64 {
    if now >= earlier {
        (now - earlier) as u64
    } else {
        0
    }
}

/// Computes [`age`].
pub fn age_at(earlier: u64, now: u64) -> (passed: u64)
    ensures
        passed == age(earlier, now),
{
    if now >= earlier {
        now - earlier
    } else {
        0
    }
}

/// A clock that counts nanoseconds from the moment it was made.
pub struct Clock {
    origin: Instant,
}

impl Clock {
    /// Starts a clock at the present moment.
    pub fn new() -> (clock: Self) {
        Clock { origin: Instant::now() }
    }

    /// The nanoseconds since the clock was made, held at `u64::MAX` where they
    /// would exceed it. The reading depends on the moment of the call.
    pub fn now(&self) -> (nanos: u64) {
        let elapsed = self.origin.elapsed();
        let nanos: u128 = elapsed.as_nanos();
        if nanos > u64::MAX as u128 {
            u64::MAX
        } else {
            nanos as u64
        }
    }
}

} // verus!
