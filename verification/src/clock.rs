use vstd::prelude::*;

use std::time::Instant;

verus! {

#[verifier::external_type_specification]
#[verifier::external_body]
pub struct ExInstant(std::time::Instant);

/// A source of the current time, so that time can be supplied by a test.
pub trait Clock: std::fmt::Debug + Send + Sync {
    fn now(&self) -> Instant;
}

/// The operating system's monotonic clock.
#[derive(Debug, Default, Clone, Copy)]
pub struct SystemClock;

impl Clock for SystemClock {
    fn now(&self) -> Instant {
        instant_now()
    }
}

/// Calls `std::time::Instant::now`. The result depends on when the call is
/// made, so nothing is stated of it.
#[verifier::external_body]
fn instant_now() -> Instant {
    Instant::now()
}

} // verus!
