use vstd::prelude::*;

verus! {

/// A clock capability: yields the current time as nanoseconds since a fixed
/// origin. Injectable, so that anything time-dependent can be driven
/// deterministically by a caller-supplied clock.
pub trait Time {
    fn timestamp(&self) -> u64;
}

/// Relies on `std::time::SystemTime::now`: returns the wall clock reading as
/// nanoseconds since the Unix epoch (zero if the clock is before the epoch).
/// Nothing is promised of the value; callers treat it as arbitrary.
#[verifier::external_body]
fn wall_clock_nanos() -> u64 {
    match std::time::SystemTime::now().duration_since(std::time::UNIX_EPOCH) {
        Ok(d) => d.as_nanos() as u64,
        Err(_) => 0,
    }
}

/// The real wall clock.
pub struct Real;

impl Time for Real {
    fn timestamp(&self) -> u64 {
        wall_clock_nanos()
    }
}

} // verus!
