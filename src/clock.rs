//! The monotonic clock the breaker reads. Nothing is promised of a reading:
//! the breaker's decisions are verified for every value it might return.
use vstd::prelude::*;

verus! {

/// std's monotonic instant, carried through as an opaque value.
#[verifier::external_type_specification]
#[verifier::external_body]
pub struct ExInstant(std::time::Instant);

/// Relies on std::time::Instant::now, to fix the origin of a breaker's clock.
pub assume_specification[ std::time::Instant::now ]() -> std::time::Instant;

/// Relies on std::time::Instant::elapsed, to read the time since that origin.
pub assume_specification[ std::time::Instant::elapsed ](self_: &std::time::Instant) -> core::time::Duration;

/// Relies on core::time::Duration::as_millis, to turn that reading into milliseconds.
pub assume_specification[ core::time::Duration::as_millis ](self_: &core::time::Duration) -> u128;

/// Milliseconds since `origin`, held at `u64::MAX`.
pub fn millis_since(origin: &std::time::Instant) -> u64 {
    let elapsed = origin.elapsed();
    let ms: u128 = elapsed.as_millis();
    if ms > u64::MAX as u128 {
        u64::MAX
    } else {
        ms as u64
    }
}

} // verus!
