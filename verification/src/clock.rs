//! Trusted view of the monotonic clock and the scheduler hint that the
//! waiting loops use. Time is opaque: none of these items promises anything
//! of a reading, and every waiting loop treats every possible reading
//! correctly.
use vstd::prelude::*;

verus! {

#[verifier::external_type_specification]
#[verifier::external_body]
pub struct ExInstant(std::time::Instant);

/// Relies on std::time::Instant::now for a point on the monotonic clock.
#[verifier::external_body]
pub(crate) fn now() -> (t: std::time::Instant) {
    std::time::Instant::now()
}

/// Relies on std::time::Instant::elapsed for the time since `start`; the
/// call saturates to zero and does not panic.
#[verifier::external_body]
pub(crate) fn elapsed(start: &std::time::Instant) -> (d: core::time::Duration) {
    start.elapsed()
}

/// Relies on core::time::Duration::as_millis for the duration in whole
/// milliseconds.
#[verifier::external_body]
pub(crate) fn duration_millis(d: &core::time::Duration) -> (ms: u128) {
    d.as_millis()
}

/// Relies on std::hint::spin_loop, a scheduling hint with no observable
/// effect on any value.
#[verifier::external_body]
pub(crate) fn spin_hint() {
    std::hint::spin_loop()
}

/// Whether at least `ms` milliseconds have passed since `start`.
pub(crate) fn timed_out_since(start: &std::time::Instant, ms: u64) -> bool {
    duration_millis(&elapsed(start)) >= ms as u128
}

} // verus!
