use vstd::prelude::*;

verus! {

#[verifier::external_type_specification]
#[verifier::external_body]
pub struct ExInstant(std::time::Instant);

/// Relies on std::time::Instant::now: a reading of the monotonic clock.
/// Nothing is promised of its value.
#[verifier::external_body]
pub(crate) fn now() -> (r: std::time::Instant) {
    std::time::Instant::now()
}

/// Relies on std::time::Instant::elapsed: the time since `start`, in whole
/// nanoseconds. Nothing is promised of its value.
#[verifier::external_body]
pub(crate) fn nanos_since(start: &std::time::Instant) -> (r: u128) {
    start.elapsed().as_nanos()
}

} // verus!
