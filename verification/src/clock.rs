//! The monotonic wall clock, an external collaborator of the measurer.
//!
//! A clock reading depends on the machine and the moment, so nothing can be
//! promised about the values; the measurer's contracts therefore state what
//! holds of its results whatever times come back.

use vstd::prelude::*;

verus! {

#[verifier::external_type_specification]
#[verifier::external_body]
pub struct ExInstant(std::time::Instant);

/// Relies on std::time::Instant::now: an opaque reading of the monotonic
/// clock; nothing is assumed about its value.
#[verifier::external_body]
pub(crate) fn clock_now() -> std::time::Instant {
    std::time::Instant::now()
}

/// Relies on std::time::Instant::elapsed: the time between `start` and now,
/// as an opaque duration; nothing is assumed about its value.
#[verifier::external_body]
pub(crate) fn clock_elapsed(start: &std::time::Instant) -> std::time::Duration {
    start.elapsed()
}

/// Relies on std::time::Duration::as_nanos: the duration as a whole number
/// of nanoseconds; nothing is assumed about its value.
#[verifier::external_body]
pub(crate) fn duration_nanos(d: &std::time::Duration) -> u128 {
    d.as_nanos()
}

/// Nanoseconds elapsed since `start`, saturated to 64 bits (more than five
/// centuries; the saturation can never fire on a real measurement but keeps
/// the conversion total).
pub(crate) fn nanos_since(start: &std::time::Instant) -> u64 {
    let d = clock_elapsed(start);
    let n = duration_nanos(&d);
    if n > u64::MAX as u128 {
        u64::MAX
    } else {
        n as u64
    }
}

} // verus!
