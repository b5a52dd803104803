use vstd::prelude::*;

verus! {

/// A point on the machine's monotonic clock, carried through as an opaque value.
#[verifier::external_type_specification]
#[verifier::external_body]
pub struct ExInstant(std::time::Instant);

/// Relies on `std::time::Instant::now`: reads the monotonic clock.
#[verifier::external_body]
pub(crate) fn instant_now() -> (r: std::time::Instant) {
    std::time::Instant::now()
}

/// Relies on `std::time::Instant::elapsed`: the time since `origin`, as reported by the clock.
#[verifier::external_body]
pub(crate) fn instant_elapsed(origin: &std::time::Instant) -> (r: std::time::Duration) {
    origin.elapsed()
}

/// Relies on `std::time::Duration::as_nanos`: the whole nanoseconds in `d`.
#[verifier::external_body]
pub(crate) fn duration_as_nanos(d: &std::time::Duration) -> (r: u128) {
    d.as_nanos()
}

/// Nanoseconds since `origin` on the monotonic clock, capped at `u64::MAX`.
pub(crate) fn nanos_since(origin: &std::time::Instant) -> (r: u64) {
    let e = instant_elapsed(origin);
    let n = duration_as_nanos(&e);
    if n > u64::MAX as u128 {
        u64::MAX
    } else {
        n as u64
    }
}

} // verus!
