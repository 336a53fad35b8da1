use vstd::prelude::*;

verus! {

/// `instant::Instant` (std's `Instant`): a reading of the monotonic clock,
/// carried opaquely as the origin of a timer.
#[verifier::external_type_specification]
#[verifier::external_body]
pub struct ExInstant(instant::Instant);

/// Relies on `instant::Instant::now` (std's monotonic clock): a reading taken
/// as the origin of a timer. Nothing is known of its value.
#[verifier::external_body]
pub(crate) fn read_origin() -> (r: instant::Instant) {
    instant::Instant::now()
}

/// Relies on `instant::Instant::elapsed`, with `Duration::as_nanos` to convert:
/// the nanoseconds from `origin` to the present moment. The value depends on
/// when it is called, so nothing is known of it.
#[verifier::external_body]
pub(crate) fn nanos_since(origin: &instant::Instant) -> (r: u128) {
    origin.elapsed().as_nanos()
}

/// Relies on `Clone` for `std::time::Instant` (which `instant::Instant` names):
/// the type is `Copy`, so a clone is the same reading.
pub assume_specification[ <std::time::Instant as std::clone::Clone>::clone ](
    i: &std::time::Instant,
) -> (r: std::time::Instant)
    ensures
        r == *i,
;

} // verus!
