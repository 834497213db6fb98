//! The monotonic clock, read in nanoseconds since a starting instant.
//!
//! Readings depend on the machine, so nothing is stated of them; the logic that uses
//! them takes the reading as an argument and is verified for every value of it.
use vstd::prelude::*;

verus! {

#[verifier::external_type_specification]
#[verifier::external_body]
pub struct ExInstant(std::time::Instant);

/// `Instant::now`: the current instant of the monotonic clock.
#[verifier::external_body]
pub(crate) fn instant_now() -> std::time::Instant {
    std::time::Instant::now()
}

/// `Instant::elapsed` in nanoseconds (`Duration::as_nanos`): the time since `origin`.
/// Nothing is stated of the reading.
#[verifier::external_body]
pub(crate) fn nanos_since(origin: &std::time::Instant) -> u128 {
    origin.elapsed().as_nanos()
}

/// `{:?}` of a `Duration` (such as `1.5s` or `250µs`). Nothing is stated of the text:
/// `Duration` is opaque here.
#[verifier::external_body]
pub(crate) fn duration_debug_text(d: &std::time::Duration) -> String {
    format!("{:?}", d)
}

/// The milliseconds since the Unix epoch on the system clock
/// (`SystemTime::now().duration_since(UNIX_EPOCH)`), or the rendered error when the clock
/// is set before the epoch. Nothing is stated of the reading: it depends on the machine.
#[verifier::external_body]
pub(crate) fn unix_time_millis() -> Result<u128, String> {
    std::time::SystemTime::now().duration_since(std::time::UNIX_EPOCH).map(|d| d.as_millis()).map_err(
        |e| e.to_string(),
    )
}

} // verus!
