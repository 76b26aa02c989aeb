//! Monotonic time, as the rest of the library sees it.
//!
//! Readings of the clock depend on when they are taken, so nothing here states a value:
//! the library passes readings on and lets verified functions take them as arguments.
use std::time::{Duration, Instant};
use vstd::prelude::*;

verus! {

/// `std::time::Instant`, carried through the library as an opaque value.
#[verifier::external_type_specification]
#[verifier::external_body]
pub struct ExInstant(Instant);

/// Calls `Instant::now`. The reading depends on the time of the call, so no clause
/// states its value.
#[verifier::external_body]
pub(crate) fn instant_now() -> Instant {
    Instant::now()
}

/// Calls `Instant::elapsed`. The result depends on the time of the call, so no clause
/// states its value.
#[verifier::external_body]
fn instant_elapsed(since: &Instant) -> Duration {
    since.elapsed()
}

/// The whole nanoseconds elapsed since `since`, read from the clock: those of the duration
/// that the clock reports.
pub(crate) fn elapsed_nanos(since: &Instant) -> (r: u128)
    ensures
        exists|d: Duration| r == #[trigger] duration_nanos(d),
{
    let d = instant_elapsed(since);
    duration_as_nanos(&d)
}

/// The whole nanoseconds that `Duration::as_nanos` gives for `d`.
pub uninterp spec fn duration_nanos(d: Duration) -> u128;

/// Calls `Duration::as_nanos`: the whole nanoseconds of `d`.
#[verifier::external_body]
pub(crate) fn duration_as_nanos(d: &Duration) -> (r: u128)
    ensures
        r == duration_nanos(*d),
{
    d.as_nanos()
}

} // verus!
