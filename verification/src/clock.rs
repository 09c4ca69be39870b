//! The wall clock of the machine, as far as the library reads it. Nothing
//! is known of what the clock says: two readings may be any two moments.

use vstd::prelude::*;
use std::time::Duration;
use std::time::Instant;

verus! {

#[verifier::external_type_specification]
#[verifier::external_body]
pub struct ExInstant(Instant);

/// `Instant::now`: the present moment. Nothing is claimed of it.
#[verifier::external_body]
pub(crate) fn instant_now() -> (now: Instant) {
    Instant::now()
}

/// `Instant::elapsed`: the time since `start`. Nothing is claimed of it.
#[verifier::external_body]
pub(crate) fn instant_elapsed(start: &Instant) -> (elapsed: Duration) {
    start.elapsed()
}

/// `Instant::duration_since`: the time from `earlier` to `later`, zero where
/// `earlier` is the later one. Nothing is claimed of it.
#[verifier::external_body]
pub(crate) fn instant_duration_since(later: &Instant, earlier: Instant) -> (elapsed: Duration) {
    later.duration_since(earlier)
}

/// `Duration::as_millis`: the whole milliseconds of a span. Nothing is
/// claimed of the number.
#[verifier::external_body]
pub(crate) fn duration_as_millis(span: &Duration) -> (millis: u128) {
    span.as_millis()
}

/// Runs `f` and returns how long it took beside what it returned.
pub fn measure_time<T, F: FnOnce() -> T>(f: F) -> (timed: (Duration, T))
    requires
        f.requires(()),
    ensures
        f.ensures((), timed.1),
{
    let start = instant_now();
    let r = f();
    (instant_elapsed(&start), r)
}

} // verus!
