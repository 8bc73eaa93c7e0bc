use vstd::prelude::*;
use crate::span::Span;
use std::time::Instant;

verus! {

/// A reading of the monotonic clock, carried through unopened.
#[verifier::external_type_specification]
#[verifier::external_body]
pub struct ExInstant(std::time::Instant);

/// Relies on std::time::Instant::now: a reading of the monotonic clock.
/// Nothing is promised of its value.
pub assume_specification[ std::time::Instant::now ]() -> Instant;

/// Relies on std::time::Instant::elapsed: the time passed on the monotonic
/// clock since `origin`, as nanoseconds. It depends on when it is called, so
/// nothing is promised of its value.
#[verifier::external_body]
pub(crate) fn monotonic_since(origin: &Instant) -> (r: Span) {
    Span { nanos: origin.elapsed().as_nanos() }
}

/// Relies on chrono's `From<SystemTime> for DateTime<Utc>` and
/// DateTime::timestamp: the current UTC time, rounded down to whole seconds
/// since the Unix epoch (negative before it). It depends on when it is
/// called, so nothing is promised of its value. The conversion fails only
/// for a clock reading beyond chrono's range, some 262,000 years from the
/// epoch.
#[verifier::external_body]
pub(crate) fn utc_now_secs() -> (r: i64) {
    chrono::DateTime::<chrono::Utc>::from(std::time::SystemTime::now()).timestamp()
}

} // verus!
