//! Spans and points of time.

use std::time::Instant;
use vstd::prelude::*;

verus! {

/// The length of a span of time in nanoseconds.
pub uninterp spec fn duration_nanos(span: std::time::Duration) -> nat;

/// `Duration::as_nanos`: the length of the span in nanoseconds.
pub assume_specification[ std::time::Duration::as_nanos ](
    span: &std::time::Duration,
) -> (nanos: u128)
    ensures
        nanos == duration_nanos(*span),
;

/// `Duration::from_nanos`: a span of so many nanoseconds.
pub assume_specification[ std::time::Duration::from_nanos ](
    nanos: u64,
) -> (span: std::time::Duration)
    ensures
        duration_nanos(span) == nanos,
;

/// `Duration::from_millis`: a span of so many milliseconds, each a million nanoseconds.
pub assume_specification[ std::time::Duration::from_millis ](
    millis: u64,
) -> (span: std::time::Duration)
    ensures
        duration_nanos(span) == millis * 1_000_000,
;

#[verifier::external_type_specification]
#[verifier::external_body]
pub struct ExInstant(std::time::Instant);

/// `Instant::now`: reads the monotonic clock. Nothing is said of the reading.
#[verifier::external_body]
pub(crate) fn now() -> Instant {
    Instant::now()
}

} // verus!
