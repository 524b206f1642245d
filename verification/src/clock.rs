//! The parts of `std::time` that the library relies on.
//!
//! `Duration` and `Instant` are opaque to the verifier. Contracts speak of a
//! duration through [`duration_nanos`] and of two instants through
//! [`nanos_between`].
use std::time::{Duration, Instant};
use vstd::prelude::*;

verus! {

/// A reading of the monotonic clock.
#[verifier::external_type_specification]
#[verifier::external_body]
pub struct ExInstant(Instant);

/// What `Duration::as_nanos` returns: the length of a duration in nanoseconds.
pub uninterp spec fn duration_nanos(duration: Duration) -> nat;

/// What `Instant::duration_since` returns, in nanoseconds: the time from
/// `earlier` to `later`.
pub uninterp spec fn nanos_between(later: Instant, earlier: Instant) -> nat;

/// `Duration::as_nanos`: the total number of nanoseconds in the duration.
pub assume_specification[ Duration::as_nanos ](duration: &Duration) -> (nanos: u128)
    ensures
        nanos == duration_nanos(*duration),
;

/// `Duration::as_millis`: the number of whole milliseconds in the duration.
pub assume_specification[ Duration::as_millis ](duration: &Duration) -> (millis: u128)
    ensures
        millis == duration_nanos(*duration) / 1_000_000,
;

/// `Duration::from_millis`: a duration of that many milliseconds.
pub assume_specification[ Duration::from_millis ](millis: u64) -> (duration: Duration)
    ensures
        duration_nanos(duration) == millis * 1_000_000,
;

/// `Instant::now`: a reading of the clock, of which nothing is promised. That
/// an instant was read from the clock is said with `call_ensures`.
pub assume_specification[ Instant::now ]() -> (now: Instant);

/// `Instant::duration_since`: the time from `earlier` to `later`, a function
/// of the two readings alone. How readings taken at different moments relate
/// is left unsaid.
pub assume_specification[ Instant::duration_since ](
    later: &Instant,
    earlier: Instant,
) -> (elapsed: Duration)
    ensures
        duration_nanos(elapsed) == nanos_between(*later, earlier),
;

} // verus!
