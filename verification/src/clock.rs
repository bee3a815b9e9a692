//! What the library takes from the clock: durations and instants.
//!
//! Nothing here is proved. Each item states what the library believes of a
//! function of `std::time::Duration` or `tokio::time::Instant`.

use std::time::Duration;
use tokio::time::Instant;
use vstd::prelude::*;

verus! {

/// The length of a duration in whole nanoseconds.
pub uninterp spec fn duration_nanos(duration: Duration) -> u128;

/// `Duration::as_nanos` returns the whole length of the duration in
/// nanoseconds. That number is what `duration_nanos` names.
pub assume_specification[ Duration::as_nanos ](duration: &Duration) -> (nanos: u128)
    ensures
        nanos == duration_nanos(*duration),
;

/// `Duration::from_nanos` returns the duration that is `nanos` nanoseconds
/// long.
pub assume_specification[ Duration::from_nanos ](nanos: u64) -> (duration: Duration)
    ensures
        duration_nanos(duration) == nanos,
;

/// `tokio::time::Instant`, a reading of the clock. The proofs see nothing of
/// what is inside it.
#[verifier::external_type_specification]
#[verifier::external_body]
pub struct ExInstant(Instant);

/// `Instant::now` reads the clock. Nothing is claimed of the reading.
pub assume_specification[ Instant::now ]() -> Instant;

/// `Instant::elapsed` reads the clock and returns the time since the given
/// instant, or zero if the instant lies ahead. Nothing is claimed of the
/// result.
pub assume_specification[ Instant::elapsed ](instant: &Instant) -> Duration;

/// `Instant::checked_add` returns the instant that lies `duration` after the
/// given one, or `None` where the platform cannot represent it. Nothing is
/// claimed of the result.
pub assume_specification[ Instant::checked_add ](instant: &Instant, duration: Duration) -> Option<Instant>;

} // verus!
