//! The additions that one execution step of a task makes to the counters, and
//! the rules that decide them.

use crate::clock::duration_nanos;
use std::time::Duration;
use vstd::prelude::*;

verus! {

/// One addition to the counters of a monitor: an event to count together with
/// the nanoseconds it took.
#[derive(Debug, Clone, Copy, PartialEq, Eq, Structural)]
pub enum Sample {
    /// A task was polled for the first time, `nanos` after it was
    /// instrumented.
    FirstPoll { nanos: u64 },
    /// A task that had been woken was polled, `nanos` after the wake-up.
    Scheduled { nanos: u64 },
    /// A poll that took `nanos`, less than the slow-poll threshold.
    FastPoll { nanos: u64 },
    /// A poll that took `nanos`, at least the slow-poll threshold.
    SlowPoll { nanos: u64 },
}

/// A length of time as a counter can hold it: the nanoseconds, if they fit in
/// 64 bits.
pub open spec fn counter_nanos(nanos: u128) -> Option<u64> {
    if nanos <= u64::MAX {
        Some(nanos as u64)
    } else {
        None
    }
}

/// The sample of a first poll that came `elapsed` nanoseconds after the task
/// was instrumented.
pub open spec fn spec_first_poll_sample(elapsed: u128) -> Option<Sample> {
    match counter_nanos(elapsed) {
        Some(nanos) => Some(Sample::FirstPoll { nanos }),
        None => None,
    }
}

/// The sample of a poll that came `delay` nanoseconds after the task was
/// woken.
pub open spec fn spec_scheduled_sample(delay: u128) -> Option<Sample> {
    match counter_nanos(delay) {
        Some(nanos) => Some(Sample::Scheduled { nanos }),
        None => None,
    }
}

/// The sample of a poll that took `duration` nanoseconds under a slow-poll
/// threshold of `threshold` nanoseconds.
pub open spec fn spec_poll_sample(duration: u128, threshold: u128) -> Option<Sample> {
    match counter_nanos(duration) {
        Some(nanos) => if duration >= threshold {
            Some(Sample::SlowPoll { nanos })
        } else {
            Some(Sample::FastPoll { nanos })
        },
        None => None,
    }
}

/// The nanoseconds of `duration`, or `None` if a counter cannot hold them.
pub fn duration_counter_nanos(duration: Duration) -> (nanos: Option<u64>)
    ensures
        nanos == counter_nanos(duration_nanos(duration)),
{
    let nanos: u128 = duration.as_nanos();
    if nanos <= u64::MAX as u128 {
        Some(nanos as u64)
    } else {
        None
    }
}

/// Decides what the first poll of a task adds to the counters, `elapsed`
/// after the task was instrumented: nothing if the time does not fit a
/// counter.
pub fn first_poll_sample(elapsed: Duration) -> (sample: Option<Sample>)
    ensures
        sample == spec_first_poll_sample(duration_nanos(elapsed)),
{
    match duration_counter_nanos(elapsed) {
        Some(nanos) => Some(Sample::FirstPoll { nanos }),
        None => None,
    }
}

/// Decides what a poll adds to the counters when it comes `delay` after the
/// wake-up that caused it: nothing if the time does not fit a counter.
pub fn scheduled_sample(delay: Duration) -> (sample: Option<Sample>)
    ensures
        sample == spec_scheduled_sample(duration_nanos(delay)),
{
    match duration_counter_nanos(delay) {
        Some(nanos) => Some(Sample::Scheduled { nanos }),
        None => None,
    }
}

/// Classifies a poll that took `duration`: slow if it took at least
/// `threshold`, fast otherwise, and nothing at all if its time does not fit a
/// counter.
pub fn poll_sample(duration: Duration, threshold: Duration) -> (sample: Option<Sample>)
    ensures
        sample == spec_poll_sample(duration_nanos(duration), duration_nanos(threshold)),
{
    match duration_counter_nanos(duration) {
        Some(nanos) => if duration.as_nanos() >= threshold.as_nanos() {
            Some(Sample::SlowPoll { nanos })
        } else {
            Some(Sample::FastPoll { nanos })
        },
        None => None,
    }
}

} // verus!
