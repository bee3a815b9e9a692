//! The counters that the tasks of one monitor share.

use crate::metrics::TaskMetrics;
use crate::sample::Sample;
use std::sync::atomic::AtomicU64;
use std::sync::atomic::Ordering;
use std::time::Duration;
use vstd::prelude::*;

verus! {

/// The slow-poll threshold of a monitor and its eight counters.
///
/// The counters are shared by every task of the monitor and by the monitor
/// itself. Each is only ever added to, atomically and modulo `2^64`; what a
/// counter holds at a given moment depends on what other threads have added,
/// so no contract speaks of it.
pub struct RawMetrics {
    slow_poll_threshold: Duration,
    tasks_count: AtomicU64,
    schedule_count: AtomicU64,
    fast_polls_count: AtomicU64,
    slow_polls_count: AtomicU64,
    time_to_first_poll_ns_total: AtomicU64,
    scheduled_ns_total: AtomicU64,
    fast_poll_ns_total: AtomicU64,
    slow_poll_ns_total: AtomicU64,
}

impl RawMetrics {
    /// The threshold from which on a poll counts as slow.
    pub closed spec fn threshold(&self) -> Duration {
        self.slow_poll_threshold
    }

    /// Fresh counters, all zero, under the given slow-poll threshold.
    pub(crate) fn new(slow_poll_threshold: Duration) -> (metrics: RawMetrics)
        ensures
            metrics.threshold() == slow_poll_threshold,
    {
        RawMetrics {
            slow_poll_threshold,
            tasks_count: AtomicU64::new(0),
            schedule_count: AtomicU64::new(0),
            fast_polls_count: AtomicU64::new(0),
            slow_polls_count: AtomicU64::new(0),
            time_to_first_poll_ns_total: AtomicU64::new(0),
            scheduled_ns_total: AtomicU64::new(0),
            fast_poll_ns_total: AtomicU64::new(0),
            slow_poll_ns_total: AtomicU64::new(0),
        }
    }

    /// The threshold from which on a poll counts as slow.
    pub(crate) fn slow_poll_threshold(&self) -> (threshold: Duration)
        ensures
            threshold == self.threshold(),
    {
        self.slow_poll_threshold
    }

    /// Adds one sample to the counters: one to the count of its kind and its
    /// nanoseconds to the matching total.
    pub(crate) fn record(&self, sample: Sample) {
        match sample {
            Sample::FirstPoll { nanos } => {
                self.time_to_first_poll_ns_total.fetch_add(nanos, Ordering::SeqCst);
                self.tasks_count.fetch_add(1, Ordering::SeqCst);
            },
            Sample::Scheduled { nanos } => {
                self.scheduled_ns_total.fetch_add(nanos, Ordering::SeqCst);
                self.schedule_count.fetch_add(1, Ordering::SeqCst);
            },
            Sample::FastPoll { nanos } => {
                self.fast_polls_count.fetch_add(1, Ordering::SeqCst);
                self.fast_poll_ns_total.fetch_add(nanos, Ordering::SeqCst);
            },
            Sample::SlowPoll { nanos } => {
                self.slow_polls_count.fetch_add(1, Ordering::SeqCst);
                self.slow_poll_ns_total.fetch_add(nanos, Ordering::SeqCst);
            },
        }
    }

    /// Reads the eight counters, one after the other.
    pub(crate) fn metrics(&self) -> TaskMetrics {
        TaskMetrics {
            num_tasks: self.tasks_count.load(Ordering::SeqCst),
            num_scheduled: self.schedule_count.load(Ordering::SeqCst),
            num_fast_polls: self.fast_polls_count.load(Ordering::SeqCst),
            num_slow_polls: self.slow_polls_count.load(Ordering::SeqCst),
            total_time_to_first_poll_ns: self.time_to_first_poll_ns_total.load(Ordering::SeqCst),
            total_time_scheduled_ns: self.scheduled_ns_total.load(Ordering::SeqCst),
            total_time_fast_poll_ns: self.fast_poll_ns_total.load(Ordering::SeqCst),
            total_time_slow_poll_ns: self.slow_poll_ns_total.load(Ordering::SeqCst),
        }
    }
}

} // verus!
