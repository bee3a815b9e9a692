//! The monitor: the handle that instruments tasks and reads their counters.

use crate::clock::duration_nanos;
use crate::metrics::TaskMetrics;
use crate::registry::RawMetrics;
use crate::task::Instrumented;
use crate::task::State;
use std::sync::Arc;
use std::time::Duration;
use vstd::prelude::*;

verus! {

/// The slow-poll threshold of a monitor made by [`TaskMonitor::new`], in
/// nanoseconds: 50 microseconds.
pub const DEFAULT_SLOW_POLL_THRESHOLD_NANOS: u64 = 50_000;

/// Monitors the tasks it instruments: every clone of a monitor, and every
/// task instrumented through one of them, shares one set of counters.
pub struct TaskMonitor {
    metrics: Arc<RawMetrics>,
}

impl Clone for TaskMonitor {
    /// Another handle to the same counters.
    fn clone(&self) -> (monitor: TaskMonitor)
        ensures
            monitor.registry() == self.registry(),
    {
        TaskMonitor { metrics: self.metrics.clone() }
    }
}

impl TaskMonitor {
    /// The counters of the monitor.
    pub closed spec fn registry(&self) -> Arc<RawMetrics> {
        self.metrics
    }

    /// The threshold from which on the monitor counts a poll as slow.
    pub open spec fn threshold(&self) -> Duration {
        self.registry().threshold()
    }

    /// A monitor with fresh counters and the default slow-poll threshold.
    pub fn new() -> (monitor: TaskMonitor)
        ensures
            duration_nanos(monitor.threshold()) == DEFAULT_SLOW_POLL_THRESHOLD_NANOS,
    {
        TaskMonitor::with_slow_poll_threshold(
            Duration::from_nanos(DEFAULT_SLOW_POLL_THRESHOLD_NANOS),
        )
    }

    /// A monitor with fresh counters that counts a poll as slow if it takes
    /// at least `slow_poll_cut_off`.
    pub fn with_slow_poll_threshold(slow_poll_cut_off: Duration) -> (monitor: TaskMonitor)
        ensures
            monitor.threshold() == slow_poll_cut_off,
    {
        TaskMonitor { metrics: Arc::new(RawMetrics::new(slow_poll_cut_off)) }
    }

    /// The threshold from which on the monitor counts a poll as slow.
    pub fn slow_poll_threshold(&self) -> (threshold: Duration)
        ensures
            threshold == self.threshold(),
    {
        self.metrics.slow_poll_threshold()
    }

    /// Pairs `task` with the state that accounts for its polls under this
    /// monitor. The moment of the call is the moment from which the time to
    /// the first poll is measured. Instrumenting adds nothing to the
    /// counters: that begins with the first poll.
    pub fn instrument<F>(&self, task: F) -> (instrumented: Instrumented<F>)
        ensures
            instrumented.task() == task,
            !instrumented.did_poll_once(),
            instrumented.state().registry() == self.registry(),
    {
        Instrumented::new(task, State::new(self.metrics.clone()))
    }

    /// Reads the counters: the totals since the monitor was made.
    pub fn cumulative(&self) -> TaskMetrics {
        self.metrics.metrics()
    }

    /// A source of interval readings of this monitor, which has not read the
    /// counters yet.
    pub fn intervals(&self) -> (intervals: Intervals)
        ensures
            intervals.registry() == self.registry(),
            intervals.previous() is None,
    {
        Intervals { latest: self.metrics.clone(), previous: None }
    }
}

/// The activity between an earlier reading of the counters and a later one;
/// with no earlier reading, all of the later one.
pub open spec fn spec_interval(previous: Option<TaskMetrics>, latest: TaskMetrics) -> TaskMetrics {
    match previous {
        Some(previous) => latest.since(previous),
        None => latest,
    }
}

/// The activity between an earlier reading of the counters and a later one;
/// with no earlier reading, all of the later one.
pub fn interval(previous: Option<TaskMetrics>, latest: TaskMetrics) -> (interval: TaskMetrics)
    ensures
        interval == spec_interval(previous, latest),
{
    match previous {
        Some(previous) => latest - previous,
        None => latest,
    }
}

/// An endless source of interval readings: each reading tells what the
/// counters of a monitor have grown by since the reading before it.
pub struct Intervals {
    latest: Arc<RawMetrics>,
    previous: Option<TaskMetrics>,
}

impl Intervals {
    /// The counters that are read.
    pub closed spec fn registry(&self) -> Arc<RawMetrics> {
        self.latest
    }

    /// The counters as they were last read, if they were read.
    pub closed spec fn previous(&self) -> Option<TaskMetrics> {
        self.previous
    }

    /// Reads the counters and returns what they have grown by since the
    /// reading before; the first time, the counters as they are. The reading
    /// is kept for the next call. There is always a next reading.
    pub fn next(&mut self) -> (interval: Option<TaskMetrics>)
        ensures
            final(self).registry() == old(self).registry(),
            final(self).previous() is Some,
            interval == Some(spec_interval(old(self).previous(), final(self).previous()->0)),
    {
        let latest = self.latest.metrics();
        let next = interval(self.previous, latest);
        self.previous = Some(latest);
        Some(next)
    }
}

} // verus!
