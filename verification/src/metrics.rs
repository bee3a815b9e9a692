//! Snapshots of a monitor's counters and the quantities derived from them.

use crate::clock::duration_nanos;
use crate::sample::Sample;
use std::ops::Sub;
use std::time::Duration;
use vstd::prelude::*;
use vstd::std_specs::ops::SubSpecImpl;

verus! {

/// The number of values a counter can take before it wraps around.
pub open spec fn counter_modulus() -> int {
    0x1_0000_0000_0000_0000
}

/// What a counter that read `older` and now reads `newer` has grown by, if it
/// wrapped around at most once in between.
pub open spec fn wrapping_difference(newer: u64, older: u64) -> u64 {
    if newer >= older {
        (newer - older) as u64
    } else {
        (newer - older + counter_modulus()) as u64
    }
}

/// What a counter that read `counter` reads after `amount` was added to it.
pub open spec fn wrapping_sum(counter: u64, amount: u64) -> u64 {
    if counter + amount < counter_modulus() {
        (counter + amount) as u64
    } else {
        (counter + amount - counter_modulus()) as u64
    }
}

/// The mean of `count` lengths of time that add up to `total`, rounded down;
/// zero if there are none.
pub open spec fn spec_mean(total: u64, count: u64) -> u64 {
    if count == 0 {
        0
    } else {
        (total / count) as u64
    }
}

/// The mean of `count` lengths of time that add up to `total_ns` nanoseconds,
/// rounded down to the nanosecond; the zero duration if there are none.
pub fn mean(total_ns: u64, count: u64) -> (mean: Duration)
    ensures
        duration_nanos(mean) == spec_mean(total_ns, count),
{
    if count == 0 {
        Duration::from_nanos(0)
    } else {
        Duration::from_nanos(total_ns / count)
    }
}

/// One reading of the eight counters of a monitor.
///
/// Every field is a counter that only grows and silently wraps around at
/// `2^64`. The fields of one reading are loaded one by one, so they need not
/// describe a single moment.
#[non_exhaustive]
#[derive(Debug, Clone, Copy, PartialEq, Eq, Structural)]
pub struct TaskMetrics {
    /// The number of tasks that were polled for the first time.
    pub num_tasks: u64,
    /// The number of times a task was polled after it had been woken.
    pub num_scheduled: u64,
    /// The number of polls that took less than the slow-poll threshold.
    pub num_fast_polls: u64,
    /// The number of polls that took at least the slow-poll threshold.
    pub num_slow_polls: u64,
    /// The nanoseconds tasks spent between instrumentation and first poll.
    pub total_time_to_first_poll_ns: u64,
    /// The nanoseconds tasks spent between being woken and being polled.
    pub total_time_scheduled_ns: u64,
    /// The nanoseconds spent in fast polls.
    pub total_time_fast_poll_ns: u64,
    /// The nanoseconds spent in slow polls.
    pub total_time_slow_poll_ns: u64,
}

impl TaskMetrics {
    /// The reading in which every counter is zero.
    pub open spec fn zero() -> TaskMetrics {
        TaskMetrics {
            num_tasks: 0,
            num_scheduled: 0,
            num_fast_polls: 0,
            num_slow_polls: 0,
            total_time_to_first_poll_ns: 0,
            total_time_scheduled_ns: 0,
            total_time_fast_poll_ns: 0,
            total_time_slow_poll_ns: 0,
        }
    }

    /// The counters after `sample` was added to them: one more event of its
    /// kind, and its nanoseconds on the matching total.
    pub open spec fn recorded(self, sample: Sample) -> TaskMetrics {
        match sample {
            Sample::FirstPoll { nanos } => TaskMetrics {
                num_tasks: wrapping_sum(self.num_tasks, 1),
                total_time_to_first_poll_ns: wrapping_sum(self.total_time_to_first_poll_ns, nanos),
                ..self
            },
            Sample::Scheduled { nanos } => TaskMetrics {
                num_scheduled: wrapping_sum(self.num_scheduled, 1),
                total_time_scheduled_ns: wrapping_sum(self.total_time_scheduled_ns, nanos),
                ..self
            },
            Sample::FastPoll { nanos } => TaskMetrics {
                num_fast_polls: wrapping_sum(self.num_fast_polls, 1),
                total_time_fast_poll_ns: wrapping_sum(self.total_time_fast_poll_ns, nanos),
                ..self
            },
            Sample::SlowPoll { nanos } => TaskMetrics {
                num_slow_polls: wrapping_sum(self.num_slow_polls, 1),
                total_time_slow_poll_ns: wrapping_sum(self.total_time_slow_poll_ns, nanos),
                ..self
            },
        }
    }

    /// The counters after `sample` was added to them, if there is one.
    pub open spec fn recorded_if(self, sample: Option<Sample>) -> TaskMetrics {
        match sample {
            Some(sample) => self.recorded(sample),
            None => self,
        }
    }

    /// The activity between an earlier reading `prev` and this one: the
    /// difference of each counter, taken modulo `2^64`.
    pub open spec fn since(self, prev: TaskMetrics) -> TaskMetrics {
        TaskMetrics {
            num_tasks: wrapping_difference(self.num_tasks, prev.num_tasks),
            num_scheduled: wrapping_difference(self.num_scheduled, prev.num_scheduled),
            num_fast_polls: wrapping_difference(self.num_fast_polls, prev.num_fast_polls),
            num_slow_polls: wrapping_difference(self.num_slow_polls, prev.num_slow_polls),
            total_time_to_first_poll_ns: wrapping_difference(
                self.total_time_to_first_poll_ns,
                prev.total_time_to_first_poll_ns,
            ),
            total_time_scheduled_ns: wrapping_difference(
                self.total_time_scheduled_ns,
                prev.total_time_scheduled_ns,
            ),
            total_time_fast_poll_ns: wrapping_difference(
                self.total_time_fast_poll_ns,
                prev.total_time_fast_poll_ns,
            ),
            total_time_slow_poll_ns: wrapping_difference(
                self.total_time_slow_poll_ns,
                prev.total_time_slow_poll_ns,
            ),
        }
    }

    /// The total number of polls, fast and slow, as a counter: the sum wraps
    /// around at `2^64` like the counters it is made of.
    pub open spec fn spec_num_polls(&self) -> int {
        (self.num_fast_polls + self.num_slow_polls) % counter_modulus()
    }

    /// The total number of times that tasks were polled.
    pub fn num_polls(&self) -> (polls: u64)
        ensures
            polls == self.spec_num_polls(),
            self.num_fast_polls + self.num_slow_polls <= u64::MAX ==> polls
                == self.num_fast_polls + self.num_slow_polls,
    {
        self.num_fast_polls.wrapping_add(self.num_slow_polls)
    }

    /// The total time that tasks waited between being instrumented and being
    /// polled for the first time.
    pub fn total_time_to_first_poll(&self) -> (total: Duration)
        ensures
            duration_nanos(total) == self.total_time_to_first_poll_ns,
    {
        Duration::from_nanos(self.total_time_to_first_poll_ns)
    }

    /// The total time that tasks waited between being woken and being polled.
    pub fn total_time_scheduled(&self) -> (total: Duration)
        ensures
            duration_nanos(total) == self.total_time_scheduled_ns,
    {
        Duration::from_nanos(self.total_time_scheduled_ns)
    }

    /// The total time spent in fast polls.
    pub fn total_time_fast_poll(&self) -> (total: Duration)
        ensures
            duration_nanos(total) == self.total_time_fast_poll_ns,
    {
        Duration::from_nanos(self.total_time_fast_poll_ns)
    }

    /// The total time spent in slow polls.
    pub fn total_time_slow_poll(&self) -> (total: Duration)
        ensures
            duration_nanos(total) == self.total_time_slow_poll_ns,
    {
        Duration::from_nanos(self.total_time_slow_poll_ns)
    }

    /// The mean time that a task waited between being instrumented and being
    /// polled for the first time; zero if no task was polled.
    pub fn mean_time_to_first_poll(&self) -> (mean: Duration)
        ensures
            duration_nanos(mean) == spec_mean(self.total_time_to_first_poll_ns, self.num_tasks),
    {
        mean(self.total_time_to_first_poll_ns, self.num_tasks)
    }

    /// The mean time that a task waited between being woken and being polled;
    /// zero if no wake-up was followed by a poll.
    pub fn mean_time_scheduled(&self) -> (mean: Duration)
        ensures
            duration_nanos(mean) == spec_mean(self.total_time_scheduled_ns, self.num_scheduled),
    {
        mean(self.total_time_scheduled_ns, self.num_scheduled)
    }

    /// The mean time that a fast poll took; zero if there was none.
    pub fn mean_fast_polls(&self) -> (mean: Duration)
        ensures
            duration_nanos(mean) == spec_mean(self.total_time_fast_poll_ns, self.num_fast_polls),
    {
        mean(self.total_time_fast_poll_ns, self.num_fast_polls)
    }

    /// The mean time that a slow poll took; zero if there was none.
    pub fn mean_slow_polls(&self) -> (mean: Duration)
        ensures
            duration_nanos(mean) == spec_mean(self.total_time_slow_poll_ns, self.num_slow_polls),
    {
        mean(self.total_time_slow_poll_ns, self.num_slow_polls)
    }
}

impl SubSpecImpl for TaskMetrics {
    open spec fn obeys_sub_spec() -> bool {
        true
    }

    open spec fn sub_req(self, prev: TaskMetrics) -> bool {
        true
    }

    open spec fn sub_spec(self, prev: TaskMetrics) -> TaskMetrics {
        self.since(prev)
    }
}

impl Sub for TaskMetrics {
    type Output = TaskMetrics;

    /// The interval between two cumulative readings, `self` being the later
    /// one. Each counter is subtracted modulo `2^64`, so the result is exact
    /// as long as no counter grew by `2^64` or more between the readings.
    fn sub(self, prev: TaskMetrics) -> (interval: TaskMetrics)
        ensures
            interval == self.since(prev),
    {
        TaskMetrics {
            num_tasks: self.num_tasks.wrapping_sub(prev.num_tasks),
            num_scheduled: self.num_scheduled.wrapping_sub(prev.num_scheduled),
            num_fast_polls: self.num_fast_polls.wrapping_sub(prev.num_fast_polls),
            num_slow_polls: self.num_slow_polls.wrapping_sub(prev.num_slow_polls),
            total_time_to_first_poll_ns: self.total_time_to_first_poll_ns.wrapping_sub(
                prev.total_time_to_first_poll_ns,
            ),
            total_time_scheduled_ns: self.total_time_scheduled_ns.wrapping_sub(
                prev.total_time_scheduled_ns,
            ),
            total_time_fast_poll_ns: self.total_time_fast_poll_ns.wrapping_sub(
                prev.total_time_fast_poll_ns,
            ),
            total_time_slow_poll_ns: self.total_time_slow_poll_ns.wrapping_sub(
                prev.total_time_slow_poll_ns,
            ),
        }
    }
}

impl Default for TaskMetrics {
    fn default() -> (metrics: TaskMetrics)
        ensures
            metrics == TaskMetrics::zero(),
    {
        TaskMetrics {
            num_tasks: 0,
            num_scheduled: 0,
            num_fast_polls: 0,
            num_slow_polls: 0,
            total_time_to_first_poll_ns: 0,
            total_time_scheduled_ns: 0,
            total_time_fast_poll_ns: 0,
            total_time_slow_poll_ns: 0,
        }
    }
}

} // verus!
