//! Monitors and their tasks as a state machine.
//!
//! The counters of a monitor are shared between threads, and what they hold
//! at a given moment is not known to any one of them. This module describes
//! in ghost code what they hold after a run: a run is a sequence of events,
//! each of which is one call of the library, in the order in which the calls
//! took effect on the shared state.

use crate::metrics::TaskMetrics;
use crate::sample::spec_poll_sample;
use crate::sample::Sample;
use crate::task::spec_begin_poll;
use crate::task::spec_wake;
use vstd::prelude::*;

verus! {

/// An instrumented task: the monitor it belongs to, whether it was polled
/// before, and its wake-up slot.
pub struct TaskModel {
    pub monitor: int,
    pub did_poll_once: bool,
    pub woke_at: u64,
}

/// A monitor: its slow-poll threshold in nanoseconds and its counters.
pub struct MonitorModel {
    pub threshold: u128,
    pub counters: TaskMetrics,
}

/// Some monitors and the tasks that were instrumented under them. A monitor
/// or a task is known by its place in the sequence.
pub struct System {
    pub monitors: Seq<MonitorModel>,
    pub tasks: Seq<TaskModel>,
}

/// One call of the library with what it observed of the clock.
pub enum Event {
    /// `TaskMonitor::instrument` on the given monitor: a new task.
    Instrument { monitor: int },
    /// `State::measure_wake` for the given task, `elapsed` nanoseconds after
    /// the task was instrumented.
    Wake { task: int, elapsed: u128 },
    /// `Instrumented::begin_poll` of the given task, `elapsed` nanoseconds
    /// after the task was instrumented and `delay` nanoseconds after the
    /// wake-up it claims.
    BeginPoll { task: int, elapsed: u128, delay: Option<u128> },
    /// `Instrumented::end_poll` or the end of `Instrumented::time_poll` of
    /// the given task, after a poll that took `duration` nanoseconds.
    EndPoll { task: int, duration: u128 },
}

impl System {
    /// Monitors with the given thresholds, their counters at zero, and no
    /// task yet.
    pub open spec fn fresh(thresholds: Seq<u128>) -> System {
        System {
            monitors: Seq::new(
                thresholds.len(),
                |m: int| MonitorModel { threshold: thresholds[m], counters: TaskMetrics::zero() },
            ),
            tasks: Seq::empty(),
        }
    }

    /// Whether `monitor` is a monitor of the system.
    pub open spec fn has_monitor(self, monitor: int) -> bool {
        0 <= monitor < self.monitors.len()
    }

    /// Whether `task` is a task of the system under one of its monitors.
    pub open spec fn has_task(self, task: int) -> bool {
        0 <= task < self.tasks.len() && self.has_monitor(self.tasks[task].monitor)
    }

    /// Whether `event` is a wake-up or a poll of a task of `monitor`.
    pub open spec fn touches(self, event: Event, monitor: int) -> bool {
        match event {
            Event::Instrument { .. } => false,
            Event::Wake { task, .. } | Event::BeginPoll { task, .. } | Event::EndPoll { task, .. } => {
                self.has_task(task) && self.tasks[task].monitor == monitor
            },
        }
    }

    /// Whether `event` is the beginning or the end of a poll of a task of
    /// `monitor`.
    pub open spec fn polls(self, event: Event, monitor: int) -> bool {
        (event is BeginPoll || event is EndPoll) && self.touches(event, monitor)
    }

    /// The system after `sample`, if there is one, was added to the counters
    /// of `monitor`.
    pub open spec fn recorded(self, monitor: int, sample: Option<Sample>) -> System {
        System {
            monitors: self.monitors.update(
                monitor,
                MonitorModel {
                    counters: self.monitors[monitor].counters.recorded_if(sample),
                    ..self.monitors[monitor]
                },
            ),
            ..self
        }
    }

    /// The system after `task` was replaced by `next`.
    pub open spec fn with_task(self, task: int, next: TaskModel) -> System {
        System { tasks: self.tasks.update(task, next), ..self }
    }

    /// The system after one event. An event that names a monitor or a task
    /// that the system does not have changes nothing.
    pub open spec fn step(self, event: Event) -> System {
        match event {
            Event::Instrument { monitor } => if self.has_monitor(monitor) {
                System {
                    tasks: self.tasks.push(TaskModel { monitor, did_poll_once: false, woke_at: 0 }),
                    ..self
                }
            } else {
                self
            },
            Event::Wake { task, elapsed } => if self.has_task(task) {
                let old = self.tasks[task];
                self.with_task(task, TaskModel { woke_at: spec_wake(old.woke_at, elapsed), ..old })
            } else {
                self
            },
            Event::BeginPoll { task, elapsed, delay } => if self.has_task(task) {
                let old = self.tasks[task];
                let started = spec_begin_poll(old.did_poll_once, old.woke_at, elapsed, delay);
                self.recorded(old.monitor, started.first_poll).recorded(
                    old.monitor,
                    started.scheduled,
                ).with_task(task, TaskModel { did_poll_once: true, woke_at: 0, ..old })
            } else {
                self
            },
            Event::EndPoll { task, duration } => if self.has_task(task) {
                let monitor = self.tasks[task].monitor;
                self.recorded(monitor, spec_poll_sample(duration, self.monitors[monitor].threshold))
            } else {
                self
            },
        }
    }

    /// The system after the events of `trace`, one after the other.
    pub open spec fn run(self, trace: Seq<Event>) -> System
        decreases trace.len(),
    {
        if trace.len() == 0 {
            self
        } else {
            self.run(trace.drop_last()).step(trace.last())
        }
    }
}

impl System {
    /// Whether `event` is the first poll of a task and comes too long after
    /// the task was instrumented for a counter to hold the time.
    pub open spec fn misses_first_poll(self, event: Event) -> bool {
        event matches Event::BeginPoll { task, elapsed, .. } && self.has_task(task)
            && !self.tasks[task].did_poll_once && elapsed > u64::MAX
    }

    /// Whether in the run of `trace` every first poll of a task comes soon
    /// enough after the task was instrumented for a counter to hold the time.
    pub open spec fn first_polls_fit(self, trace: Seq<Event>) -> bool
        decreases trace.len(),
    {
        trace.len() == 0 || (self.first_polls_fit(trace.drop_last()) && !self.run(
            trace.drop_last(),
        ).misses_first_poll(trace.last()))
    }

    /// Whether no poll of a task of `monitor` begins or ends in the run of
    /// `trace`.
    pub open spec fn never_polls(self, trace: Seq<Event>, monitor: int) -> bool
        decreases trace.len(),
    {
        trace.len() == 0 || (self.never_polls(trace.drop_last(), monitor) && !self.run(
            trace.drop_last(),
        ).polls(trace.last(), monitor))
    }

    /// The events of `trace` that matter to `monitor`: those that instrument
    /// a task, for these give tasks their places, and the wake-ups and polls
    /// of the tasks of `monitor`.
    pub open spec fn restricted_to(self, trace: Seq<Event>, monitor: int) -> Seq<Event>
        decreases trace.len(),
    {
        if trace.len() == 0 {
            Seq::empty()
        } else {
            let rest = self.restricted_to(trace.drop_last(), monitor);
            let event = trace.last();
            if event is Instrument || self.run(trace.drop_last()).touches(event, monitor) {
                rest.push(event)
            } else {
                rest
            }
        }
    }
}

/// Whether `task` is a task of `monitor`.
pub open spec fn is_task_of(task: TaskModel, monitor: int) -> bool {
    task.monitor == monitor
}

/// One if `task` is a task of `monitor` that was polled, zero if not.
pub open spec fn polled_count(task: TaskModel, monitor: int) -> nat {
    if is_task_of(task, monitor) && task.did_poll_once {
        1
    } else {
        0
    }
}

/// The number of tasks of `monitor` among `tasks`.
pub open spec fn tasks_of(tasks: Seq<TaskModel>, monitor: int) -> nat
    decreases tasks.len(),
{
    if tasks.len() == 0 {
        0
    } else if is_task_of(tasks.last(), monitor) {
        tasks_of(tasks.drop_last(), monitor) + 1
    } else {
        tasks_of(tasks.drop_last(), monitor)
    }
}

/// The number of tasks of `monitor` among `tasks` that were polled.
pub open spec fn polled_tasks_of(tasks: Seq<TaskModel>, monitor: int) -> nat
    decreases tasks.len(),
{
    if tasks.len() == 0 {
        0
    } else {
        polled_tasks_of(tasks.drop_last(), monitor) + polled_count(tasks.last(), monitor)
    }
}

/// Whether every task of `monitor` among `tasks` was polled.
pub open spec fn all_polled(tasks: Seq<TaskModel>, monitor: int) -> bool {
    forall|t: int|
        0 <= t < tasks.len() && is_task_of(#[trigger] tasks[t], monitor) ==> tasks[t].did_poll_once
}

} // verus!
