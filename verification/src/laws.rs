//! What holds of the counters, whatever the tasks and their pollers do.

use crate::metrics::counter_modulus;
use crate::metrics::wrapping_difference;
use crate::metrics::wrapping_sum;
use crate::metrics::TaskMetrics;
use crate::model::all_polled;
use crate::model::is_task_of;
use crate::model::polled_count;
use crate::model::polled_tasks_of;
use crate::model::tasks_of;
use crate::model::Event;
use crate::model::System;
use crate::model::TaskModel;
use crate::sample::spec_poll_sample;
use crate::sample::Sample;
use crate::task::spec_begin_poll;
use crate::task::spec_claimed_sample;
use vstd::prelude::*;

verus! {

/// Where no counter has wrapped around between two readings, that is where
/// no counter reads less than before, the interval between them is the plain
/// difference of each counter.
pub proof fn lemma_difference_without_wrap(newer: TaskMetrics, older: TaskMetrics)
    requires
        older.num_tasks <= newer.num_tasks,
        older.num_scheduled <= newer.num_scheduled,
        older.num_fast_polls <= newer.num_fast_polls,
        older.num_slow_polls <= newer.num_slow_polls,
        older.total_time_to_first_poll_ns <= newer.total_time_to_first_poll_ns,
        older.total_time_scheduled_ns <= newer.total_time_scheduled_ns,
        older.total_time_fast_poll_ns <= newer.total_time_fast_poll_ns,
        older.total_time_slow_poll_ns <= newer.total_time_slow_poll_ns,
    ensures
        newer.since(older).num_tasks == newer.num_tasks - older.num_tasks,
        newer.since(older).num_scheduled == newer.num_scheduled - older.num_scheduled,
        newer.since(older).num_fast_polls == newer.num_fast_polls - older.num_fast_polls,
        newer.since(older).num_slow_polls == newer.num_slow_polls - older.num_slow_polls,
        newer.since(older).total_time_to_first_poll_ns == newer.total_time_to_first_poll_ns
            - older.total_time_to_first_poll_ns,
        newer.since(older).total_time_scheduled_ns == newer.total_time_scheduled_ns
            - older.total_time_scheduled_ns,
        newer.since(older).total_time_fast_poll_ns == newer.total_time_fast_poll_ns
            - older.total_time_fast_poll_ns,
        newer.since(older).total_time_slow_poll_ns == newer.total_time_slow_poll_ns
            - older.total_time_slow_poll_ns,
{
}

/// A counter shows its true count modulo `2^64`. Where the true count was
/// `before` at one reading and has grown by `growth` until the next, the
/// difference of the two readings is `growth`, wrapped around or not, as long
/// as `growth` itself is less than `2^64`.
pub proof fn lemma_difference_across_wrap(before: int, growth: int)
    requires
        0 <= before,
        0 <= growth < counter_modulus(),
    ensures
        wrapping_difference(
            ((before + growth) % counter_modulus()) as u64,
            (before % counter_modulus()) as u64,
        ) == growth,
{
    let m = counter_modulus();
    let a = before % m;
    let b = (before + growth) % m;
    let q1 = before / m;
    let q2 = (before + growth) / m;
    assert(before == m * q1 + a) by {
        vstd::arithmetic::div_mod::lemma_fundamental_div_mod(before, m);
    }
    assert(before + growth == m * q2 + b) by {
        vstd::arithmetic::div_mod::lemma_fundamental_div_mod(before + growth, m);
    }
    assert(m * (q2 - q1) == m * q2 - m * q1) by (nonlinear_arith);
    assert(q2 - q1 == 0 || q2 - q1 == 1) by (nonlinear_arith)
        requires
            m * (q2 - q1) == growth - (b - a),
            0 <= growth < m,
            -m < b - a < m,
            m > 0,
    ;
}

/// Adding to a counter and taking the difference to what it read before
/// gives back what was added, whether the counter wrapped around or not.
pub proof fn lemma_difference_undoes_sum(counter: u64, amount: u64)
    ensures
        wrapping_difference(wrapping_sum(counter, amount), counter) == amount,
{
}

/// What a counter read before and what it has grown by since add up to what
/// it reads now.
pub proof fn lemma_sum_undoes_difference(newer: u64, older: u64)
    ensures
        wrapping_sum(older, wrapping_difference(newer, older)) == newer,
{
}

/// The interval between a reading and a later one, with one sample recorded
/// in between, holds that sample and nothing else.
pub proof fn lemma_interval_holds_what_was_recorded(before: TaskMetrics, sample: Sample)
    ensures
        before.recorded(sample).since(before) == TaskMetrics::zero().recorded(sample),
{
}

/// A poll that takes exactly the slow-poll threshold is a slow poll.
pub proof fn lemma_poll_at_threshold_is_slow(threshold: u128)
    requires
        threshold <= u64::MAX,
    ensures
        spec_poll_sample(threshold, threshold) == Some(Sample::SlowPoll { nanos: threshold as u64 }),
{
}

/// Instrumenting a task adds nothing to any counter.
pub proof fn lemma_instrumenting_adds_nothing(system: System, monitor: int)
    ensures
        system.step(Event::Instrument { monitor }).monitors == system.monitors,
{
}

/// An event that is not the beginning or the end of a poll of a task of
/// `monitor` leaves the counters of `monitor` as they are.
pub proof fn lemma_step_without_poll_adds_nothing(system: System, event: Event, monitor: int)
    requires
        system.has_monitor(monitor),
        !system.polls(event, monitor),
    ensures
        system.step(event).monitors.len() == system.monitors.len(),
        system.step(event).monitors[monitor] == system.monitors[monitor],
{
}

/// Tasks that are instrumented, and woken however often, but never polled
/// add nothing to the counters of their monitor.
pub proof fn lemma_unpolled_tasks_add_nothing(system: System, trace: Seq<Event>, monitor: int)
    requires
        system.has_monitor(monitor),
        system.never_polls(trace, monitor),
    ensures
        system.run(trace).monitors.len() == system.monitors.len(),
        system.run(trace).monitors[monitor] == system.monitors[monitor],
    decreases trace.len(),
{
    if trace.len() > 0 {
        lemma_unpolled_tasks_add_nothing(system, trace.drop_last(), monitor);
        lemma_step_without_poll_adds_nothing(system.run(trace.drop_last()), trace.last(), monitor);
    }
}

/// A task that is polled once, before any wake-up, adds one to the number of
/// tasks of its monitor and nothing to the number of scheduled polls or to
/// the time spent scheduled.
pub proof fn lemma_single_poll_without_wake(
    system: System,
    task: int,
    elapsed: u128,
    delay: Option<u128>,
    duration: u128,
)
    requires
        system.has_task(task),
        !system.tasks[task].did_poll_once,
        system.tasks[task].woke_at == 0,
        elapsed <= u64::MAX,
    ensures
        ({
            let monitor = system.tasks[task].monitor;
            let before = system.monitors[monitor].counters;
            let after = system.step(Event::BeginPoll { task, elapsed, delay }).step(
                Event::EndPoll { task, duration },
            ).monitors[monitor].counters;
            &&& after.num_tasks == wrapping_sum(before.num_tasks, 1)
            &&& after.total_time_to_first_poll_ns == wrapping_sum(
                before.total_time_to_first_poll_ns,
                elapsed as u64,
            )
            &&& after.num_scheduled == before.num_scheduled
            &&& after.total_time_scheduled_ns == before.total_time_scheduled_ns
        }),
{
}

/// Replacing one task changes the number of polled tasks of a monitor by
/// what the two tasks count for.
proof fn lemma_polled_tasks_after_update(
    tasks: Seq<TaskModel>,
    task: int,
    next: TaskModel,
    monitor: int,
)
    requires
        0 <= task < tasks.len(),
    ensures
        polled_tasks_of(tasks.update(task, next), monitor) + polled_count(tasks[task], monitor)
            == polled_tasks_of(tasks, monitor) + polled_count(next, monitor),
    decreases tasks.len(),
{
    let updated = tasks.update(task, next);
    if task == tasks.len() - 1 {
        assert(updated.drop_last() =~= tasks.drop_last());
    } else {
        assert(updated.drop_last() =~= tasks.drop_last().update(task, next));
        lemma_polled_tasks_after_update(tasks.drop_last(), task, next, monitor);
    }
}

/// A new task adds what it counts for to the number of polled tasks of a
/// monitor.
proof fn lemma_polled_tasks_after_push(tasks: Seq<TaskModel>, next: TaskModel, monitor: int)
    ensures
        polled_tasks_of(tasks.push(next), monitor) == polled_tasks_of(tasks, monitor)
            + polled_count(next, monitor),
{
    assert(tasks.push(next).drop_last() =~= tasks);
}

/// Where every task of a monitor was polled, the polled tasks of the monitor
/// are all its tasks.
proof fn lemma_all_polled(tasks: Seq<TaskModel>, monitor: int)
    requires
        all_polled(tasks, monitor),
    ensures
        polled_tasks_of(tasks, monitor) == tasks_of(tasks, monitor),
    decreases tasks.len(),
{
    if tasks.len() > 0 {
        let rest = tasks.drop_last();
        assert forall|t: int| 0 <= t < rest.len() && is_task_of(#[trigger] rest[t], monitor)
            implies rest[t].did_poll_once by {
            assert(rest[t] == tasks[t]);
        }
        assert(tasks.last() == tasks[tasks.len() - 1]);
        lemma_all_polled(rest, monitor);
    }
}

/// One event keeps the number of tasks that a monitor has counted in step
/// with the number of its tasks that were polled, and takes no task away
/// from these.
proof fn lemma_step_counts_first_polls(system: System, event: Event, monitor: int, base: int)
    requires
        system.has_monitor(monitor),
        !system.misses_first_poll(event),
        system.monitors[monitor].counters.num_tasks == (base + polled_tasks_of(
            system.tasks,
            monitor,
        )) % counter_modulus(),
    ensures
        system.step(event).monitors.len() == system.monitors.len(),
        polled_tasks_of(system.step(event).tasks, monitor) >= polled_tasks_of(system.tasks, monitor),
        system.step(event).monitors[monitor].counters.num_tasks == (base + polled_tasks_of(
            system.step(event).tasks,
            monitor,
        )) % counter_modulus(),
{
    match event {
        Event::Instrument { monitor: under } => {
            if system.has_monitor(under) {
                lemma_polled_tasks_after_push(
                    system.tasks,
                    TaskModel { monitor: under, did_poll_once: false, woke_at: 0 },
                    monitor,
                );
            }
        },
        Event::Wake { task, .. } => {
            if system.has_task(task) {
                lemma_polled_tasks_after_update(
                    system.tasks,
                    task,
                    system.step(event).tasks[task],
                    monitor,
                );
            }
        },
        Event::BeginPoll { task, .. } => {
            if system.has_task(task) {
                lemma_polled_tasks_after_update(
                    system.tasks,
                    task,
                    system.step(event).tasks[task],
                    monitor,
                );
            }
        },
        Event::EndPoll { .. } => {},
    }
}

/// Over a run, the number of tasks that a monitor has counted grows by the
/// number of its tasks that were polled for the first time, whatever the
/// order in which the tasks were instrumented, woken and polled. This holds
/// as long as no first poll comes so late that its sample is dropped.
pub proof fn lemma_first_polls_are_counted(system: System, trace: Seq<Event>, monitor: int)
    requires
        system.has_monitor(monitor),
        system.first_polls_fit(trace),
    ensures
        system.run(trace).monitors.len() == system.monitors.len(),
        polled_tasks_of(system.run(trace).tasks, monitor) >= polled_tasks_of(system.tasks, monitor),
        system.run(trace).monitors[monitor].counters.num_tasks == (
        system.monitors[monitor].counters.num_tasks + polled_tasks_of(
            system.run(trace).tasks,
            monitor,
        ) - polled_tasks_of(system.tasks, monitor)) % counter_modulus(),
    decreases trace.len(),
{
    if trace.len() > 0 {
        let before = system.run(trace.drop_last());
        lemma_first_polls_are_counted(system, trace.drop_last(), monitor);
        let base = system.monitors[monitor].counters.num_tasks - polled_tasks_of(
            system.tasks,
            monitor,
        );
        lemma_step_counts_first_polls(before, trace.last(), monitor, base);
    }
}

/// Every task is counted once, not once per poll: when each task of a fresh
/// monitor has been polled at least once, the monitor has counted as many
/// tasks as were instrumented under it, whatever the order in which the
/// tasks were instrumented, woken and polled, and however often. This holds
/// as long as no first poll comes so late that its sample is dropped.
pub proof fn lemma_each_task_is_counted_once(
    thresholds: Seq<u128>,
    trace: Seq<Event>,
    monitor: int,
)
    requires
        0 <= monitor < thresholds.len(),
        System::fresh(thresholds).first_polls_fit(trace),
        all_polled(System::fresh(thresholds).run(trace).tasks, monitor),
    ensures
        System::fresh(thresholds).run(trace).monitors[monitor].counters.num_tasks == tasks_of(
            System::fresh(thresholds).run(trace).tasks,
            monitor,
        ) % (counter_modulus() as nat),
{
    let fresh = System::fresh(thresholds);
    lemma_first_polls_are_counted(fresh, trace, monitor);
    lemma_all_polled(fresh.run(trace).tasks, monitor);
}

/// A poll that finds the wake-up slot empty records no time spent scheduled,
/// whatever the clock says.
pub proof fn lemma_empty_slot_claims_nothing(
    did_poll_once: bool,
    elapsed: u128,
    delay: Option<u128>,
)
    ensures
        spec_claimed_sample(0, delay) is None,
        spec_begin_poll(did_poll_once, 0, elapsed, delay).scheduled is None,
{
}

/// A poll records time spent scheduled only for a wake-up that it claimed,
/// and then only the time since that wake-up.
pub proof fn lemma_scheduled_sample_has_a_wake(
    did_poll_once: bool,
    woke_at: u64,
    elapsed: u128,
    delay: Option<u128>,
)
    requires
        spec_begin_poll(did_poll_once, woke_at, elapsed, delay).scheduled is Some,
    ensures
        woke_at != 0,
        delay matches Some(nanos) && nanos <= u64::MAX && spec_begin_poll(
            did_poll_once,
            woke_at,
            elapsed,
            delay,
        ).scheduled == Some(Sample::Scheduled { nanos: nanos as u64 }),
{
}

/// Of the wake-ups that come before one poll, the first is kept and the
/// others change nothing.
pub proof fn lemma_first_wake_wins(system: System, task: int, first: u128, later: u128)
    requires
        0 < first <= u64::MAX,
    ensures
        system.step(Event::Wake { task, elapsed: first }).step(Event::Wake { task, elapsed: later })
            == system.step(Event::Wake { task, elapsed: first }),
{
    let woken = system.step(Event::Wake { task, elapsed: first });
    if system.has_task(task) {
        assert(woken.step(Event::Wake { task, elapsed: later }).tasks =~= woken.tasks);
    }
}

/// A wake-up is claimed by one poll only: a poll that follows another with no
/// wake-up in between adds nothing to the number of scheduled polls or to the
/// time spent scheduled.
pub proof fn lemma_wake_is_claimed_once(
    system: System,
    task: int,
    first: Event,
    second: Event,
)
    requires
        system.has_task(task),
        first matches Event::BeginPoll { task: polled, .. } && polled == task,
        second matches Event::BeginPoll { task: polled, .. } && polled == task,
    ensures
        ({
            let monitor = system.tasks[task].monitor;
            let between = system.step(first).monitors[monitor].counters;
            let after = system.step(first).step(second).monitors[monitor].counters;
            &&& after.num_scheduled == between.num_scheduled
            &&& after.total_time_scheduled_ns == between.total_time_scheduled_ns
        }),
{
}

/// Whether two systems hold the same for `monitor`: its counters and its
/// tasks. The tasks of other monitors need only stand at the same places.
spec fn agree_on(left: System, right: System, monitor: int) -> bool {
    &&& left.monitors.len() == right.monitors.len()
    &&& left.has_monitor(monitor)
    &&& left.monitors[monitor] == right.monitors[monitor]
    &&& left.tasks.len() == right.tasks.len()
    &&& forall|t: int|
        0 <= t < left.tasks.len() ==> (#[trigger] left.tasks[t]).monitor == right.tasks[t].monitor
    &&& forall|t: int|
        0 <= t < left.tasks.len() && (#[trigger] left.tasks[t]).monitor == monitor ==> left.tasks[t]
            == right.tasks[t]
}

/// An event that instruments a task, or that is a wake-up or a poll of a
/// task of `monitor`, takes two systems that agree on `monitor` to two that
/// agree on it.
proof fn lemma_step_keeps_agreement(left: System, right: System, event: Event, monitor: int)
    requires
        agree_on(left, right, monitor),
        event is Instrument || left.touches(event, monitor),
    ensures
        agree_on(left.step(event), right.step(event), monitor),
{
    let (left_next, right_next) = (left.step(event), right.step(event));
    match event {
        Event::Instrument { .. } => {},
        Event::Wake { task, .. } | Event::BeginPoll { task, .. } | Event::EndPoll { task, .. } => {
            assert(left.tasks[task] == right.tasks[task]);
            assert(right.has_task(task));
        },
    }
    assert forall|t: int| 0 <= t < left_next.tasks.len() implies (
    #[trigger] left_next.tasks[t]).monitor == right_next.tasks[t].monitor by {
        if t < left.tasks.len() {
            assert(left.tasks[t].monitor == right.tasks[t].monitor);
        }
    }
    assert forall|t: int|
        0 <= t < left_next.tasks.len() && (#[trigger] left_next.tasks[t]).monitor
            == monitor implies left_next.tasks[t] == right_next.tasks[t] by {
        if t < left.tasks.len() {
            assert(left.tasks[t].monitor == right.tasks[t].monitor);
        }
    }
}

/// A wake-up or a poll of a task of another monitor changes nothing for
/// `monitor`.
proof fn lemma_step_elsewhere_keeps_agreement(
    left: System,
    right: System,
    event: Event,
    monitor: int,
)
    requires
        agree_on(left, right, monitor),
        !(event is Instrument),
        !left.touches(event, monitor),
    ensures
        agree_on(left.step(event), right, monitor),
{
    let left_next = left.step(event);
    assert forall|t: int| 0 <= t < left_next.tasks.len() implies (
    #[trigger] left_next.tasks[t]).monitor == right.tasks[t].monitor by {
        assert(left.tasks[t].monitor == right.tasks[t].monitor);
    }
    assert forall|t: int|
        0 <= t < left_next.tasks.len() && (#[trigger] left_next.tasks[t]).monitor
            == monitor implies left_next.tasks[t] == right.tasks[t] by {
        assert(left.tasks[t].monitor == right.tasks[t].monitor);
    }
}

/// A run and the same run without the wake-ups and polls of the tasks of
/// other monitors end in systems that agree on `monitor`.
proof fn lemma_restricted_run_agrees(system: System, trace: Seq<Event>, monitor: int)
    requires
        system.has_monitor(monitor),
    ensures
        agree_on(system.run(trace), system.run(system.restricted_to(trace, monitor)), monitor),
    decreases trace.len(),
{
    if trace.len() > 0 {
        let before = system.run(trace.drop_last());
        let rest = system.restricted_to(trace.drop_last(), monitor);
        let event = trace.last();
        lemma_restricted_run_agrees(system, trace.drop_last(), monitor);
        if event is Instrument || before.touches(event, monitor) {
            assert(rest.push(event).drop_last() =~= rest);
            lemma_step_keeps_agreement(before, system.run(rest), event, monitor);
        } else {
            lemma_step_elsewhere_keeps_agreement(before, system.run(rest), event, monitor);
        }
    }
}

/// Monitors count independently of each other: the counters of a monitor
/// after a run are what they would be had no task of another monitor been
/// woken or polled. So a computation that is instrumented under two
/// monitors, one wrap inside the other, counts under each as if the other
/// were not there.
pub proof fn lemma_monitors_are_independent(system: System, trace: Seq<Event>, monitor: int)
    requires
        system.has_monitor(monitor),
    ensures
        system.run(trace).monitors[monitor] == system.run(
            system.restricted_to(trace, monitor),
        ).monitors[monitor],
{
    lemma_restricted_run_agrees(system, trace, monitor);
}

} // verus!
