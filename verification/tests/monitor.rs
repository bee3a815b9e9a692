use std::time::Duration;
use task_metrics::monitor::interval;
use task_metrics::PollStart;
use task_metrics::Sample;
use task_metrics::TaskMetrics;
use task_metrics::TaskMonitor;
use tokio::runtime::Builder;
use tokio::runtime::Runtime;
use tokio::time::advance;

/// A runtime whose clock stands still until it is advanced.
fn paused() -> Runtime {
    Builder::new_current_thread().enable_time().start_paused(true).build().unwrap()
}

#[test]
fn default_threshold_is_fifty_microseconds() {
    assert_eq!(TaskMonitor::new().slow_poll_threshold(), Duration::from_micros(50));
    assert_eq!(task_metrics::monitor::DEFAULT_SLOW_POLL_THRESHOLD_NANOS, 50_000);
}

#[test]
fn threshold_is_the_one_given() {
    let monitor = TaskMonitor::with_slow_poll_threshold(Duration::from_millis(7));
    assert_eq!(monitor.slow_poll_threshold(), Duration::from_millis(7));
    assert_eq!(monitor.clone().slow_poll_threshold(), Duration::from_millis(7));
}

#[test]
fn fresh_monitor_reads_zero() {
    assert_eq!(TaskMonitor::new().cumulative(), TaskMetrics::default());
}

#[test]
fn task_never_polled_adds_nothing() {
    let monitor = TaskMonitor::new();
    let task = monitor.instrument(());
    assert_eq!(monitor.cumulative(), TaskMetrics::default());
    task.shared_state().measure_wake();
    task.shared_state().measure_wake();
    drop(task);
    assert_eq!(monitor.cumulative(), TaskMetrics::default());
}

#[test]
fn task_polled_once_without_wake_counts_once() {
    paused().block_on(async {
        let monitor = TaskMonitor::with_slow_poll_threshold(Duration::from_micros(50));
        let mut task = monitor.instrument(());
        advance(Duration::from_millis(2)).await;
        let started = task.begin_poll();
        assert_eq!(
            started,
            PollStart {
                first_poll: Some(Sample::FirstPoll { nanos: 2_000_000 }),
                claimed: 0,
                scheduled: None,
            }
        );
        assert_eq!(task.end_poll(Duration::from_micros(20)), Some(Sample::FastPoll { nanos: 20_000 }));
        let metrics = monitor.cumulative();
        assert_eq!(metrics.num_tasks, 1);
        assert_eq!(metrics.num_scheduled, 0);
        assert_eq!(metrics.total_time_to_first_poll_ns, 2_000_000);
        assert_eq!(metrics.total_time_scheduled_ns, 0);
        assert_eq!(metrics.num_fast_polls, 1);
        assert_eq!(metrics.total_time_fast_poll_ns, 20_000);
        assert_eq!(metrics.num_slow_polls, 0);
        assert_eq!(metrics.total_time_slow_poll_ns, 0);
    });
}

#[test]
fn three_fast_polls_without_wake() {
    let monitor = TaskMonitor::with_slow_poll_threshold(Duration::from_micros(50));
    let mut task = monitor.instrument(3u32);
    while *task.get_ref() > 0 {
        let started = task.begin_poll();
        assert_eq!(started.claimed, 0);
        assert_eq!(started.scheduled, None);
        *task.get_mut() -= 1;
        task.end_poll(Duration::from_micros(10));
    }
    let metrics = monitor.cumulative();
    assert_eq!(metrics.num_fast_polls, 3);
    assert_eq!(metrics.num_slow_polls, 0);
    assert_eq!(metrics.num_scheduled, 0);
    assert_eq!(metrics.num_tasks, 1);
    assert_eq!(metrics.num_polls(), 3);
    assert_eq!(metrics.total_time_fast_poll(), Duration::from_micros(30));
    assert_eq!(metrics.mean_fast_polls(), Duration::from_micros(10));
}

#[test]
fn poll_of_exactly_the_threshold_counts_as_slow() {
    let monitor = TaskMonitor::with_slow_poll_threshold(Duration::from_micros(50));
    let mut task = monitor.instrument(());
    task.begin_poll();
    assert_eq!(task.end_poll(Duration::from_micros(50)), Some(Sample::SlowPoll { nanos: 50_000 }));
    let metrics = monitor.cumulative();
    assert_eq!(metrics.num_slow_polls, 1);
    assert_eq!(metrics.total_time_slow_poll_ns, 50_000);
    assert_eq!(metrics.num_fast_polls, 0);
    assert_eq!(metrics.total_time_fast_poll_ns, 0);
}

#[test]
fn each_task_counts_once_however_often_it_is_polled() {
    let monitor = TaskMonitor::new();
    let mut tasks = vec![monitor.instrument(1u8), monitor.instrument(2u8), monitor.instrument(3u8)];
    for round in 0..4u8 {
        for task in tasks.iter_mut() {
            if round < *task.get_ref() {
                let started = task.begin_poll();
                assert_eq!(started.first_poll.is_some(), round == 0);
                task.end_poll(Duration::from_micros(1));
            }
        }
    }
    let metrics = monitor.cumulative();
    assert_eq!(metrics.num_tasks, 3);
    assert_eq!(metrics.num_polls(), 6);
}

#[test]
fn wake_is_claimed_by_the_next_poll_only() {
    paused().block_on(async {
        let monitor = TaskMonitor::new();
        let mut task = monitor.instrument(());
        let waker = task.shared_state();
        advance(Duration::from_millis(1)).await;
        task.begin_poll();
        task.end_poll(Duration::from_micros(5));

        advance(Duration::from_millis(4)).await;
        waker.measure_wake();
        advance(Duration::from_millis(3)).await;
        let started = task.begin_poll();
        assert_eq!(
            started,
            PollStart {
                first_poll: None,
                claimed: 5_000_000,
                scheduled: Some(Sample::Scheduled { nanos: 3_000_000 }),
            }
        );
        task.end_poll(Duration::from_micros(5));

        // Not woken again: the next poll has nothing to claim.
        advance(Duration::from_millis(3)).await;
        let started = task.begin_poll();
        assert_eq!(started, PollStart { first_poll: None, claimed: 0, scheduled: None });

        let metrics = monitor.cumulative();
        assert_eq!(metrics.num_tasks, 1);
        assert_eq!(metrics.num_scheduled, 1);
        assert_eq!(metrics.total_time_scheduled(), Duration::from_millis(3));
        assert_eq!(metrics.mean_time_scheduled(), Duration::from_millis(3));
    });
}

#[test]
fn wakes_before_one_poll_are_one_sample_from_the_first() {
    paused().block_on(async {
        let monitor = TaskMonitor::new();
        let mut task = monitor.instrument(());
        let waker = task.shared_state();
        advance(Duration::from_millis(1)).await;
        waker.measure_wake();
        advance(Duration::from_millis(2)).await;
        waker.measure_wake();
        advance(Duration::from_millis(4)).await;
        let started = task.begin_poll();
        assert_eq!(started.first_poll, Some(Sample::FirstPoll { nanos: 7_000_000 }));
        assert_eq!(started.claimed, 1_000_000);
        assert_eq!(started.scheduled, Some(Sample::Scheduled { nanos: 6_000_000 }));
        assert_eq!(monitor.cumulative().num_scheduled, 1);
    });
}

#[test]
fn wake_at_the_moment_of_instrumenting_leaves_no_trace() {
    paused().block_on(async {
        let monitor = TaskMonitor::new();
        let mut task = monitor.instrument(());
        // No time has passed: the offset is zero, which stands for "no wake".
        task.shared_state().measure_wake();
        advance(Duration::from_millis(1)).await;
        let started = task.begin_poll();
        assert_eq!(started.claimed, 0);
        assert_eq!(started.scheduled, None);
    });
}

#[test]
fn two_monitors_count_independently() {
    let outer_monitor = TaskMonitor::with_slow_poll_threshold(Duration::from_micros(50));
    let inner_monitor = TaskMonitor::with_slow_poll_threshold(Duration::from_micros(5));
    // One computation, wrapped by both monitors.
    let mut task = outer_monitor.instrument(inner_monitor.instrument(2u32));
    while *task.get_ref().get_ref() > 0 {
        task.begin_poll();
        task.get_mut().begin_poll();
        *task.get_mut().get_mut() -= 1;
        task.get_mut().end_poll(Duration::from_micros(10));
        task.end_poll(Duration::from_micros(12));
    }
    // A second task that only the inner monitor knows.
    let mut other = inner_monitor.instrument(());
    other.begin_poll();
    other.end_poll(Duration::from_micros(1));

    let outer = outer_monitor.cumulative();
    assert_eq!(outer.num_tasks, 1);
    assert_eq!(outer.num_fast_polls, 2);
    assert_eq!(outer.num_slow_polls, 0);
    assert_eq!(outer.total_time_fast_poll_ns, 24_000);
    let inner = inner_monitor.cumulative();
    assert_eq!(inner.num_tasks, 2);
    assert_eq!(inner.num_fast_polls, 1);
    assert_eq!(inner.num_slow_polls, 2);
    assert_eq!(inner.total_time_slow_poll_ns, 20_000);
}

#[test]
fn clones_of_a_monitor_share_counters() {
    let monitor = TaskMonitor::new();
    let clone = monitor.clone();
    let mut task = clone.instrument(());
    task.begin_poll();
    task.end_poll(Duration::from_secs(1));
    assert_eq!(monitor.cumulative().num_tasks, 1);
    assert_eq!(monitor.cumulative().num_slow_polls, 1);
    assert_eq!(monitor.cumulative(), clone.cumulative());
}

#[test]
fn into_parts_keeps_the_accounting() {
    let monitor = TaskMonitor::new();
    let mut task = monitor.instrument("job");
    assert!(task.begin_poll().first_poll.is_some());
    let (inner, mut tracker) = task.into_parts();
    assert_eq!(inner, "job");
    assert_eq!(tracker.begin_poll().first_poll, None);
    tracker.end_poll(Duration::from_nanos(1));
    let metrics = monitor.cumulative();
    assert_eq!(metrics.num_tasks, 1);
    assert_eq!(metrics.num_fast_polls, 1);
}

#[test]
fn first_interval_is_the_cumulative_reading() {
    let monitor = TaskMonitor::new();
    let mut task = monitor.instrument(());
    task.begin_poll();
    task.end_poll(Duration::from_micros(1));
    let mut intervals = monitor.intervals();
    assert_eq!(intervals.next(), Some(monitor.cumulative()));
}

#[test]
fn later_intervals_hold_what_happened_since() {
    let monitor = TaskMonitor::with_slow_poll_threshold(Duration::from_micros(50));
    let mut intervals = monitor.intervals();
    assert_eq!(intervals.next(), Some(TaskMetrics::default()));

    let mut task = monitor.instrument(());
    task.begin_poll();
    task.end_poll(Duration::from_micros(10));
    task.begin_poll();
    task.end_poll(Duration::from_micros(60));
    let second = intervals.next().unwrap();
    assert_eq!(second.num_tasks, 1);
    assert_eq!(second.num_fast_polls, 1);
    assert_eq!(second.num_slow_polls, 1);
    assert_eq!(second.total_time_slow_poll_ns, 60_000);

    task.begin_poll();
    task.end_poll(Duration::from_micros(10));
    let third = intervals.next().unwrap();
    assert_eq!(third.num_tasks, 0);
    assert_eq!(third.num_fast_polls, 1);
    assert_eq!(third.total_time_fast_poll_ns, 10_000);
    assert_eq!(third.num_slow_polls, 0);

    assert_eq!(intervals.next(), Some(TaskMetrics::default()));
}

#[test]
fn interval_without_a_previous_reading_is_the_reading() {
    let mut latest = TaskMetrics::default();
    latest.num_tasks = 4;
    assert_eq!(interval(None, latest), latest);
    let mut previous = TaskMetrics::default();
    previous.num_tasks = 1;
    assert_eq!(interval(Some(previous), latest).num_tasks, 3);
}

#[test]
fn time_poll_hands_back_what_the_step_returns() {
    paused().block_on(async {
        let monitor = TaskMonitor::with_slow_poll_threshold(Duration::from_micros(50));
        let mut task = monitor.instrument(());
        task.begin_poll();
        // The clock stands still, so the step takes no time at all.
        let timed = task.time_poll(|| 6 * 7);
        assert_eq!(timed.output, 42);
        assert_eq!(timed.duration, Duration::ZERO);
        assert_eq!(timed.sample, Some(Sample::FastPoll { nanos: 0 }));
        let metrics = monitor.cumulative();
        assert_eq!(metrics.num_fast_polls, 1);
        assert_eq!(metrics.total_time_fast_poll_ns, 0);
        assert_eq!(metrics.num_slow_polls, 0);
    });
}

#[test]
fn time_poll_counts_every_poll_as_slow_under_a_zero_threshold() {
    let monitor = TaskMonitor::with_slow_poll_threshold(Duration::ZERO);
    let mut task = monitor.instrument(());
    task.begin_poll();
    let timed = task.time_poll(|| "done");
    assert_eq!(timed.output, "done");
    assert_eq!(
        timed.sample,
        Some(Sample::SlowPoll { nanos: u64::try_from(timed.duration.as_nanos()).unwrap() })
    );
    let metrics = monitor.cumulative();
    assert_eq!(metrics.num_slow_polls, 1);
    assert_eq!(metrics.num_fast_polls, 0);
}

#[test]
fn counters_wrap_around_silently() {
    let monitor = TaskMonitor::with_slow_poll_threshold(Duration::from_micros(50));
    let mut task = monitor.instrument(());
    task.begin_poll();
    task.end_poll(Duration::from_nanos(u64::MAX));
    let before = monitor.cumulative();
    assert_eq!(before.total_time_slow_poll_ns, u64::MAX);
    task.end_poll(Duration::from_nanos(26));
    let after = monitor.cumulative();
    assert_eq!(after.num_slow_polls, 1);
    assert_eq!(after.num_fast_polls, 1);
    task.end_poll(Duration::from_nanos(u64::MAX));
    let after = monitor.cumulative();
    assert_eq!(after.num_slow_polls, 2);
    assert_eq!(after.total_time_slow_poll_ns, u64::MAX - 1);
    // The interval is right although the total wrapped around in between.
    assert_eq!((after - before).total_time_slow_poll_ns, u64::MAX);
    assert_eq!((after - before).num_slow_polls, 1);
}

#[test]
fn poll_too_long_for_a_counter_is_not_recorded() {
    let monitor = TaskMonitor::new();
    let mut task = monitor.instrument(());
    task.begin_poll();
    assert_eq!(task.end_poll(Duration::MAX), None);
    let metrics = monitor.cumulative();
    assert_eq!(metrics.num_polls(), 0);
    assert_eq!(metrics.total_time_slow_poll_ns, 0);
    assert_eq!(metrics.num_tasks, 1);
}

#[test]
fn five_wakes_each_followed_by_a_poll_are_five_scheduled_polls() {
    paused().block_on(async {
        let monitor = TaskMonitor::new();
        let mut task = monitor.instrument(());
        let waker = task.shared_state();
        advance(Duration::from_millis(1)).await;
        let mut woken_at = 0;
        for round in 0..6u64 {
            let started = task.begin_poll();
            assert_eq!(started.first_poll.is_some(), round == 0);
            assert_eq!(started.claimed, woken_at);
            assert_eq!(started.scheduled.is_some(), round > 0);
            task.end_poll(Duration::from_micros(1));
            if round < 5 {
                // The step wakes its task before it returns.
                waker.measure_wake();
                woken_at = 1_000_000 + round * 2_000_000;
                advance(Duration::from_millis(2)).await;
            }
        }
        let metrics = monitor.cumulative();
        assert_eq!(metrics.num_scheduled, 5);
        assert_eq!(metrics.total_time_scheduled_ns, 10_000_000);
        assert_eq!(metrics.num_polls(), 6);
        assert_eq!(metrics.num_tasks, 1);
    });
}

#[test]
fn one_wake_is_claimed_by_one_poll() {
    paused().block_on(async {
        let monitor = TaskMonitor::new();
        let mut task = monitor.instrument(());
        advance(Duration::from_millis(1)).await;
        task.shared_state().measure_wake();
        advance(Duration::from_millis(1)).await;
        let first = task.begin_poll();
        let second = task.begin_poll();
        assert_eq!(first.claimed, 1_000_000);
        assert_eq!(first.scheduled, Some(Sample::Scheduled { nanos: 1_000_000 }));
        assert_eq!(second.claimed, 0);
        assert_eq!(second.scheduled, None);
        assert_eq!(monitor.cumulative().num_scheduled, 1);
        assert_eq!(monitor.cumulative().total_time_scheduled_ns, 1_000_000);
    });
}
