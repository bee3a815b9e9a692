//! The per-task state of an instrumented task and the accounting of its
//! execution steps.

use crate::clock::duration_nanos;
use crate::registry::RawMetrics;
use crate::sample::first_poll_sample;
use crate::sample::poll_sample;
use crate::sample::scheduled_sample;
use crate::sample::counter_nanos;
use crate::sample::duration_counter_nanos;
use crate::sample::spec_first_poll_sample;
use crate::sample::spec_poll_sample;
use crate::sample::spec_scheduled_sample;
use crate::sample::Sample;
use std::sync::atomic::AtomicU64;
use std::sync::atomic::Ordering;
use std::sync::Arc;
use std::time::Duration;
use tokio::time::Instant;
use vstd::prelude::*;

verus! {

/// What the beginning of a poll found and what it added to the counters.
#[derive(Debug, Clone, Copy, PartialEq, Eq, Structural)]
pub struct PollStart {
    /// The sample of the first poll, if this poll was the task's first.
    pub first_poll: Option<Sample>,
    /// What the wake-up slot held when this poll claimed it: zero if no
    /// wake-up was pending, else the nanoseconds between the moment the task
    /// was instrumented and the wake-up.
    pub claimed: u64,
    /// The sample of the wake-up that this poll claimed, if one was pending.
    pub scheduled: Option<Sample>,
}

/// What a timed poll returned, the time it took and what that added to the
/// counters.
#[derive(Debug)]
pub struct TimedPoll<R> {
    /// What the step returned.
    pub output: R,
    /// The time that the step took.
    pub duration: Duration,
    /// The sample of the poll, if its time fits a counter.
    pub sample: Option<Sample>,
}

/// The wake-up slot after a wake-up that came `elapsed` nanoseconds after the
/// task was instrumented. An empty slot, which holds zero, takes the time of
/// the wake-up if a counter can hold it; a taken slot keeps what it has.
pub open spec fn spec_wake(woke_at: u64, elapsed: u128) -> u64 {
    match counter_nanos(elapsed) {
        Some(nanos) => if woke_at == 0 {
            nanos
        } else {
            woke_at
        },
        None => woke_at,
    }
}

/// What a poll records of the wake-up that it claims. `woke_at` is what the
/// wake-up slot held, zero if no wake-up was pending; `delay` is the time in
/// nanoseconds since that wake-up, if the clock could tell it.
pub open spec fn spec_claimed_sample(woke_at: u64, delay: Option<u128>) -> Option<Sample> {
    if woke_at == 0 {
        None
    } else {
        match delay {
            Some(delay) => spec_scheduled_sample(delay),
            None => None,
        }
    }
}

/// The nanoseconds of `delay`, if there is one.
pub open spec fn delay_nanos(delay: Option<Duration>) -> Option<u128> {
    match delay {
        Some(delay) => Some(duration_nanos(delay)),
        None => None,
    }
}

/// Decides what a poll records of the wake-up that it claims. `woke_at` is
/// what the wake-up slot held and `delay` the time since that wake-up, if the
/// clock could tell it. A poll that found the slot empty records nothing,
/// whatever `delay` is; so does one whose delay is unknown or does not fit a
/// counter.
pub fn claimed_sample(woke_at: u64, delay: Option<Duration>) -> (sample: Option<Sample>)
    ensures
        sample == spec_claimed_sample(woke_at, delay_nanos(delay)),
{
    if woke_at == 0 {
        None
    } else {
        match delay {
            Some(delay) => scheduled_sample(delay),
            None => None,
        }
    }
}

/// What the beginning of a poll finds and records. `did_poll_once` tells
/// whether the task was polled before, `elapsed` the nanoseconds since it was
/// instrumented; `woke_at` and `delay` are as in [`spec_claimed_sample`].
pub open spec fn spec_begin_poll(
    did_poll_once: bool,
    woke_at: u64,
    elapsed: u128,
    delay: Option<u128>,
) -> PollStart {
    PollStart {
        first_poll: if did_poll_once {
            None
        } else {
            spec_first_poll_sample(elapsed)
        },
        claimed: woke_at,
        scheduled: spec_claimed_sample(woke_at, delay),
    }
}

/// The state that an instrumented task shares with the wakers handed out on
/// its behalf.
///
/// `woke_at` is zero while no wake-up is pending. Otherwise it holds the
/// nanoseconds between `instrumented_at` and the first wake-up that no poll
/// has claimed yet.
pub struct State {
    metrics: Arc<RawMetrics>,
    instrumented_at: Instant,
    woke_at: AtomicU64,
}

impl State {
    /// The counters that the task adds to.
    pub closed spec fn registry(&self) -> Arc<RawMetrics> {
        self.metrics
    }

    /// The slow-poll threshold of the monitor that the task belongs to.
    pub open spec fn threshold(&self) -> Duration {
        self.registry().threshold()
    }

    /// The state of a task that is instrumented now, under the given
    /// counters, with no wake-up pending.
    pub(crate) fn new(metrics: Arc<RawMetrics>) -> (state: State)
        ensures
            state.registry() == metrics,
    {
        State { metrics, instrumented_at: Instant::now(), woke_at: AtomicU64::new(0) }
    }

    /// Notes that the task is being woken now. Only the first wake-up since
    /// the last poll is kept: later ones find the slot taken and change
    /// nothing. A wake-up whose time does not fit a counter is not noted.
    pub fn measure_wake(&self) {
        match duration_counter_nanos(self.instrumented_at.elapsed()) {
            Some(woke_at) => {
                let _ = self.woke_at.compare_exchange(0, woke_at, Ordering::SeqCst, Ordering::SeqCst);
            },
            None => {},
        }
    }

    /// Records the first poll of the task: the time since it was
    /// instrumented, unless that does not fit a counter. Returns what was
    /// recorded.
    fn measure_first_poll(&self) -> (sample: Option<Sample>)
        ensures
            exists|elapsed: u128| sample == spec_first_poll_sample(elapsed),
    {
        let sample = first_poll_sample(self.instrumented_at.elapsed());
        match sample {
            Some(s) => self.metrics.record(s),
            None => {},
        }
        sample
    }

    /// Claims the pending wake-up, if there is one, and records the time
    /// that has passed since it. Returns what the wake-up slot held and what
    /// was recorded. The clock is read only if a wake-up was pending.
    fn measure_poll(&self) -> (claim: (u64, Option<Sample>))
        ensures
            exists|delay: Option<u128>| claim.1 == #[trigger] spec_claimed_sample(claim.0, delay),
    {
        let woke_at = self.woke_at.swap(0, Ordering::SeqCst);
        let delay = if woke_at == 0 {
            None
        } else {
            match self.instrumented_at.checked_add(Duration::from_nanos(woke_at)) {
                Some(woken) => Some(woken.elapsed()),
                // The moment of the wake-up is beyond what the clock can tell.
                None => None,
            }
        };
        let sample = claimed_sample(woke_at, delay);
        match sample {
            Some(s) => self.metrics.record(s),
            None => {},
        }
        let claim = (woke_at, sample);
        assert(claim.1 == spec_claimed_sample(claim.0, delay_nanos(delay)));
        claim
    }

    /// Records a poll that took `duration`, as slow if it took at least the
    /// monitor's threshold and as fast otherwise. Returns what was recorded:
    /// nothing if the time does not fit a counter.
    fn measure_poll_time(&self, duration: Duration) -> (sample: Option<Sample>)
        ensures
            sample == spec_poll_sample(duration_nanos(duration), duration_nanos(self.threshold())),
    {
        let sample = poll_sample(duration, self.metrics.slow_poll_threshold());
        match sample {
            Some(s) => self.metrics.record(s),
            None => {},
        }
        sample
    }
}

/// A task together with the state that accounts for its execution steps.
///
/// Whoever drives the task calls [`Instrumented::begin_poll`] before each
/// execution step. The step itself either runs inside
/// [`Instrumented::time_poll`], which takes its time, or is followed by
/// [`Instrumented::end_poll`] with the time it took.
pub struct Instrumented<T> {
    task: T,
    did_poll_once: bool,
    state: Arc<State>,
}

impl<T> Instrumented<T> {
    /// The task that was instrumented.
    pub closed spec fn task(&self) -> T {
        self.task
    }

    /// Whether a poll of the task has begun before.
    pub closed spec fn did_poll_once(&self) -> bool {
        self.did_poll_once
    }

    /// The state that the task shares with its wakers.
    pub closed spec fn state(&self) -> Arc<State> {
        self.state
    }

    /// Pairs `task` with `state`, no poll having begun yet.
    pub(crate) fn new(task: T, state: State) -> (instrumented: Instrumented<T>)
        ensures
            instrumented.task() == task,
            !instrumented.did_poll_once(),
            *instrumented.state() == state,
    {
        Instrumented { task, did_poll_once: false, state: Arc::new(state) }
    }

    /// Accounts for the beginning of an execution step. The first time it
    /// records the time since the task was instrumented; every time it claims
    /// the pending wake-up, if there is one, and records the time since then.
    /// Returns what the wake-up slot held and what was recorded: a poll that
    /// found the slot empty records no time spent scheduled.
    pub fn begin_poll(&mut self) -> (started: PollStart)
        ensures
            final(self).did_poll_once(),
            final(self).task() == old(self).task(),
            final(self).state() == old(self).state(),
            exists|elapsed: u128, delay: Option<u128>|
                started == #[trigger] spec_begin_poll(
                    old(self).did_poll_once(),
                    started.claimed,
                    elapsed,
                    delay,
                ),
    {
        let first_poll = if !self.did_poll_once {
            self.did_poll_once = true;
            self.state.measure_first_poll()
        } else {
            None
        };
        let claim = self.state.measure_poll();
        let started = PollStart { first_poll, claimed: claim.0, scheduled: claim.1 };
        proof {
            let elapsed = choose|elapsed: u128|
                old(self).did_poll_once() || first_poll == spec_first_poll_sample(elapsed);
            let delay = choose|delay: Option<u128>|
                claim.1 == spec_claimed_sample(claim.0, delay);
            assert(started == spec_begin_poll(
                old(self).did_poll_once(),
                started.claimed,
                elapsed,
                delay,
            ));
        }
        started
    }

    /// Accounts for the end of an execution step that took `duration`.
    pub fn end_poll(&self, duration: Duration) -> (sample: Option<Sample>)
        ensures
            sample == spec_poll_sample(
                duration_nanos(duration),
                duration_nanos(self.state().threshold()),
            ),
    {
        self.state.measure_poll_time(duration)
    }

    /// Runs `step`, which is to poll the task once, and accounts for the time
    /// it took as [`Instrumented::end_poll`] does. What `step` returns is
    /// handed back unchanged, together with the time it took and the sample
    /// that was recorded for it.
    pub fn time_poll<R, F: FnOnce() -> R>(&self, step: F) -> (timed: TimedPoll<R>)
        requires
            step.requires(()),
        ensures
            step.ensures((), timed.output),
            timed.sample == spec_poll_sample(
                duration_nanos(timed.duration),
                duration_nanos(self.state().threshold()),
            ),
    {
        let now = Instant::now();
        let output = step();
        let duration = now.elapsed();
        let sample = self.state.measure_poll_time(duration);
        TimedPoll { output, duration, sample }
    }

    /// The task, to look at.
    pub fn get_ref(&self) -> (task: &T)
        ensures
            *task == self.task(),
    {
        &self.task
    }

    /// The task, to run an execution step of it.
    pub fn get_mut(&mut self) -> (task: &mut T)
        ensures
            *task == old(self).task(),
            final(self).task() == *final(task),
            final(self).did_poll_once() == old(self).did_poll_once(),
            final(self).state() == old(self).state(),
    {
        &mut self.task
    }

    /// A handle to the state that the task shares with its wakers.
    pub fn shared_state(&self) -> (state: Arc<State>)
        ensures
            state == self.state(),
    {
        self.state.clone()
    }

    /// Parts the task from its accounting, for a driver that has to hold the
    /// task by itself.
    pub fn into_parts(self) -> (parts: (T, Instrumented<()>))
        ensures
            parts.0 == self.task(),
            parts.1.did_poll_once() == self.did_poll_once(),
            parts.1.state() == self.state(),
    {
        (self.task, Instrumented { task: (), did_poll_once: self.did_poll_once, state: self.state })
    }
}

} // verus!
