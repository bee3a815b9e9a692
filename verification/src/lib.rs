//! Low-overhead telemetry for asynchronously scheduled tasks.
//!
//! A [`TaskMonitor`] instruments tasks. Each execution step of an
//! [`Instrumented`] task adds to the counters of its monitor: how long the
//! task waited for its first poll, how long it waited after each wake-up, and
//! how long each poll took, counted as fast or slow against the monitor's
//! threshold. A [`TaskMetrics`] value is one reading of those counters; the
//! difference of two readings describes the activity between them.
//!
//! The counters are shared between threads. What a run of tasks adds to them
//! is described in ghost code by the state machine of [`model`], and [`laws`]
//! holds what is proved of it.

pub mod clock;
pub mod laws;
pub mod metrics;
pub mod model;
pub mod monitor;
pub mod registry;
pub mod sample;
pub mod task;

pub use metrics::TaskMetrics;
pub use monitor::Intervals;
pub use monitor::TaskMonitor;
pub use sample::Sample;
pub use task::Instrumented;
pub use task::PollStart;
pub use task::State;
pub use task::TimedPoll;
