//! A watchdog for catching and debugging a blocked tokio runtime.
//!
//! A task on the runtime beats, and a thread outside of it watches for the beats. When the last
//! one is too long ago, the watchdog is triggered: it collects metrics of the runtime, tries to
//! take a task dump where tokio can, and panics in the end, so that the process can be restarted.
//!
//! This crate decides; it starts no thread and never sleeps. [`Watchdog`], [`Heartbeat`] and [`Disarm`]
//! are state machines: each says what is to be done next (`action`), and is told what came of it
//! (`step`).
//! The program around the crate owns the thread and the task, performs the actions, and holds the
//! stop flag.
//!
//! * [`builder`] configures a watchdog, and [`settings`] is the model of a configuration.
//! * [`protocol`] is the model of the watchdog's loop, [`watchdog`] the loop itself, and [`laws`]
//!   what holds of it.
//! * [`heartbeat`] is the loop of the task that beats, and [`disarm`] how both are taken down.
//! * [`metrics`] takes snapshots of a runtime's metrics.
//! * [`text`] holds the words, [`span`] the arithmetic on durations, and [`runtime`] what is asked
//!   of tokio.

pub mod builder;
pub mod disarm;
pub mod heartbeat;
pub mod laws;
pub mod metrics;
pub mod protocol;
pub mod runtime;
pub mod settings;
pub mod span;
pub mod text;
pub mod watchdog;

pub use builder::Builder;
pub use builder::Config;
pub use disarm::Disarm;
pub use disarm::DisarmAction;
pub use disarm::DisarmEvent;
pub use heartbeat::Heartbeat;
pub use heartbeat::HeartbeatAction;
pub use heartbeat::HeartbeatEvent;
pub use metrics::CounterSample;
pub use metrics::RuntimeCounters;
pub use metrics::TokioRuntimeMetrics;
pub use metrics::UnstableRuntimeMetrics;
pub use metrics::UnstableSample;
pub use metrics::WorkerSample;
pub use protocol::Action;
pub use protocol::DumpOutcome;
pub use protocol::Event;
pub use runtime::NoCurrentRuntime;
pub use watchdog::Watchdog;
