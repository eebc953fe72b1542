//! Configuring a watchdog.

use crate::runtime::missing_context;
use crate::runtime::NoCurrentRuntime;
use crate::settings::Setting;
use crate::settings::Settings;
use crate::span::nanos;
use crate::watchdog::Watchdog;
use std::time::Duration;
use tokio::runtime::Handle;
use tokio::runtime::TryCurrentError;
use vstd::prelude::*;

verus! {

/// The configuration of a watchdog.
#[derive(Debug)]
pub struct Config {
    /// How often the heartbeat task beats.
    pub heartbeat_period: Duration,
    /// How long a heartbeat may stay away before the watchdog is triggered.
    pub watchdog_timeout: Duration,
    /// Over how long metrics are collected once triggered.
    pub triggered_metrics_duration: Duration,
    /// How many times metrics are collected once triggered.
    pub triggered_metrics_collections: u32,
    /// How long to wait for a task dump once triggered.
    pub task_dump_deadline: Duration,
    /// Whether to panic once triggered.
    pub panic: bool,
    /// The name that the watchdog's threads are named after.
    pub thread_name: String,
}

impl View for Config {
    type V = Settings;

    open spec fn view(&self) -> Settings {
        Settings {
            heartbeat_period: nanos(self.heartbeat_period),
            watchdog_timeout: nanos(self.watchdog_timeout),
            triggered_metrics_duration: nanos(self.triggered_metrics_duration),
            triggered_metrics_collections: self.triggered_metrics_collections,
            task_dump_deadline: nanos(self.task_dump_deadline),
            panic: self.panic,
            thread_name: self.thread_name@,
        }
    }
}

impl Default for Config {
    fn default() -> (config: Self)
        ensures
            config@ == Settings::defaults(),
    {
        Config {
            heartbeat_period: Duration::from_secs(1),
            watchdog_timeout: Duration::from_secs(5),
            triggered_metrics_duration: Duration::from_secs(2),
            triggered_metrics_collections: 20,
            task_dump_deadline: Duration::from_secs(5),
            panic: true,
            thread_name: "tokio-watchdog".to_owned(),
        }
    }
}

impl Clone for Config {
    fn clone(&self) -> (copy: Self)
        ensures
            copy == *self,
    {
        Config {
            heartbeat_period: self.heartbeat_period,
            watchdog_timeout: self.watchdog_timeout,
            triggered_metrics_duration: self.triggered_metrics_duration,
            triggered_metrics_collections: self.triggered_metrics_collections,
            task_dump_deadline: self.task_dump_deadline,
            panic: self.panic,
            thread_name: self.thread_name.clone(),
        }
    }
}

/// Builder which can configure a watchdog object.
#[derive(Debug)]
pub struct Builder {
    config: Config,
}

impl View for Builder {
    type V = Settings;

    closed spec fn view(&self) -> Settings {
        self.config@
    }
}

impl Default for Builder {
    fn default() -> (builder: Self)
        ensures
            builder@ == Settings::defaults(),
    {
        Builder { config: Config::default() }
    }
}

impl Clone for Builder {
    fn clone(&self) -> (copy: Self)
        ensures
            copy@ == self@,
    {
        Builder { config: self.config.clone() }
    }
}

impl Builder {
    /// Set the heartbeat period, i.e. how frequently the heartbeat task beats.
    /// Defaults to 1s.
    pub fn heartbeat_period(self, d: Duration) -> (builder: Self)
        ensures
            builder@ == self@.with(Setting::HeartbeatPeriod(nanos(d))),
    {
        Builder { config: Config { heartbeat_period: d, ..self.config } }
    }

    /// Set the watchdog timeout, i.e. how long we can go without seeing a heartbeat before the
    /// watchdog is triggered. Defaults to 5s.
    pub fn watchdog_timeout(self, d: Duration) -> (builder: Self)
        ensures
            builder@ == self@.with(Setting::WatchdogTimeout(nanos(d))),
    {
        Builder { config: Config { watchdog_timeout: d, ..self.config } }
    }

    /// Set how long we collect metrics for when triggered.
    /// Defaults to 2s.
    pub fn triggered_metrics_duration(self, d: Duration) -> (builder: Self)
        ensures
            builder@ == self@.with(Setting::TriggeredMetricsDuration(nanos(d))),
    {
        Builder { config: Config { triggered_metrics_duration: d, ..self.config } }
    }

    /// Set how many times we will try to collect metrics during the period.
    /// Defaults to 20. Set to 0 to disable metrics collection.
    pub fn triggered_metrics_collections(self, n: u32) -> (builder: Self)
        ensures
            builder@ == self@.with(Setting::TriggeredMetricsCollections(n)),
    {
        Builder { config: Config { triggered_metrics_collections: n, ..self.config } }
    }

    /// Set how long we will wait for a taskdump when triggered.
    /// Defaults to 5s.
    pub fn task_dump_deadline(self, d: Duration) -> (builder: Self)
        ensures
            builder@ == self@.with(Setting::TaskDumpDeadline(nanos(d))),
    {
        Builder { config: Config { task_dump_deadline: d, ..self.config } }
    }

    /// Set whether or not to panic when triggered. Defaults to true.
    pub fn panic(self, b: bool) -> (builder: Self)
        ensures
            builder@ == self@.with(Setting::Panic(b)),
    {
        Builder { config: Config { panic: b, ..self.config } }
    }

    /// Set the thread name. Defaults to "tokio-watchdog".
    pub fn thread_name(self, s: &str) -> (builder: Self)
        ensures
            builder@ == self@.with(Setting::ThreadName(s@)),
    {
        Builder { config: Config { thread_name: s.to_owned(), ..self.config } }
    }

    /// Whether `watchdog` is what these settings give where tokio says that `current` is the
    /// current runtime: a new watchdog for it, or why there is none.
    pub open spec fn follows(
        settings: Settings,
        watchdog: Result<Watchdog, NoCurrentRuntime>,
        current: Result<Handle, TryCurrentError>,
    ) -> bool {
        match current {
            Ok(handle) => watchdog matches Ok(watchdog) && watchdog.is_new(settings)
                && watchdog.runtime() == handle,
            Err(err) => watchdog == Err::<Watchdog, NoCurrentRuntime>(
                NoCurrentRuntime::because(err),
            ),
        }
    }

    /// Build a watchdog instance for the current tokio runtime, if there is one.
    pub fn build(self) -> (watchdog: Result<Watchdog, NoCurrentRuntime>)
        ensures
            exists|current: Result<Handle, TryCurrentError>| #[trigger]
                call_ensures(Handle::try_current, (), current) && Self::follows(
                    self@,
                    watchdog,
                    current,
                ),
    {
        self.build_for_current(Handle::try_current())
    }

    /// Build a watchdog instance for what tokio says is the current runtime.
    pub fn build_for_current(self, current: Result<Handle, TryCurrentError>) -> (watchdog: Result<
        Watchdog,
        NoCurrentRuntime,
    >)
        ensures
            Self::follows(self@, watchdog, current),
    {
        match current {
            Ok(handle) => Ok(self.build_for_runtime(handle)),
            Err(err) => Err(NoCurrentRuntime::new(&err)),
        }
    }

    /// Build a watchdog instance for given tokio runtime
    pub fn build_for_runtime(self, handle: Handle) -> (watchdog: Watchdog)
        ensures
            watchdog.is_new(self@),
            watchdog.rules().settings == self@,
            !watchdog.rules().task_dumps,
            watchdog.current() is ReadHeartbeat,
            watchdog.runtime() == handle,
    {
        Watchdog::new_for_runtime(self.config, handle)
    }
}

/// A configuration is taken at its word: each setting is what its field holds.
pub proof fn a_configuration_means_what_it_holds(config: Config)
    ensures
        config@.heartbeat_period == nanos(config.heartbeat_period),
        config@.watchdog_timeout == nanos(config.watchdog_timeout),
        config@.triggered_metrics_duration == nanos(config.triggered_metrics_duration),
        config@.triggered_metrics_collections == config.triggered_metrics_collections,
        config@.task_dump_deadline == nanos(config.task_dump_deadline),
        config@.panic == config.panic,
        config@.thread_name == config.thread_name@,
{
}

/// Building for the current runtime succeeds where, and only where, tokio says that there is one.
/// The watchdog then watches that runtime from the start of its loop, with the settings of the
/// builder and no others. Otherwise the error says whether the thread is in no runtime's context.
pub proof fn building_follows_what_tokio_says(
    settings: Settings,
    watchdog: Result<Watchdog, NoCurrentRuntime>,
    current: Result<Handle, TryCurrentError>,
)
    requires
        Builder::follows(settings, watchdog, current),
    ensures
        watchdog is Ok <==> current is Ok,
        watchdog matches Ok(built) ==> {
            &&& built.runtime() == current->Ok_0
            &&& built.rules().settings == settings
            &&& !built.rules().task_dumps
            &&& built.current() is ReadHeartbeat
        },
        watchdog matches Err(reason) ==> (reason is MissingContext <==> missing_context(
            current->Err_0,
        )),
{
}

} // verus!
