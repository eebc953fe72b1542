//! The mathematical model of a watchdog's configuration.

use vstd::prelude::*;

verus! {

/// What a watchdog can be told, with every span of time in nanoseconds.
#[verifier::ext_equal]
pub struct Settings {
    /// How often the heartbeat task beats.
    pub heartbeat_period: nat,
    /// How long a heartbeat may stay away before the watchdog is triggered.
    pub watchdog_timeout: nat,
    /// Over how long metrics are collected once triggered.
    pub triggered_metrics_duration: nat,
    /// How many times metrics are collected once triggered.
    pub triggered_metrics_collections: u32,
    /// How long to wait for a task dump once triggered.
    pub task_dump_deadline: nat,
    /// Whether to panic once triggered.
    pub panic: bool,
    /// The name that the watchdog's threads are named after.
    pub thread_name: Seq<char>,
}

/// One setting and the value that it is given.
pub enum Setting {
    HeartbeatPeriod(nat),
    WatchdogTimeout(nat),
    TriggeredMetricsDuration(nat),
    TriggeredMetricsCollections(u32),
    TaskDumpDeadline(nat),
    Panic(bool),
    ThreadName(Seq<char>),
}

/// A number of seconds in nanoseconds.
pub open spec fn seconds(n: nat) -> nat {
    n * 1_000_000_000
}

impl Settings {
    /// The settings of a watchdog that was told nothing.
    pub open spec fn defaults() -> Settings {
        Settings {
            heartbeat_period: seconds(1),
            watchdog_timeout: seconds(5),
            triggered_metrics_duration: seconds(2),
            triggered_metrics_collections: 20,
            task_dump_deadline: seconds(5),
            panic: true,
            thread_name: "tokio-watchdog"@,
        }
    }

    /// These settings with one of them replaced.
    pub open spec fn with(self, setting: Setting) -> Settings {
        match setting {
            Setting::HeartbeatPeriod(v) => Settings { heartbeat_period: v, ..self },
            Setting::WatchdogTimeout(v) => Settings { watchdog_timeout: v, ..self },
            Setting::TriggeredMetricsDuration(v) => Settings {
                triggered_metrics_duration: v,
                ..self
            },
            Setting::TriggeredMetricsCollections(v) => Settings {
                triggered_metrics_collections: v,
                ..self
            },
            Setting::TaskDumpDeadline(v) => Settings { task_dump_deadline: v, ..self },
            Setting::Panic(v) => Settings { panic: v, ..self },
            Setting::ThreadName(v) => Settings { thread_name: v, ..self },
        }
    }

    /// The pause after each collection of metrics: the collection time shared out evenly.
    pub open spec fn pause(self) -> nat
        recommends
            self.triggered_metrics_collections != 0,
    {
        self.triggered_metrics_duration / self.triggered_metrics_collections as nat
    }
}

/// Whether two values are meant for the same setting.
pub open spec fn same_setting(a: Setting, b: Setting) -> bool {
    match (a, b) {
        (Setting::HeartbeatPeriod(_), Setting::HeartbeatPeriod(_)) => true,
        (Setting::WatchdogTimeout(_), Setting::WatchdogTimeout(_)) => true,
        (Setting::TriggeredMetricsDuration(_), Setting::TriggeredMetricsDuration(_)) => true,
        (
            Setting::TriggeredMetricsCollections(_),
            Setting::TriggeredMetricsCollections(_),
        ) => true,
        (Setting::TaskDumpDeadline(_), Setting::TaskDumpDeadline(_)) => true,
        (Setting::Panic(_), Setting::Panic(_)) => true,
        (Setting::ThreadName(_), Setting::ThreadName(_)) => true,
        _ => false,
    }
}

/// Of two values for the same setting the later one counts, and values for different settings
/// may be given in either order.
pub proof fn settings_are_independent(s: Settings, a: Setting, b: Setting)
    ensures
        same_setting(a, b) ==> s.with(a).with(b) == s.with(b),
        !same_setting(a, b) ==> s.with(a).with(b) == s.with(b).with(a),
{
}

/// The pauses between the collections of metrics add up to the time set for them, short of it
/// by less than one nanosecond for each collection.
pub proof fn pauses_fill_the_collection_time(s: Settings)
    requires
        s.triggered_metrics_collections != 0,
    ensures
        s.pause() * s.triggered_metrics_collections <= s.triggered_metrics_duration,
        s.triggered_metrics_duration - s.pause() * s.triggered_metrics_collections
            < s.triggered_metrics_collections,
{
    let d = s.triggered_metrics_duration as int;
    let n = s.triggered_metrics_collections as int;
    vstd::arithmetic::div_mod::lemma_fundamental_div_mod(d, n);
    assert(n * (d / n) == (d / n) * n) by (nonlinear_arith);
}

/// A setting that was given a value has that value.
pub proof fn a_setting_is_what_it_was_set_to(
    s: Settings,
    span: nat,
    count: u32,
    flag: bool,
    name: Seq<char>,
)
    ensures
        s.with(Setting::HeartbeatPeriod(span)).heartbeat_period == span,
        s.with(Setting::WatchdogTimeout(span)).watchdog_timeout == span,
        s.with(Setting::TriggeredMetricsDuration(span)).triggered_metrics_duration == span,
        s.with(Setting::TriggeredMetricsCollections(count)).triggered_metrics_collections == count,
        s.with(Setting::TaskDumpDeadline(span)).task_dump_deadline == span,
        s.with(Setting::Panic(flag)).panic == flag,
        s.with(Setting::ThreadName(name)).thread_name == name,
{
}

/// A value for one setting changes no other.
pub proof fn a_setting_leaves_the_others_alone(s: Settings, setting: Setting)
    ensures
        !(setting is HeartbeatPeriod) ==> s.with(setting).heartbeat_period == s.heartbeat_period,
        !(setting is WatchdogTimeout) ==> s.with(setting).watchdog_timeout == s.watchdog_timeout,
        !(setting is TriggeredMetricsDuration) ==> s.with(setting).triggered_metrics_duration == s.triggered_metrics_duration,
        !(setting is TriggeredMetricsCollections) ==> s.with(setting).triggered_metrics_collections == s.triggered_metrics_collections,
        !(setting is TaskDumpDeadline) ==> s.with(setting).task_dump_deadline == s.task_dump_deadline,
        !(setting is Panic) ==> s.with(setting).panic == s.panic,
        !(setting is ThreadName) ==> s.with(setting).thread_name == s.thread_name,
{
}

/// A watchdog that was told nothing expects a beat every second, is triggered by five seconds
/// without one, collects metrics twenty times over two seconds, gives a task dump five seconds, and
/// panics.
pub proof fn the_defaults_are_as_documented()
    ensures
        Settings::defaults().heartbeat_period == 1_000_000_000,
        Settings::defaults().watchdog_timeout == 5_000_000_000,
        Settings::defaults().triggered_metrics_duration == 2_000_000_000,
        Settings::defaults().triggered_metrics_collections == 20,
        Settings::defaults().task_dump_deadline == 5_000_000_000,
        Settings::defaults().panic,
        Settings::defaults().thread_name == seq![
            't', 'o', 'k', 'i', 'o', '-', 'w', 'a', 't', 'c', 'h', 'd', 'o', 'g',
        ],
{
    reveal_strlit("tokio-watchdog");
    assert(Settings::defaults().thread_name =~= seq![
        't', 'o', 'k', 'i', 'o', '-', 'w', 'a', 't', 'c', 'h', 'd', 'o', 'g',
    ]);
}

} // verus!
