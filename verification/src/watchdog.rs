//! The watchdog as a state machine: it says what is to be done, and is told what came of it.

use crate::builder::Builder;
use crate::builder::Config;
use crate::disarm::Disarm;
use crate::disarm::DisarmPhase;
use crate::heartbeat::Heartbeat;
use crate::heartbeat::HeartbeatPhase;
use crate::metrics::TokioRuntimeMetrics;
use crate::protocol::Action;
use crate::protocol::DumpOutcome;
use crate::protocol::Event;
use crate::protocol::Phase;
use crate::protocol::Rules;
use crate::runtime::metrics_of;
use crate::runtime::worker_count;
use crate::settings::Settings;
use crate::span;
use crate::span::nanos;
use crate::text;
use std::time::Duration;
use tokio::runtime::Handle;
use vstd::prelude::*;
use vstd::string::StringExecFns;

verus! {

/// The watchdog object monitors a given tokio runtime to see if it looks deadlocked.
pub struct Watchdog {
    config: Config,
    handle: Handle,
    task_dumps: bool,
    phase: Phase<Duration>,
}

impl Watchdog {
    #[verifier::type_invariant]
    spec fn in_range(self) -> bool {
        self.rules().admits(self.phase@)
    }

    /// The rules that this watchdog follows.
    pub closed spec fn rules(self) -> Rules {
        Rules { settings: self.config@, task_dumps: self.task_dumps }
    }

    /// The runtime that this watchdog watches.
    pub closed spec fn runtime(self) -> Handle {
        self.handle
    }

    /// Where this watchdog stands.
    pub closed spec fn current(self) -> Phase<nat> {
        self.phase@
    }

    /// Whether this watchdog has these settings, takes no task dumps, and is at the start of its
    /// loop.
    pub open spec fn is_new(self, settings: Settings) -> bool {
        &&& self.rules() == (Rules { settings, task_dumps: false })
        &&& self.current() == Phase::<nat>::ReadHeartbeat
    }

    /// Create a new watchdog builder, to configure a watchdog instance.
    pub fn builder() -> (builder: Builder)
        ensures
            builder@ == Settings::defaults(),
    {
        Builder::default()
    }

    /// Make a new watchdog for a given tokio runtime.
    pub(crate) fn new_for_runtime(config: Config, handle: Handle) -> (watchdog: Self)
        ensures
            watchdog.is_new(config@),
            watchdog.runtime() == handle,
    {
        Watchdog { config, handle, task_dumps: false, phase: Phase::ReadHeartbeat }
    }

    /// This watchdog at the start of its loop, told whether task dumps can be taken. Only some
    /// builds of tokio can take them.
    pub fn with_task_dumps(self, available: bool) -> (watchdog: Self)
        ensures
            watchdog.rules() == (Rules { task_dumps: available, ..self.rules() }),
            watchdog.runtime() == self.runtime(),
            watchdog.current() == Phase::<nat>::ReadHeartbeat,
    {
        Watchdog { task_dumps: available, phase: Phase::ReadHeartbeat, ..self }
    }

    /// The configuration of this watchdog.
    pub fn config(&self) -> (config: &Config)
        ensures
            config@ == self.rules().settings,
    {
        &self.config
    }

    /// The runtime that this watchdog watches.
    pub fn handle(&self) -> (handle: &Handle)
        ensures
            *handle == self.runtime(),
    {
        &self.handle
    }

    /// The task that is to beat on the runtime while this watchdog watches it.
    pub fn heartbeat(&self) -> (heartbeat: Heartbeat)
        ensures
            heartbeat.period() == self.rules().settings.heartbeat_period,
            heartbeat.current() == HeartbeatPhase::Beat,
    {
        Heartbeat::new(self.config.heartbeat_period)
    }

    /// How this watchdog is taken down once it runs. Its heartbeat task is waited for up to one
    /// heartbeat period.
    pub fn disarm(&self) -> (disarm: Disarm)
        ensures
            disarm.limit() == self.rules().settings.heartbeat_period,
            disarm.current() == DisarmPhase::RequestStop,
    {
        Disarm::new(self.config.heartbeat_period)
    }

    /// Collects metrics of the runtime that this watchdog watches.
    ///
    /// The snapshot holds what tokio offers in every build, and
    /// [`TokioRuntimeMetrics::with_unstable`] adds the rest.
    pub fn collect_metrics(&self) -> (metrics: TokioRuntimeMetrics)
        ensures
            metrics.num_workers == worker_count(metrics_of(self.runtime())),
            metrics.read_from(metrics_of(self.runtime())),
            metrics.is_basic(),
            metrics.well_formed(),
    {
        TokioRuntimeMetrics::from(&self.handle)
    }

    /// The name of the thread that runs this watchdog.
    pub fn thread_label(&self) -> (label: String)
        ensures
            label@ == self.rules().settings.thread_name + "-thread"@,
    {
        self.config.thread_name.clone().concat("-thread")
    }

    /// The name of the thread that takes task dumps for this watchdog.
    pub fn task_dump_thread_label(&self) -> (label: String)
        ensures
            label@ == self.rules().settings.thread_name + "-taskdump"@,
    {
        self.config.thread_name.clone().concat("-taskdump")
    }

    /// What this watchdog says when it panics in the program `exe_name`, with the last heartbeat
    /// `elapsed` ago.
    pub fn panic_message(&self, elapsed: Duration, exe_name: &str) -> (message: String)
        ensures
            message@ == text::panic_report(
                self.rules().settings.thread_name,
                text::shown(nanos(elapsed)),
                text::shown(self.rules().settings.watchdog_timeout),
                exe_name@,
            ),
    {
        text::panic_message(
            self.config.thread_name.as_str(),
            text::show(elapsed).as_str(),
            text::show(self.config.watchdog_timeout).as_str(),
            exe_name,
        )
    }

    /// What is to be done next. [`Watchdog::step`] wants to hear what came of it.
    pub fn action(&self) -> (action: Action<Duration>)
        ensures
            action@ == self.rules().action(self.current()),
    {
        proof {
            use_type_invariant(self);
        }
        match self.phase {
            Phase::ReadHeartbeat => Action::ReadHeartbeat,
            Phase::CollectMetrics { index, .. } => Action::CollectMetrics { index },
            Phase::Pause { .. } => Action::Sleep {
                duration: span::split(
                    self.config.triggered_metrics_duration,
                    self.config.triggered_metrics_collections,
                ),
            },
            Phase::TakeTaskDump { .. } => Action::TakeTaskDump {
                deadline: self.config.task_dump_deadline,
            },
            Phase::ConfirmPanic { .. } => Action::ReadStopFlag,
            Phase::Rest => Action::Sleep { duration: self.config.heartbeat_period },
            Phase::CheckStop => Action::ReadStopFlag,
            Phase::Exited => Action::Exit,
            Phase::Panicked { elapsed } => Action::Panic { elapsed },
        }
    }

    /// Whether a heartbeat `elapsed` ago triggers this watchdog.
    pub fn is_overdue(&self, elapsed: Duration) -> (overdue: bool)
        ensures
            overdue == self.rules().overdue(nanos(elapsed)),
            overdue <==> nanos(elapsed) > self.rules().settings.watchdog_timeout,
    {
        span::exceeds(elapsed, self.config.watchdog_timeout)
    }

    /// What follows once nothing has shown that the runtime is alive.
    fn give_up(&self, elapsed: Duration) -> (phase: Phase<Duration>)
        ensures
            phase@ == self.rules().give_up(nanos(elapsed)),
    {
        if self.config.panic {
            Phase::ConfirmPanic { elapsed }
        } else {
            Phase::Rest
        }
    }

    /// What follows once metrics have been collected `done` times.
    fn after_collecting(&self, elapsed: Duration, done: u32) -> (phase: Phase<Duration>)
        ensures
            phase@ == self.rules().after_collecting(nanos(elapsed), done as int),
    {
        if done < self.config.triggered_metrics_collections {
            Phase::CollectMetrics { elapsed, index: done }
        } else if self.task_dumps {
            Phase::TakeTaskDump { elapsed }
        } else {
            self.give_up(elapsed)
        }
    }

    /// Takes note of what came of the last action. An event that this watchdog does not wait
    /// for is handed back, and changes nothing.
    pub fn step(&mut self, event: Event<Duration>) -> (taken: Result<(), Event<Duration>>)
        ensures
            final(self).rules() == old(self).rules(),
            final(self).runtime() == old(self).runtime(),
            match old(self).rules().next(old(self).current(), event@) {
                Some(next) => taken == Ok::<(), Event<Duration>>(()) && final(self).current()
                    == next,
                None => taken == Err::<(), Event<Duration>>(event) && final(self).current()
                    == old(self).current(),
            },
    {
        proof {
            use_type_invariant(&*self);
        }
        let next = match (self.phase, event) {
            (Phase::ReadHeartbeat, Event::Heartbeat { elapsed }) => {
                if self.is_overdue(elapsed) {
                    self.after_collecting(elapsed, 0)
                } else {
                    Phase::Rest
                }
            },
            (Phase::CollectMetrics { elapsed, index }, Event::MetricsCollected) => {
                Phase::Pause { elapsed, index }
            },
            (Phase::Pause { elapsed, index }, Event::Slept) => {
                self.after_collecting(elapsed, index + 1)
            },
            (Phase::TakeTaskDump { elapsed }, Event::TaskDump { outcome }) => {
                match outcome {
                    DumpOutcome::Succeeded => Phase::ReadHeartbeat,
                    _ => self.give_up(elapsed),
                }
            },
            (Phase::ConfirmPanic { elapsed }, Event::StopFlag { requested }) => {
                if requested {
                    Phase::Exited
                } else {
                    Phase::Panicked { elapsed }
                }
            },
            (Phase::Rest, Event::Slept) => Phase::CheckStop,
            (Phase::CheckStop, Event::StopFlag { requested }) => {
                if requested {
                    Phase::Exited
                } else {
                    Phase::ReadHeartbeat
                }
            },
            _ => {
                return Err(event);
            },
        };
        self.phase = next;
        Ok(())
    }
}

/// A new watchdog has the settings that it was given and no others, takes no task dumps, and first
/// of all reads the heartbeat.
pub proof fn a_new_watchdog_starts_as_configured(watchdog: Watchdog, settings: Settings)
    ensures
        watchdog.is_new(settings) <==> {
            &&& watchdog.rules().settings == settings
            &&& !watchdog.rules().task_dumps
            &&& watchdog.current() is ReadHeartbeat
        },
{
}

} // verus!
