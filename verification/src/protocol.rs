//! The protocol that a watchdog follows: what it does in which phase, and what it makes of
//! what it learns.
//!
//! The types are generic in how a span of time is represented: a `Duration` in running code,
//! a number of nanoseconds in the model.

use crate::settings::Settings;
use crate::span::nanos;
use std::time::Duration;
use vstd::prelude::*;

verus! {

/// Where a watchdog stands in its loop.
#[derive(Debug, PartialEq, Eq)]
pub enum Phase<T> {
    /// About to look at how long ago the last heartbeat was.
    ReadHeartbeat,
    /// Triggered, and about to collect metrics.
    CollectMetrics { elapsed: T, index: u32 },
    /// Triggered, and about to pause after collecting metrics.
    Pause { elapsed: T, index: u32 },
    /// Triggered, and about to ask the runtime for a task dump.
    TakeTaskDump { elapsed: T },
    /// Triggered, and about to look for a stop request one last time before panicking.
    ConfirmPanic { elapsed: T },
    /// About to sleep until the next round.
    Rest,
    /// Done with a round, and about to look for a stop request.
    CheckStop,
    /// Stopped on request.
    Exited,
    /// Gave the runtime up.
    Panicked { elapsed: T },
}

/// What came of an attempt to dump the tasks of the runtime.
#[derive(Clone, Copy, Debug, PartialEq, Eq, Structural)]
pub enum DumpOutcome {
    /// The thread that was to take the dump could not be started.
    NotStarted,
    /// The dump was taken before its deadline.
    Succeeded,
    /// There was no dump when its deadline had passed.
    Unsuccessful,
}

/// What a watchdog learns from performing an action.
#[derive(Debug, PartialEq, Eq)]
pub enum Event<T> {
    /// The time since the last heartbeat.
    Heartbeat { elapsed: T },
    /// Metrics were collected.
    MetricsCollected,
    /// The sleep is over.
    Slept,
    /// A task dump was attempted.
    TaskDump { outcome: DumpOutcome },
    /// Whether a stop has been requested.
    StopFlag { requested: bool },
}

/// What a watchdog wants done next.
#[derive(Debug, PartialEq, Eq)]
pub enum Action<T> {
    /// Find out how long ago the last heartbeat was.
    ReadHeartbeat,
    /// Collect metrics of the runtime, for the time that `index` counts from zero.
    CollectMetrics { index: u32 },
    /// Sleep.
    Sleep { duration: T },
    /// Ask the runtime for a task dump, and wait for it until the deadline.
    TakeTaskDump { deadline: T },
    /// Find out whether a stop has been requested.
    ReadStopFlag,
    /// Leave the loop.
    Exit,
    /// Panic: the last heartbeat is too long ago.
    Panic { elapsed: T },
}

impl<T: Copy> Copy for Phase<T> {

}

impl<T: Copy> Clone for Phase<T> {
    fn clone(&self) -> (copy: Self)
        ensures
            copy == *self,
    {
        *self
    }
}

impl<T: Copy> Copy for Event<T> {

}

impl<T: Copy> Clone for Event<T> {
    fn clone(&self) -> (copy: Self)
        ensures
            copy == *self,
    {
        *self
    }
}

impl<T: Copy> Copy for Action<T> {

}

impl<T: Copy> Clone for Action<T> {
    fn clone(&self) -> (copy: Self)
        ensures
            copy == *self,
    {
        *self
    }
}

impl View for Phase<Duration> {
    type V = Phase<nat>;

    open spec fn view(&self) -> Phase<nat> {
        match *self {
            Phase::ReadHeartbeat => Phase::ReadHeartbeat,
            Phase::CollectMetrics { elapsed, index } => Phase::CollectMetrics {
                elapsed: nanos(elapsed),
                index,
            },
            Phase::Pause { elapsed, index } => Phase::Pause { elapsed: nanos(elapsed), index },
            Phase::TakeTaskDump { elapsed } => Phase::TakeTaskDump { elapsed: nanos(elapsed) },
            Phase::ConfirmPanic { elapsed } => Phase::ConfirmPanic { elapsed: nanos(elapsed) },
            Phase::Rest => Phase::Rest,
            Phase::CheckStop => Phase::CheckStop,
            Phase::Exited => Phase::Exited,
            Phase::Panicked { elapsed } => Phase::Panicked { elapsed: nanos(elapsed) },
        }
    }
}

impl View for Event<Duration> {
    type V = Event<nat>;

    open spec fn view(&self) -> Event<nat> {
        match *self {
            Event::Heartbeat { elapsed } => Event::Heartbeat { elapsed: nanos(elapsed) },
            Event::MetricsCollected => Event::MetricsCollected,
            Event::Slept => Event::Slept,
            Event::TaskDump { outcome } => Event::TaskDump { outcome },
            Event::StopFlag { requested } => Event::StopFlag { requested },
        }
    }
}

impl View for Action<Duration> {
    type V = Action<nat>;

    open spec fn view(&self) -> Action<nat> {
        match *self {
            Action::ReadHeartbeat => Action::ReadHeartbeat,
            Action::CollectMetrics { index } => Action::CollectMetrics { index },
            Action::Sleep { duration } => Action::Sleep { duration: nanos(duration) },
            Action::TakeTaskDump { deadline } => Action::TakeTaskDump { deadline: nanos(deadline) },
            Action::ReadStopFlag => Action::ReadStopFlag,
            Action::Exit => Action::Exit,
            Action::Panic { elapsed } => Action::Panic { elapsed: nanos(elapsed) },
        }
    }
}

/// The rules of one watchdog: its settings, and whether task dumps can be taken at all.
#[verifier::ext_equal]
pub struct Rules {
    pub settings: Settings,
    pub task_dumps: bool,
}

impl Rules {
    /// Whether a heartbeat that long ago triggers the watchdog.
    pub open spec fn overdue(self, elapsed: nat) -> bool {
        elapsed > self.settings.watchdog_timeout
    }

    /// What follows once nothing has shown that the runtime is alive.
    pub open spec fn give_up(self, elapsed: nat) -> Phase<nat> {
        if self.settings.panic {
            Phase::ConfirmPanic { elapsed }
        } else {
            Phase::Rest
        }
    }

    /// What follows once all metrics have been collected.
    pub open spec fn after_metrics(self, elapsed: nat) -> Phase<nat> {
        if self.task_dumps {
            Phase::TakeTaskDump { elapsed }
        } else {
            self.give_up(elapsed)
        }
    }

    /// What follows once metrics have been collected `done` times.
    pub open spec fn after_collecting(self, elapsed: nat, done: int) -> Phase<nat> {
        if done < self.settings.triggered_metrics_collections {
            Phase::CollectMetrics { elapsed, index: done as u32 }
        } else {
            self.after_metrics(elapsed)
        }
    }

    /// The phase after `phase`, given what was learned in it, or `None` where `phase` does not
    /// wait for such an event.
    pub open spec fn next(self, phase: Phase<nat>, event: Event<nat>) -> Option<Phase<nat>> {
        match (phase, event) {
            (Phase::ReadHeartbeat, Event::Heartbeat { elapsed }) => Some(
                if self.overdue(elapsed) {
                    self.after_collecting(elapsed, 0)
                } else {
                    Phase::Rest
                },
            ),
            (Phase::CollectMetrics { elapsed, index }, Event::MetricsCollected) => Some(
                Phase::Pause { elapsed, index },
            ),
            (Phase::Pause { elapsed, index }, Event::Slept) => Some(
                self.after_collecting(elapsed, index + 1),
            ),
            (Phase::TakeTaskDump { elapsed }, Event::TaskDump { outcome }) => Some(
                if outcome == DumpOutcome::Succeeded {
                    Phase::ReadHeartbeat
                } else {
                    self.give_up(elapsed)
                },
            ),
            (Phase::ConfirmPanic { elapsed }, Event::StopFlag { requested }) => Some(
                if requested {
                    Phase::Exited
                } else {
                    Phase::Panicked { elapsed }
                },
            ),
            (Phase::Rest, Event::Slept) => Some(Phase::CheckStop),
            (Phase::CheckStop, Event::StopFlag { requested }) => Some(
                if requested {
                    Phase::Exited
                } else {
                    Phase::ReadHeartbeat
                },
            ),
            _ => None,
        }
    }

    /// What is to be done in `phase`.
    pub open spec fn action(self, phase: Phase<nat>) -> Action<nat> {
        match phase {
            Phase::ReadHeartbeat => Action::ReadHeartbeat,
            Phase::CollectMetrics { index, .. } => Action::CollectMetrics { index },
            Phase::Pause { .. } => Action::Sleep { duration: self.settings.pause() },
            Phase::TakeTaskDump { .. } => Action::TakeTaskDump {
                deadline: self.settings.task_dump_deadline,
            },
            Phase::ConfirmPanic { .. } => Action::ReadStopFlag,
            Phase::Rest => Action::Sleep { duration: self.settings.heartbeat_period },
            Phase::CheckStop => Action::ReadStopFlag,
            Phase::Exited => Action::Exit,
            Phase::Panicked { elapsed } => Action::Panic { elapsed },
        }
    }

    /// Whether a watchdog with these rules can ever be in `phase`.
    pub open spec fn admits(self, phase: Phase<nat>) -> bool {
        match phase {
            Phase::CollectMetrics { elapsed, index } => self.overdue(elapsed) && index
                < self.settings.triggered_metrics_collections,
            Phase::Pause { elapsed, index } => self.overdue(elapsed) && index
                < self.settings.triggered_metrics_collections,
            Phase::TakeTaskDump { elapsed } => self.overdue(elapsed) && self.task_dumps,
            Phase::ConfirmPanic { elapsed } => self.overdue(elapsed) && self.settings.panic,
            Phase::Panicked { elapsed } => self.overdue(elapsed) && self.settings.panic,
            _ => true,
        }
    }

    /// The phase that a watchdog in `phase` reaches through `events`, or `None` where it meets
    /// one that it does not wait for.
    pub open spec fn run(self, phase: Phase<nat>, events: Seq<Event<nat>>) -> Option<Phase<nat>>
        decreases events.len(),
    {
        if events.len() == 0 {
            Some(phase)
        } else {
            match self.run(phase, events.drop_last()) {
                Some(before) => self.next(before, events.last()),
                None => None,
            }
        }
    }
}

/// The model of an event is the event itself, with its time in nanoseconds.
pub proof fn events_are_modelled_faithfully(d: Duration, outcome: DumpOutcome, requested: bool)
    ensures
        (Event::Heartbeat { elapsed: d })@ == (Event::Heartbeat { elapsed: nanos(d) }),
        Event::<Duration>::MetricsCollected@ is MetricsCollected,
        Event::<Duration>::Slept@ is Slept,
        (Event::<Duration>::TaskDump { outcome })@ == (Event::<nat>::TaskDump { outcome }),
        (Event::<Duration>::StopFlag { requested })@ == (Event::<nat>::StopFlag { requested }),
{
}

/// The model of an action is the action itself, with its time in nanoseconds.
pub proof fn actions_are_modelled_faithfully(d: Duration, index: u32)
    ensures
        Action::<Duration>::ReadHeartbeat@ is ReadHeartbeat,
        (Action::<Duration>::CollectMetrics { index })@ == (Action::<nat>::CollectMetrics {
            index,
        }),
        (Action::Sleep { duration: d })@ == (Action::Sleep { duration: nanos(d) }),
        (Action::TakeTaskDump { deadline: d })@ == (Action::TakeTaskDump { deadline: nanos(d) }),
        Action::<Duration>::ReadStopFlag@ is ReadStopFlag,
        Action::<Duration>::Exit@ is Exit,
        (Action::Panic { elapsed: d })@ == (Action::Panic { elapsed: nanos(d) }),
{
}

/// The model of a phase is the phase itself, with its time in nanoseconds.
pub proof fn phases_are_modelled_faithfully(d: Duration, index: u32)
    ensures
        Phase::<Duration>::ReadHeartbeat@ is ReadHeartbeat,
        (Phase::CollectMetrics { elapsed: d, index })@ == (Phase::CollectMetrics {
            elapsed: nanos(d),
            index,
        }),
        (Phase::Pause { elapsed: d, index })@ == (Phase::Pause { elapsed: nanos(d), index }),
        (Phase::TakeTaskDump { elapsed: d })@ == (Phase::TakeTaskDump { elapsed: nanos(d) }),
        (Phase::ConfirmPanic { elapsed: d })@ == (Phase::ConfirmPanic { elapsed: nanos(d) }),
        Phase::<Duration>::Rest@ is Rest,
        Phase::<Duration>::CheckStop@ is CheckStop,
        Phase::<Duration>::Exited@ is Exited,
        (Phase::Panicked { elapsed: d })@ == (Phase::Panicked { elapsed: nanos(d) }),
{
}

} // verus!
