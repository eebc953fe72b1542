//! The heartbeat task as a state machine: the task that proves the runtime alive by beating.

use crate::span::nanos;
use std::time::Duration;
use vstd::prelude::*;

verus! {

/// Where a heartbeat task stands in its loop.
#[derive(Clone, Copy, Debug, PartialEq, Eq, Structural)]
pub enum HeartbeatPhase {
    /// About to beat.
    Beat,
    /// About to sleep until the next beat.
    Rest,
    /// About to look for a stop request.
    CheckStop,
    /// Stopped on request.
    Stopped,
}

/// What a heartbeat task learns from performing an action.
#[derive(Clone, Copy, Debug, PartialEq, Eq, Structural)]
pub enum HeartbeatEvent {
    /// The beat was recorded.
    Beaten,
    /// The sleep is over.
    Slept,
    /// Whether a stop has been requested.
    StopFlag { requested: bool },
}

/// What a heartbeat task wants done next. A span of time is a `Duration` in running code, and a
/// number of nanoseconds in the model.
#[derive(Debug, PartialEq, Eq)]
pub enum HeartbeatAction<T> {
    /// Record this moment as that of the last heartbeat.
    Beat,
    /// Sleep, and let the runtime do other work.
    Sleep { duration: T },
    /// Find out whether a stop has been requested.
    ReadStopFlag,
    /// Leave the loop.
    Exit,
}

impl<T: Copy> Copy for HeartbeatAction<T> {

}

impl<T: Copy> Clone for HeartbeatAction<T> {
    fn clone(&self) -> (copy: Self)
        ensures
            copy == *self,
    {
        *self
    }
}

impl View for HeartbeatAction<Duration> {
    type V = HeartbeatAction<nat>;

    open spec fn view(&self) -> HeartbeatAction<nat> {
        match *self {
            HeartbeatAction::Beat => HeartbeatAction::Beat,
            HeartbeatAction::Sleep { duration } => HeartbeatAction::Sleep {
                duration: nanos(duration),
            },
            HeartbeatAction::ReadStopFlag => HeartbeatAction::ReadStopFlag,
            HeartbeatAction::Exit => HeartbeatAction::Exit,
        }
    }
}

impl HeartbeatPhase {
    /// The phase after this one, given what was learned in it, or `None` where this phase does
    /// not wait for such an event.
    pub open spec fn next(self, event: HeartbeatEvent) -> Option<HeartbeatPhase> {
        match (self, event) {
            (HeartbeatPhase::Beat, HeartbeatEvent::Beaten) => Some(HeartbeatPhase::Rest),
            (HeartbeatPhase::Rest, HeartbeatEvent::Slept) => Some(HeartbeatPhase::CheckStop),
            (HeartbeatPhase::CheckStop, HeartbeatEvent::StopFlag { requested }) => Some(
                if requested {
                    HeartbeatPhase::Stopped
                } else {
                    HeartbeatPhase::Beat
                },
            ),
            _ => None,
        }
    }

    /// What is to be done in this phase by a task that beats every `period`.
    pub open spec fn action(self, period: nat) -> HeartbeatAction<nat> {
        match self {
            HeartbeatPhase::Beat => HeartbeatAction::Beat,
            HeartbeatPhase::Rest => HeartbeatAction::Sleep { duration: period },
            HeartbeatPhase::CheckStop => HeartbeatAction::ReadStopFlag,
            HeartbeatPhase::Stopped => HeartbeatAction::Exit,
        }
    }

    /// The phase that a task in this phase reaches through `events`, or `None` where it meets
    /// one that it does not wait for.
    pub open spec fn run(self, events: Seq<HeartbeatEvent>) -> Option<HeartbeatPhase>
        decreases events.len(),
    {
        if events.len() == 0 {
            Some(self)
        } else {
            match self.run(events.drop_last()) {
                Some(before) => before.next(events.last()),
                None => None,
            }
        }
    }
}

/// A task that beats once every heartbeat period until it is asked to stop.
#[derive(Debug)]
pub struct Heartbeat {
    period: Duration,
    phase: HeartbeatPhase,
}

impl Heartbeat {
    /// How often the heartbeat is to beat, in nanoseconds.
    pub closed spec fn period(self) -> nat {
        nanos(self.period)
    }

    /// Where the heartbeat stands.
    pub closed spec fn current(self) -> HeartbeatPhase {
        self.phase
    }

    /// A task that is about to beat for the first time.
    pub fn new(period: Duration) -> (heartbeat: Self)
        ensures
            heartbeat.period() == nanos(period),
            heartbeat.current() == HeartbeatPhase::Beat,
    {
        Heartbeat { period, phase: HeartbeatPhase::Beat }
    }

    /// What is to be done next. [`Heartbeat::step`] wants to hear what came of it.
    pub fn action(&self) -> (action: HeartbeatAction<Duration>)
        ensures
            action@ == self.current().action(self.period()),
    {
        match self.phase {
            HeartbeatPhase::Beat => HeartbeatAction::Beat,
            HeartbeatPhase::Rest => HeartbeatAction::Sleep { duration: self.period },
            HeartbeatPhase::CheckStop => HeartbeatAction::ReadStopFlag,
            HeartbeatPhase::Stopped => HeartbeatAction::Exit,
        }
    }

    /// Takes note of what came of the last action. An event that is not waited for is handed back,
    /// and changes nothing.
    pub fn step(&mut self, event: HeartbeatEvent) -> (taken: Result<(), HeartbeatEvent>)
        ensures
            final(self).period() == old(self).period(),
            match old(self).current().next(event) {
                Some(next) => taken == Ok::<(), HeartbeatEvent>(()) && final(self).current()
                    == next,
                None => taken == Err::<(), HeartbeatEvent>(event) && final(self).current() == old(
                    self,
                ).current(),
            },
    {
        let next = match (self.phase, event) {
            (HeartbeatPhase::Beat, HeartbeatEvent::Beaten) => HeartbeatPhase::Rest,
            (HeartbeatPhase::Rest, HeartbeatEvent::Slept) => HeartbeatPhase::CheckStop,
            (HeartbeatPhase::CheckStop, HeartbeatEvent::StopFlag { requested }) => {
                if requested {
                    HeartbeatPhase::Stopped
                } else {
                    HeartbeatPhase::Beat
                }
            },
            _ => {
                return Err(event);
            },
        };
        self.phase = next;
        Ok(())
    }
}

/// Whether `event` tells what came of `action`.
pub open spec fn heartbeat_answers(action: HeartbeatAction<nat>, event: HeartbeatEvent) -> bool {
    match action {
        HeartbeatAction::Beat => event is Beaten,
        HeartbeatAction::Sleep { .. } => event is Slept,
        HeartbeatAction::ReadStopFlag => event is StopFlag,
        HeartbeatAction::Exit => false,
    }
}

/// A heartbeat task waits for exactly the events that answer its action. So whoever performs
/// the actions never has an event refused, and after `Exit` nothing follows.
pub proof fn every_heartbeat_answer_is_taken(
    phase: HeartbeatPhase,
    period: nat,
    event: HeartbeatEvent,
)
    ensures
        phase.next(event) is Some <==> heartbeat_answers(phase.action(period), event),
{
}

/// How many of `events` are beats.
pub open spec fn beats(events: Seq<HeartbeatEvent>) -> nat
    decreases events.len(),
{
    if events.len() == 0 {
        0
    } else {
        beats(events.drop_last()) + if events.last() is Beaten {
            1nat
        } else {
            0nat
        }
    }
}

/// How many of `events` are sleeps that are over.
pub open spec fn sleeps(events: Seq<HeartbeatEvent>) -> nat
    decreases events.len(),
{
    if events.len() == 0 {
        0
    } else {
        sleeps(events.drop_last()) + if events.last() is Slept {
            1nat
        } else {
            0nat
        }
    }
}

/// A heartbeat task beats first, then sleeps one period after each beat; and it stops where,
/// and only where, it has just seen a stop request.
pub proof fn one_period_after_each_beat(events: Seq<HeartbeatEvent>)
    ensures
        HeartbeatPhase::Beat.run(events) matches Some(reached) ==> {
            &&& beats(events) == sleeps(events) + if reached is Rest {
                1nat
            } else {
                0nat
            }
            &&& reached is Stopped <==> events.len() > 0 && events.last() == (
            HeartbeatEvent::StopFlag { requested: true })
        },
    decreases events.len(),
{
    if events.len() > 0 {
        one_period_after_each_beat(events.drop_last());
    }
}

/// How many events are left to a task in `phase` that is being stopped.
pub open spec fn heartbeat_steps_left(phase: HeartbeatPhase) -> nat {
    match phase {
        HeartbeatPhase::Beat => 3,
        HeartbeatPhase::Rest => 2,
        HeartbeatPhase::CheckStop => 1,
        HeartbeatPhase::Stopped => 0,
    }
}

/// Once a stop is requested, a heartbeat task stops within one turn of its loop. It beats once more
/// only if it was just about to, and sleeps at most once more.
pub proof fn stop_requests_end_the_heartbeat(phase: HeartbeatPhase, events: Seq<HeartbeatEvent>)
    requires
        forall|i: int|
            0 <= i < events.len() ==> #[trigger] events[i] != (HeartbeatEvent::StopFlag {
                requested: false,
            }),
    ensures
        phase.run(events) matches Some(reached) ==> {
            &&& events.len() + heartbeat_steps_left(reached) == heartbeat_steps_left(phase)
            &&& heartbeat_steps_left(reached) == 0 <==> reached is Stopped
            &&& beats(events) == if phase is Beat && events.len() > 0 {
                1nat
            } else {
                0nat
            }
            &&& sleeps(events) == if (phase is Beat || phase is Rest) && (reached is CheckStop
                || reached is Stopped) {
                1nat
            } else {
                0nat
            }
        },
    decreases events.len(),
{
    if events.len() > 0 {
        let earlier = events.drop_last();
        stop_requests_end_the_heartbeat(phase, earlier);
        assert(events.last() == events[events.len() - 1]);
    }
}

/// Between two beats a heartbeat task sleeps for exactly the period that it was made with, whatever
/// that is, and it does nothing else but beat, look for a stop request, and exit.
pub proof fn the_sleep_lasts_one_period(period: nat)
    ensures
        HeartbeatPhase::Rest.action(period) == (HeartbeatAction::Sleep { duration: period }),
        HeartbeatPhase::Beat.action(period) is Beat,
        HeartbeatPhase::CheckStop.action(period) is ReadStopFlag,
        HeartbeatPhase::Stopped.action(period) is Exit,
{
}

/// A beat is followed by a sleep, and a sleep by a look for a stop request. A request ends the task;
/// without one it beats again. Nothing else leads anywhere.
pub proof fn the_heartbeat_goes_round(phase: HeartbeatPhase, event: HeartbeatEvent)
    ensures
        HeartbeatPhase::Beat.next(HeartbeatEvent::Beaten) == Some(HeartbeatPhase::Rest),
        HeartbeatPhase::Rest.next(HeartbeatEvent::Slept) == Some(HeartbeatPhase::CheckStop),
        HeartbeatPhase::CheckStop.next(HeartbeatEvent::StopFlag { requested: false }) == Some(
            HeartbeatPhase::Beat,
        ),
        HeartbeatPhase::CheckStop.next(HeartbeatEvent::StopFlag { requested: true }) == Some(
            HeartbeatPhase::Stopped,
        ),
        phase.next(event) is Some <==> {
            ||| phase is Beat && event is Beaten
            ||| phase is Rest && event is Slept
            ||| phase is CheckStop && event is StopFlag
        },
{
}

/// How long a heartbeat task with that period has slept, in nanoseconds, when it has come from
/// `phase` through `events`.
pub open spec fn heartbeat_slept(
    phase: HeartbeatPhase,
    period: nat,
    events: Seq<HeartbeatEvent>,
) -> int
    decreases events.len(),
{
    if events.len() == 0 {
        0
    } else {
        let earlier = events.drop_last();
        heartbeat_slept(phase, period, earlier) + match (phase.run(earlier), events.last()) {
            (Some(before), HeartbeatEvent::Slept) => match before.action(period) {
                HeartbeatAction::Sleep { duration } => duration as int,
                _ => 0,
            },
            _ => 0,
        }
    }
}

/// A heartbeat task beats once every period: when it is about to beat again, it has slept exactly
/// as many periods as it has beaten.
pub proof fn one_beat_in_every_period(period: nat, events: Seq<HeartbeatEvent>)
    ensures
        HeartbeatPhase::Beat.run(events) is Some ==> heartbeat_slept(
            HeartbeatPhase::Beat,
            period,
            events,
        ) == sleeps(events) * period,
        HeartbeatPhase::Beat.run(events) == Some(HeartbeatPhase::Beat) ==> heartbeat_slept(
            HeartbeatPhase::Beat,
            period,
            events,
        ) == beats(events) * period,
    decreases events.len(),
{
    one_period_after_each_beat(events);
    if events.len() > 0 {
        let earlier = events.drop_last();
        one_beat_in_every_period(period, earlier);
        let slept = sleeps(earlier);
        assert((slept + 1) * period == slept * period + period) by (nonlinear_arith);
    } else {
        assert(0 * period == 0);
    }
}

/// The model of an action is the action itself, with its time in nanoseconds.
pub proof fn heartbeat_actions_are_modelled_faithfully(d: Duration)
    ensures
        HeartbeatAction::<Duration>::Beat@ is Beat,
        (HeartbeatAction::Sleep { duration: d })@ == (HeartbeatAction::Sleep {
            duration: nanos(d),
        }),
        HeartbeatAction::<Duration>::ReadStopFlag@ is ReadStopFlag,
        HeartbeatAction::<Duration>::Exit@ is Exit,
{
}

} // verus!
