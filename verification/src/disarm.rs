//! Taking a watchdog down as a state machine: what is done when a running watchdog is dropped.

use crate::heartbeat::sleeps;
use crate::heartbeat::stop_requests_end_the_heartbeat;
use crate::heartbeat::HeartbeatEvent;
use crate::heartbeat::HeartbeatPhase;
use crate::span::nanos;
use std::time::Duration;
use vstd::prelude::*;

verus! {

/// How far a watchdog has been taken down.
#[derive(Clone, Copy, Debug, PartialEq, Eq, Structural)]
pub enum DisarmPhase {
    /// Still running, and about to be asked to stop.
    RequestStop,
    /// Asked to stop, and about to have its thread joined.
    JoinThread,
    /// Without its thread, and about to have its heartbeat task joined.
    JoinHeartbeat,
    /// Taken down.
    Disarmed,
    /// Found with its thread panicked.
    Failed,
}

/// What is learned from an action that takes a watchdog down.
#[derive(Clone, Copy, Debug, PartialEq, Eq, Structural)]
pub enum DisarmEvent {
    /// The stop flag is set.
    StopRequested,
    /// The watchdog's thread has ended, of itself or by a panic.
    ThreadJoined { panicked: bool },
    /// The heartbeat task has ended.
    HeartbeatEnded,
    /// The heartbeat task was waited for as long as it is to be.
    WaitedOut,
}

/// What is to be done next to take a watchdog down. A span of time is a `Duration` in running code,
/// and a number of nanoseconds in the model.
#[derive(Debug, PartialEq, Eq)]
pub enum DisarmAction<T> {
    /// Set the stop flag.
    RequestStop,
    /// Wait for the watchdog's thread to end.
    JoinThread,
    /// Wait for the heartbeat task to end, but no longer than the limit: a runtime that is blocked
    /// would never end it.
    JoinHeartbeat { limit: T },
    /// Nothing is left to be done.
    Finish,
    /// Panic: the thread could not be joined.
    Fail,
}

impl View for DisarmAction<Duration> {
    type V = DisarmAction<nat>;

    open spec fn view(&self) -> DisarmAction<nat> {
        match *self {
            DisarmAction::RequestStop => DisarmAction::RequestStop,
            DisarmAction::JoinThread => DisarmAction::JoinThread,
            DisarmAction::JoinHeartbeat { limit } => DisarmAction::JoinHeartbeat {
                limit: nanos(limit),
            },
            DisarmAction::Finish => DisarmAction::Finish,
            DisarmAction::Fail => DisarmAction::Fail,
        }
    }
}

impl DisarmPhase {
    /// The phase after this one, given what was learned in it, or `None` where this phase does
    /// not wait for such an event.
    pub open spec fn next(self, event: DisarmEvent) -> Option<DisarmPhase> {
        match (self, event) {
            (DisarmPhase::RequestStop, DisarmEvent::StopRequested) => Some(DisarmPhase::JoinThread),
            (DisarmPhase::JoinThread, DisarmEvent::ThreadJoined { panicked }) => Some(
                if panicked {
                    DisarmPhase::Failed
                } else {
                    DisarmPhase::JoinHeartbeat
                },
            ),
            (DisarmPhase::JoinHeartbeat, DisarmEvent::HeartbeatEnded) => Some(
                DisarmPhase::Disarmed,
            ),
            (DisarmPhase::JoinHeartbeat, DisarmEvent::WaitedOut) => Some(DisarmPhase::Disarmed),
            _ => None,
        }
    }

    /// What is to be done in this phase with a watchdog whose heartbeat is waited for up to
    /// `limit`.
    pub open spec fn action(self, limit: nat) -> DisarmAction<nat> {
        match self {
            DisarmPhase::RequestStop => DisarmAction::RequestStop,
            DisarmPhase::JoinThread => DisarmAction::JoinThread,
            DisarmPhase::JoinHeartbeat => DisarmAction::JoinHeartbeat { limit },
            DisarmPhase::Disarmed => DisarmAction::Finish,
            DisarmPhase::Failed => DisarmAction::Fail,
        }
    }

    /// The phase that is reached from this one through `events`, or `None` where one comes that is
    /// not waited for.
    pub open spec fn run(self, events: Seq<DisarmEvent>) -> Option<DisarmPhase>
        decreases events.len(),
    {
        if events.len() == 0 {
            Some(self)
        } else {
            match self.run(events.drop_last()) {
                Some(before) => before.next(events.last()),
                None => None,
            }
        }
    }
}

/// A running watchdog that is being taken down.
#[derive(Debug)]
pub struct Disarm {
    limit: Duration,
    phase: DisarmPhase,
}

impl Disarm {
    /// How long the heartbeat task is waited for at most, in nanoseconds.
    pub closed spec fn limit(self) -> nat {
        nanos(self.limit)
    }

    /// How far the watchdog has been taken down.
    pub closed spec fn current(self) -> DisarmPhase {
        self.phase
    }

    /// A watchdog that is still running, and whose heartbeat task is waited for up to `limit` once
    /// it is taken down.
    pub fn new(limit: Duration) -> (disarm: Self)
        ensures
            disarm.limit() == nanos(limit),
            disarm.current() == DisarmPhase::RequestStop,
    {
        Disarm { limit, phase: DisarmPhase::RequestStop }
    }

    /// What is to be done next. [`Disarm::step`] wants to hear what came of it.
    pub fn action(&self) -> (action: DisarmAction<Duration>)
        ensures
            action@ == self.current().action(self.limit()),
    {
        match self.phase {
            DisarmPhase::RequestStop => DisarmAction::RequestStop,
            DisarmPhase::JoinThread => DisarmAction::JoinThread,
            DisarmPhase::JoinHeartbeat => DisarmAction::JoinHeartbeat { limit: self.limit },
            DisarmPhase::Disarmed => DisarmAction::Finish,
            DisarmPhase::Failed => DisarmAction::Fail,
        }
    }

    /// Takes note of what came of the last action. An event that is not waited for is handed back,
    /// and changes nothing.
    pub fn step(&mut self, event: DisarmEvent) -> (taken: Result<(), DisarmEvent>)
        ensures
            final(self).limit() == old(self).limit(),
            match old(self).current().next(event) {
                Some(next) => taken == Ok::<(), DisarmEvent>(()) && final(self).current() == next,
                None => taken == Err::<(), DisarmEvent>(event) && final(self).current() == old(
                    self,
                ).current(),
            },
    {
        let next = match (self.phase, event) {
            (DisarmPhase::RequestStop, DisarmEvent::StopRequested) => DisarmPhase::JoinThread,
            (DisarmPhase::JoinThread, DisarmEvent::ThreadJoined { panicked }) => {
                if panicked {
                    DisarmPhase::Failed
                } else {
                    DisarmPhase::JoinHeartbeat
                }
            },
            (DisarmPhase::JoinHeartbeat, DisarmEvent::HeartbeatEnded) => DisarmPhase::Disarmed,
            (DisarmPhase::JoinHeartbeat, DisarmEvent::WaitedOut) => DisarmPhase::Disarmed,
            _ => {
                return Err(event);
            },
        };
        self.phase = next;
        Ok(())
    }
}

/// Whether `event` tells what came of `action`.
pub open spec fn disarm_answers(action: DisarmAction<nat>, event: DisarmEvent) -> bool {
    match action {
        DisarmAction::RequestStop => event is StopRequested,
        DisarmAction::JoinThread => event is ThreadJoined,
        DisarmAction::JoinHeartbeat { .. } => event is HeartbeatEnded || event is WaitedOut,
        DisarmAction::Finish => false,
        DisarmAction::Fail => false,
    }
}

/// Exactly the events that answer the action are waited for. So whoever performs the actions never
/// has an event refused, and after `Finish` or `Fail` nothing follows.
pub proof fn every_disarm_answer_is_taken(phase: DisarmPhase, limit: nat, event: DisarmEvent)
    ensures
        phase.next(event) is Some <==> disarm_answers(phase.action(limit), event),
{
}

/// What the phase that is reached says of the events that led to it.
proof fn lemma_disarm_progress(events: Seq<DisarmEvent>)
    ensures
        DisarmPhase::RequestStop.run(events) matches Some(reached) ==> match reached {
            DisarmPhase::RequestStop => events =~= Seq::empty(),
            DisarmPhase::JoinThread => events =~= seq![DisarmEvent::StopRequested],
            DisarmPhase::JoinHeartbeat => events =~= seq![
                DisarmEvent::StopRequested,
                DisarmEvent::ThreadJoined { panicked: false },
            ],
            DisarmPhase::Failed => events =~= seq![
                DisarmEvent::StopRequested,
                DisarmEvent::ThreadJoined { panicked: true },
            ],
            DisarmPhase::Disarmed => {
                ||| events =~= seq![
                    DisarmEvent::StopRequested,
                    DisarmEvent::ThreadJoined { panicked: false },
                    DisarmEvent::HeartbeatEnded,
                ]
                ||| events =~= seq![
                    DisarmEvent::StopRequested,
                    DisarmEvent::ThreadJoined { panicked: false },
                    DisarmEvent::WaitedOut,
                ]
            },
        },
    decreases events.len(),
{
    if events.len() > 0 {
        lemma_disarm_progress(events.drop_last());
        assert(events =~= events.drop_last().push(events.last()));
    }
}

/// A watchdog is taken down by asking it to stop, joining its thread, and then joining its heartbeat
/// task, until that has ended or was waited for as long as it is to be; in this order, and in no
/// other way. It fails where, and only where, the thread is found to have panicked.
pub proof fn disarming_joins_the_thread_and_the_heartbeat(events: Seq<DisarmEvent>)
    ensures
        DisarmPhase::RequestStop.run(events) == Some(DisarmPhase::Disarmed) <==> {
            ||| events == seq![
                DisarmEvent::StopRequested,
                DisarmEvent::ThreadJoined { panicked: false },
                DisarmEvent::HeartbeatEnded,
            ]
            ||| events == seq![
                DisarmEvent::StopRequested,
                DisarmEvent::ThreadJoined { panicked: false },
                DisarmEvent::WaitedOut,
            ]
        },
        DisarmPhase::RequestStop.run(events) == Some(DisarmPhase::Failed) <==> events == seq![
            DisarmEvent::StopRequested,
            DisarmEvent::ThreadJoined { panicked: true },
        ],
{
    reveal_with_fuel(DisarmPhase::run, 5);
    let stopped = seq![DisarmEvent::StopRequested];
    let joined = stopped.push(DisarmEvent::ThreadJoined { panicked: false });
    let panicked = stopped.push(DisarmEvent::ThreadJoined { panicked: true });
    assert(stopped.drop_last() =~= Seq::empty());
    assert(joined.drop_last() =~= stopped);
    assert(panicked.drop_last() =~= stopped);
    assert(joined.push(DisarmEvent::HeartbeatEnded).drop_last() =~= joined);
    assert(joined.push(DisarmEvent::WaitedOut).drop_last() =~= joined);
    lemma_disarm_progress(events);
}

/// A heartbeat period is long enough a wait for the heartbeat task of a live runtime: once a stop is
/// requested, the task sleeps at most once more, for one period, before it ends.
pub proof fn one_period_is_enough_for_the_heartbeat(
    period: nat,
    phase: HeartbeatPhase,
    events: Seq<HeartbeatEvent>,
)
    requires
        forall|i: int|
            0 <= i < events.len() ==> #[trigger] events[i] != (HeartbeatEvent::StopFlag {
                requested: false,
            }),
        phase.run(events) is Some,
    ensures
        sleeps(events) * period <= period,
{
    stop_requests_end_the_heartbeat(phase, events);
    assert(sleeps(events) <= 1);
    assert(sleeps(events) * period <= period) by (nonlinear_arith)
        requires
            sleeps(events) <= 1,
    ;
}

/// Each step of taking a watchdog down is what its phase says, and the heartbeat task is waited for
/// exactly as long as was set.
pub proof fn disarming_waits_as_long_as_set(limit: nat)
    ensures
        DisarmPhase::RequestStop.action(limit) is RequestStop,
        DisarmPhase::JoinThread.action(limit) is JoinThread,
        DisarmPhase::JoinHeartbeat.action(limit) == (DisarmAction::JoinHeartbeat { limit }),
        DisarmPhase::Disarmed.action(limit) is Finish,
        DisarmPhase::Failed.action(limit) is Fail,
{
}

/// Taking a watchdog down goes from one step to the next, and fails only at a panicked thread.
/// Nothing else leads anywhere.
pub proof fn disarming_goes_step_by_step(phase: DisarmPhase, event: DisarmEvent)
    ensures
        DisarmPhase::RequestStop.next(DisarmEvent::StopRequested) == Some(DisarmPhase::JoinThread),
        DisarmPhase::JoinThread.next(DisarmEvent::ThreadJoined { panicked: false }) == Some(
            DisarmPhase::JoinHeartbeat,
        ),
        DisarmPhase::JoinThread.next(DisarmEvent::ThreadJoined { panicked: true }) == Some(
            DisarmPhase::Failed,
        ),
        DisarmPhase::JoinHeartbeat.next(DisarmEvent::HeartbeatEnded) == Some(
            DisarmPhase::Disarmed,
        ),
        DisarmPhase::JoinHeartbeat.next(DisarmEvent::WaitedOut) == Some(DisarmPhase::Disarmed),
        phase.next(event) is Some <==> {
            ||| phase is RequestStop && event is StopRequested
            ||| phase is JoinThread && event is ThreadJoined
            ||| phase is JoinHeartbeat && (event is HeartbeatEnded || event is WaitedOut)
        },
{
}

/// The model of an action is the action itself, with its time in nanoseconds.
pub proof fn disarm_actions_are_modelled_faithfully(d: Duration)
    ensures
        DisarmAction::<Duration>::RequestStop@ is RequestStop,
        DisarmAction::<Duration>::JoinThread@ is JoinThread,
        (DisarmAction::JoinHeartbeat { limit: d })@ == (DisarmAction::JoinHeartbeat {
            limit: nanos(d),
        }),
        DisarmAction::<Duration>::Finish@ is Finish,
        DisarmAction::<Duration>::Fail@ is Fail,
{
}

} // verus!
