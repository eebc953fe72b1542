//! What holds of every watchdog, whatever it is told and whatever it meets.

use crate::protocol::Action;
use crate::protocol::DumpOutcome;
use crate::protocol::Event;
use crate::protocol::Phase;
use crate::protocol::Rules;
use crate::settings::pauses_fill_the_collection_time;
use vstd::prelude::*;

verus! {

/// Whether `event` tells what came of `action`.
pub open spec fn answers(action: Action<nat>, event: Event<nat>) -> bool {
    match action {
        Action::ReadHeartbeat => event is Heartbeat,
        Action::CollectMetrics { .. } => event is MetricsCollected,
        Action::Sleep { .. } => event is Slept,
        Action::TakeTaskDump { .. } => event is TaskDump,
        Action::ReadStopFlag => event is StopFlag,
        Action::Exit => false,
        Action::Panic { .. } => false,
    }
}

/// A watchdog waits for exactly the events that answer its action. So whoever performs the
/// actions never has an event refused, and after `Exit` or `Panic` nothing follows.
pub proof fn every_answer_is_taken(rules: Rules, phase: Phase<nat>, event: Event<nat>)
    ensures
        rules.next(phase, event) is Some <==> answers(rules.action(phase), event),
{
}

/// One event more takes a run one phase further.
proof fn lemma_run_push(rules: Rules, phase: Phase<nat>, events: Seq<Event<nat>>, event: Event<nat>)
    ensures
        rules.run(phase, events.push(event)) == match rules.run(phase, events) {
            Some(before) => rules.next(before, event),
            None => None,
        },
{
    assert(events.push(event).drop_last() =~= events);
}

/// Every phase that a watchdog reaches is one that its rules admit.
pub proof fn reached_phases_are_admitted(rules: Rules, phase: Phase<nat>, events: Seq<Event<nat>>)
    requires
        rules.admits(phase),
    ensures
        rules.run(phase, events) matches Some(reached) ==> rules.admits(reached),
    decreases events.len(),
{
    if events.len() > 0 {
        reached_phases_are_admitted(rules, phase, events.drop_last());
    }
}

/// A watchdog that is told not to panic never panics.
pub proof fn no_panic_unless_set(rules: Rules, events: Seq<Event<nat>>)
    requires
        !rules.settings.panic,
    ensures
        rules.run(Phase::ReadHeartbeat, events) matches Some(reached) ==> !(reached is Panicked),
{
    reached_phases_are_admitted(rules, Phase::ReadHeartbeat, events);
}

/// With the number of collections set to zero, metrics are never collected.
pub proof fn zero_collections_disable_metrics(rules: Rules, events: Seq<Event<nat>>)
    requires
        rules.settings.triggered_metrics_collections == 0,
    ensures
        rules.run(Phase::ReadHeartbeat, events) matches Some(reached) ==> !(rules.action(
            reached,
        ) is CollectMetrics),
{
    reached_phases_are_admitted(rules, Phase::ReadHeartbeat, events);
}

/// The time since the last heartbeat, as it was last read.
pub open spec fn last_reading(events: Seq<Event<nat>>) -> Option<nat>
    decreases events.len(),
{
    if events.len() == 0 {
        None
    } else {
        match events.last() {
            Event::Heartbeat { elapsed } => Some(elapsed),
            _ => last_reading(events.drop_last()),
        }
    }
}

/// How often metrics were collected since the heartbeat was last read.
pub open spec fn collected(events: Seq<Event<nat>>) -> nat
    decreases events.len(),
{
    if events.len() == 0 {
        0
    } else {
        match events.last() {
            Event::Heartbeat { .. } => 0,
            Event::MetricsCollected => collected(events.drop_last()) + 1,
            _ => collected(events.drop_last()),
        }
    }
}

/// What came of the last task dump that was attempted since the heartbeat was last read.
pub open spec fn last_dump(events: Seq<Event<nat>>) -> Option<DumpOutcome>
    decreases events.len(),
{
    if events.len() == 0 {
        None
    } else {
        match events.last() {
            Event::Heartbeat { .. } => None,
            Event::TaskDump { outcome } => Some(outcome),
            _ => last_dump(events.drop_last()),
        }
    }
}

/// Whether all that is done about an overdue heartbeat before giving up was done since the
/// heartbeat was last read: metrics were collected as often as set and, where task dumps can
/// be taken, one was attempted in vain.
pub open spec fn exhausted(rules: Rules, events: Seq<Event<nat>>) -> bool {
    &&& collected(events) == rules.settings.triggered_metrics_collections
    &&& if rules.task_dumps {
        last_dump(events) is Some && last_dump(events) != Some(DumpOutcome::Succeeded)
    } else {
        last_dump(events) is None
    }
}

/// What the events so far say about the phase that they led to.
pub open spec fn explained(rules: Rules, events: Seq<Event<nat>>, reached: Phase<nat>) -> bool {
    match reached {
        Phase::ReadHeartbeat => true,
        Phase::CollectMetrics { elapsed, index } => {
            &&& last_reading(events) == Some(elapsed)
            &&& elapsed > rules.settings.watchdog_timeout
            &&& collected(events) == index
            &&& last_dump(events) is None
        },
        Phase::Pause { elapsed, index } => {
            &&& last_reading(events) == Some(elapsed)
            &&& elapsed > rules.settings.watchdog_timeout
            &&& collected(events) == index + 1
            &&& last_dump(events) is None
        },
        Phase::TakeTaskDump { elapsed } => {
            &&& last_reading(events) == Some(elapsed)
            &&& elapsed > rules.settings.watchdog_timeout
            &&& collected(events) == rules.settings.triggered_metrics_collections
            &&& last_dump(events) is None
        },
        Phase::ConfirmPanic { elapsed } => {
            &&& last_reading(events) == Some(elapsed)
            &&& elapsed > rules.settings.watchdog_timeout
            &&& rules.settings.panic
            &&& exhausted(rules, events)
        },
        Phase::Rest | Phase::CheckStop => {
            &&& last_reading(events) matches Some(elapsed)
            &&& if elapsed > rules.settings.watchdog_timeout {
                !rules.settings.panic && exhausted(rules, events)
            } else {
                collected(events) == 0 && last_dump(events) is None
            }
        },
        Phase::Exited => events.last() == (Event::<nat>::StopFlag { requested: true }),
        Phase::Panicked { elapsed } => {
            &&& last_reading(events) == Some(elapsed)
            &&& elapsed > rules.settings.watchdog_timeout
            &&& rules.settings.panic
            &&& exhausted(rules, events)
            &&& events.last() == (Event::<nat>::StopFlag { requested: false })
        },
    }
}

/// A watchdog does what it does for a reason that lies in what it has met:
///
/// * it is triggered only by a heartbeat that is longer ago than the timeout;
/// * it collects metrics as often as set before it does anything else about it;
/// * it rests after a heartbeat in time with nothing collected and nothing dumped, and after
///   an overdue one only where it was told not to panic;
/// * it exits only where it has just seen a stop request;
/// * it panics only where it was told to, where the last heartbeat it read was overdue, where
///   metrics were collected as often as set, where a task dump, if it can be had, was
///   attempted in vain, and where it has just seen that no stop is requested.
pub proof fn phases_are_explained(rules: Rules, events: Seq<Event<nat>>)
    ensures
        rules.run(Phase::ReadHeartbeat, events) matches Some(reached) ==> explained(
            rules,
            events,
            reached,
        ),
    decreases events.len(),
{
    if events.len() > 0 {
        let earlier = events.drop_last();
        phases_are_explained(rules, earlier);
        reached_phases_are_admitted(rules, Phase::ReadHeartbeat, earlier);
    }
}

/// The events of `n` collections of metrics, each with its pause.
pub open spec fn collections(n: nat) -> Seq<Event<nat>>
    decreases n,
{
    if n == 0 {
        Seq::empty()
    } else {
        collections((n - 1) as nat).push(Event::MetricsCollected).push(Event::Slept)
    }
}

/// The events of a round that starts with a heartbeat `elapsed` ago, up to where the watchdog
/// gives the runtime up or not.
pub open spec fn triggered_round(rules: Rules, elapsed: nat, outcome: DumpOutcome) -> Seq<
    Event<nat>,
> {
    let metrics = seq![Event::Heartbeat { elapsed }] + collections(
        rules.settings.triggered_metrics_collections as nat,
    );
    if rules.task_dumps {
        metrics.push(Event::TaskDump { outcome })
    } else {
        metrics
    }
}

/// A triggered watchdog gets through any number of the collections that are set.
proof fn lemma_collections(rules: Rules, elapsed: nat, n: nat)
    requires
        elapsed > rules.settings.watchdog_timeout,
        n <= rules.settings.triggered_metrics_collections,
    ensures
        rules.run(
            Phase::ReadHeartbeat,
            seq![Event::Heartbeat { elapsed }] + collections(n),
        ) == Some(rules.after_collecting(elapsed, n as int)),
    decreases n,
{
    let heartbeat = seq![Event::Heartbeat { elapsed }];
    if n == 0 {
        assert(heartbeat + collections(n) =~= Seq::empty().push(Event::Heartbeat { elapsed }));
        lemma_run_push(rules, Phase::ReadHeartbeat, Seq::empty(), Event::Heartbeat { elapsed });
    } else {
        let fewer = heartbeat + collections((n - 1) as nat);
        lemma_collections(rules, elapsed, (n - 1) as nat);
        assert(heartbeat + collections(n) =~= fewer.push(Event::MetricsCollected).push(
            Event::Slept,
        ));
        lemma_run_push(rules, Phase::ReadHeartbeat, fewer, Event::MetricsCollected);
        lemma_run_push(
            rules,
            Phase::ReadHeartbeat,
            fewer.push(Event::MetricsCollected),
            Event::Slept,
        );
    }
}

/// A heartbeat that is overdue takes a watchdog through its collections of metrics, and through
/// a task dump where one can be taken. A dump that succeeds resets the watchdog: it reads the
/// heartbeat again, without a pause. Otherwise it gives the runtime up: it panics unless a stop
/// is requested by then, or rests where it was told not to panic.
pub proof fn overdue_heartbeats_are_acted_on(rules: Rules, elapsed: nat, outcome: DumpOutcome)
    requires
        elapsed > rules.settings.watchdog_timeout,
    ensures
        ({
            let round = triggered_round(rules, elapsed, outcome);
            let reached = rules.run(Phase::ReadHeartbeat, round);
            if rules.task_dumps && outcome == DumpOutcome::Succeeded {
                reached == Some(Phase::<nat>::ReadHeartbeat)
            } else if rules.settings.panic {
                &&& rules.run(
                    Phase::ReadHeartbeat,
                    round.push(Event::StopFlag { requested: false }),
                ) == Some(Phase::Panicked { elapsed })
                &&& rules.run(
                    Phase::ReadHeartbeat,
                    round.push(Event::StopFlag { requested: true }),
                ) == Some(Phase::<nat>::Exited)
            } else {
                reached == Some(Phase::<nat>::Rest)
            }
        }),
{
    let n = rules.settings.triggered_metrics_collections as nat;
    let metrics = seq![Event::Heartbeat { elapsed }] + collections(n);
    let round = triggered_round(rules, elapsed, outcome);
    lemma_collections(rules, elapsed, n);
    lemma_run_push(rules, Phase::ReadHeartbeat, metrics, Event::TaskDump { outcome });
    lemma_run_push(
        rules,
        Phase::ReadHeartbeat,
        round,
        Event::StopFlag { requested: false },
    );
    lemma_run_push(rules, Phase::ReadHeartbeat, round, Event::StopFlag { requested: true });
}

/// A heartbeat in time only makes a watchdog sleep for a heartbeat period, look for a stop
/// request, and read the heartbeat again if there is none.
pub proof fn timely_heartbeats_are_let_pass(rules: Rules, elapsed: nat)
    requires
        elapsed <= rules.settings.watchdog_timeout,
    ensures
        rules.next(Phase::ReadHeartbeat, Event::Heartbeat { elapsed }) == Some(Phase::<nat>::Rest),
        rules.action(Phase::Rest) == (Action::Sleep { duration: rules.settings.heartbeat_period }),
        rules.next(Phase::Rest, Event::Slept) == Some(Phase::<nat>::CheckStop),
        rules.next(Phase::CheckStop, Event::StopFlag { requested: false }) == Some(
            Phase::<nat>::ReadHeartbeat,
        ),
        rules.next(Phase::CheckStop, Event::StopFlag { requested: true }) == Some(
            Phase::<nat>::Exited,
        ),
{
}

/// Whether every stop flag among `events` shows a request.
pub open spec fn stopping(events: Seq<Event<nat>>) -> bool {
    forall|i: int|
        0 <= i < events.len() ==> #[trigger] events[i] != (Event::<nat>::StopFlag {
            requested: false,
        })
}

/// How many of `events` are task dumps that succeeded.
pub open spec fn successful_dumps(events: Seq<Event<nat>>) -> nat
    decreases events.len(),
{
    if events.len() == 0 {
        0
    } else {
        successful_dumps(events.drop_last()) + if events.last() == (Event::<nat>::TaskDump {
            outcome: DumpOutcome::Succeeded,
        }) {
            1nat
        } else {
            0nat
        }
    }
}

/// The most events that one round of the loop can take.
pub open spec fn longest_round(rules: Rules) -> nat {
    (2 * rules.settings.triggered_metrics_collections + 4) as nat
}

/// How many events at most are left to a watchdog in `phase` that is being stopped, unless a
/// task dump succeeds.
pub open spec fn steps_left(rules: Rules, phase: Phase<nat>) -> int {
    let n = rules.settings.triggered_metrics_collections;
    match phase {
        Phase::ReadHeartbeat => 2 * n + 4,
        Phase::CollectMetrics { index, .. } => 2 * (n - index) + 3,
        Phase::Pause { index, .. } => 2 * (n - index) + 2,
        Phase::TakeTaskDump { .. } => 3,
        Phase::ConfirmPanic { .. } => 1,
        Phase::Rest => 2,
        Phase::CheckStop => 1,
        Phase::Exited => 0,
        Phase::Panicked { .. } => 0,
    }
}

/// Once a stop is requested, a watchdog never panics, and comes to its end within one round,
/// and one round more for each task dump that succeeds meanwhile.
pub proof fn stop_requests_are_honoured(rules: Rules, phase: Phase<nat>, events: Seq<Event<nat>>)
    requires
        rules.admits(phase),
        stopping(events),
    ensures
        rules.run(phase, events) matches Some(reached) ==> {
            &&& events.len() + steps_left(rules, reached) <= steps_left(rules, phase)
                + longest_round(rules) * successful_dumps(events)
            &&& 0 <= steps_left(rules, reached)
            &&& steps_left(rules, reached) == 0 <==> reached is Exited || reached is Panicked
            &&& reached is Panicked ==> phase is Panicked
        },
        steps_left(rules, phase) <= longest_round(rules),
    decreases events.len(),
{
    if events.len() > 0 {
        let earlier = events.drop_last();
        stop_requests_are_honoured(rules, phase, earlier);
        reached_phases_are_admitted(rules, phase, earlier);
        assert(events.last() == events[events.len() - 1]);
        let longest = longest_round(rules);
        let dumps = successful_dumps(earlier);
        assert(longest * (dumps + 1) == longest * dumps + longest) by (nonlinear_arith);
    }
}

/// The time since the last of the beats that were recorded by `now`, where `beats` holds the
/// moments of the beats in order and `beats[k]` is the last one by `now`.
pub open spec fn reading(beats: Seq<nat>, k: int, now: nat) -> nat {
    (now - beats[k]) as nat
}

/// A runtime whose heartbeats follow each other within the timeout never triggers its watchdog:
/// whenever the heartbeat is read, between two beats or within the timeout after the last, it is
/// in time.
pub proof fn a_live_runtime_never_triggers(rules: Rules, beats: Seq<nat>, k: int, now: nat)
    requires
        forall|i: int|
            0 <= i < beats.len() - 1 ==> #[trigger] beats[i] <= beats[i + 1] <= beats[i]
                + rules.settings.watchdog_timeout,
        0 <= k < beats.len(),
        beats[k] <= now,
        now <= if k + 1 < beats.len() {
            beats[k + 1] as int
        } else {
            (beats[k] + rules.settings.watchdog_timeout) as int
        },
    ensures
        rules.next(
            Phase::ReadHeartbeat,
            Event::Heartbeat { elapsed: reading(beats, k, now) },
        ) == Some(Phase::<nat>::Rest),
{
    if k + 1 < beats.len() {
        assert(beats[k] <= beats[k + 1]);
    }
}

/// A runtime that stops beating triggers its watchdog as soon as the heartbeat is read after
/// the timeout: it collects metrics if any are to be collected, else takes a task dump if one can be
/// had, else makes ready to panic if it is to, and rests only where there is nothing to be done.
pub proof fn a_blocked_runtime_triggers(rules: Rules, beats: Seq<nat>, now: nat)
    requires
        beats.len() > 0,
        beats.last() + rules.settings.watchdog_timeout < now,
    ensures
        ({
            let elapsed = (now - beats.last()) as nat;
            rules.next(
                Phase::ReadHeartbeat,
                Event::Heartbeat { elapsed: reading(beats, beats.len() - 1, now) },
            ) == Some(
                if rules.settings.triggered_metrics_collections > 0 {
                    Phase::CollectMetrics { elapsed, index: 0 }
                } else if rules.task_dumps {
                    Phase::TakeTaskDump { elapsed }
                } else if rules.settings.panic {
                    Phase::ConfirmPanic { elapsed }
                } else {
                    Phase::Rest
                },
            )
        }),
{
}

/// The timeout alone decides whether a heartbeat is let pass. One that is longer ago, by however
/// little and whatever the timeout is, has the watchdog do the first of what is left to be done:
/// collect metrics, take a task dump, make ready to panic.
pub proof fn the_timeout_alone_decides(rules: Rules, elapsed: nat)
    ensures
        rules.overdue(elapsed) <==> elapsed > rules.settings.watchdog_timeout,
        elapsed <= rules.settings.watchdog_timeout ==> rules.next(
            Phase::ReadHeartbeat,
            Event::Heartbeat { elapsed },
        ) == Some(Phase::<nat>::Rest),
        elapsed > rules.settings.watchdog_timeout ==> rules.next(
            Phase::ReadHeartbeat,
            Event::Heartbeat { elapsed },
        ) == Some(
            if rules.settings.triggered_metrics_collections > 0 {
                Phase::CollectMetrics { elapsed, index: 0 }
            } else if rules.task_dumps {
                Phase::TakeTaskDump { elapsed }
            } else if rules.settings.panic {
                Phase::ConfirmPanic { elapsed }
            } else {
                Phase::Rest
            },
        ),
{
}

/// The longer a heartbeat stays away the less it is let pass, and the longer the timeout the more:
/// what triggers a watchdog triggers it also when it is longer ago, and triggers every watchdog with
/// a shorter timeout.
pub proof fn triggering_is_monotone(a: Rules, b: Rules, shorter: nat, longer: nat)
    requires
        shorter <= longer,
        b.settings.watchdog_timeout <= a.settings.watchdog_timeout,
        a.overdue(shorter),
    ensures
        b.overdue(longer),
        !a.overdue(a.settings.watchdog_timeout),
        a.overdue(a.settings.watchdog_timeout + 1),
{
}

/// A collection of metrics is followed by its pause, and that by the next collection, until there
/// were as many as set. Only then comes what is left to be done about the heartbeat, which is still
/// the one that was read.
pub proof fn collections_follow_each_other(rules: Rules, elapsed: nat, index: u32)
    ensures
        rules.next(Phase::CollectMetrics { elapsed, index }, Event::MetricsCollected) == Some(
            Phase::Pause { elapsed, index },
        ),
        rules.next(Phase::Pause { elapsed, index }, Event::Slept) == Some(
            if index + 1 < rules.settings.triggered_metrics_collections {
                Phase::CollectMetrics { elapsed, index: (index + 1) as u32 }
            } else if rules.task_dumps {
                Phase::TakeTaskDump { elapsed }
            } else if rules.settings.panic {
                Phase::ConfirmPanic { elapsed }
            } else {
                Phase::Rest
            },
        ),
{
}

/// Only a task dump that succeeds has the watchdog read the heartbeat again. Any other outcome has
/// it make ready to panic, or rest where it is not to panic.
pub proof fn only_a_successful_dump_resets(rules: Rules, elapsed: nat, outcome: DumpOutcome)
    ensures
        rules.next(Phase::TakeTaskDump { elapsed }, Event::TaskDump { outcome }) == Some(
            match outcome {
                DumpOutcome::Succeeded => Phase::ReadHeartbeat,
                DumpOutcome::NotStarted | DumpOutcome::Unsuccessful => if rules.settings.panic {
                    Phase::ConfirmPanic { elapsed }
                } else {
                    Phase::Rest
                },
            },
        ),
{
}

/// A stop request ends the watchdog wherever it looks for one. Without one it panics over the
/// heartbeat that was read, or starts over if it was only looking after a round.
pub proof fn a_stop_flag_ends_or_lets_go_on(rules: Rules, elapsed: nat)
    ensures
        rules.next(Phase::ConfirmPanic { elapsed }, Event::StopFlag { requested: true }) == Some(
            Phase::<nat>::Exited,
        ),
        rules.next(Phase::ConfirmPanic { elapsed }, Event::StopFlag { requested: false }) == Some(
            Phase::Panicked { elapsed },
        ),
        rules.next(Phase::CheckStop, Event::StopFlag { requested: true }) == Some(
            Phase::<nat>::Exited,
        ),
        rules.next(Phase::CheckStop, Event::StopFlag { requested: false }) == Some(
            Phase::<nat>::ReadHeartbeat,
        ),
        rules.next(Phase::Rest, Event::Slept) == Some(Phase::<nat>::CheckStop),
{
}

/// Each phase waits for one kind of event and for no other, and the two last phases for none.
pub proof fn each_phase_waits_for_one_kind_of_event(
    rules: Rules,
    phase: Phase<nat>,
    event: Event<nat>,
)
    ensures
        rules.next(phase, event) is Some <==> {
            ||| phase is ReadHeartbeat && event is Heartbeat
            ||| phase is CollectMetrics && event is MetricsCollected
            ||| phase is Pause && event is Slept
            ||| phase is TakeTaskDump && event is TaskDump
            ||| phase is ConfirmPanic && event is StopFlag
            ||| phase is Rest && event is Slept
            ||| phase is CheckStop && event is StopFlag
        },
{
}

/// What is done is what the settings say, each action by its own setting whatever the others are: a
/// rest lasts one heartbeat period, and a task dump is given its deadline.
pub proof fn actions_carry_out_the_settings(rules: Rules, elapsed: nat, index: u32)
    ensures
        rules.action(Phase::ReadHeartbeat) is ReadHeartbeat,
        rules.action(Phase::CollectMetrics { elapsed, index }) == (Action::<nat>::CollectMetrics {
            index,
        }),
        rules.action(Phase::TakeTaskDump { elapsed }) == (Action::TakeTaskDump {
            deadline: rules.settings.task_dump_deadline,
        }),
        rules.action(Phase::Rest) == (Action::Sleep { duration: rules.settings.heartbeat_period }),
        rules.action(Phase::ConfirmPanic { elapsed }) is ReadStopFlag,
        rules.action(Phase::CheckStop) is ReadStopFlag,
        rules.action(Phase::Exited) is Exit,
        rules.action(Phase::Panicked { elapsed }) == (Action::Panic { elapsed }),
{
}

/// What is slept after each collection of metrics is an equal share of the time set for all of them:
/// as many of these sleeps as there are collections take that time, short of it by less than one
/// nanosecond for each.
pub proof fn each_pause_is_an_equal_share(rules: Rules, elapsed: nat, index: u32)
    requires
        rules.settings.triggered_metrics_collections != 0,
    ensures
        ({
            let n = rules.settings.triggered_metrics_collections;
            &&& rules.action(Phase::Pause { elapsed, index }) matches Action::Sleep { duration }
            &&& duration * n <= rules.settings.triggered_metrics_duration
            &&& rules.settings.triggered_metrics_duration - duration * n < n
        }),
{
    pauses_fill_the_collection_time(rules.settings);
}

/// How long a watchdog has slept, in nanoseconds, when it has come from `phase` through `events`.
pub open spec fn slept(rules: Rules, phase: Phase<nat>, events: Seq<Event<nat>>) -> int
    decreases events.len(),
{
    if events.len() == 0 {
        0
    } else {
        let earlier = events.drop_last();
        slept(rules, phase, earlier) + match (rules.run(phase, earlier), events.last()) {
            (Some(before), Event::Slept) => match rules.action(before) {
                Action::Sleep { duration } => duration as int,
                _ => 0,
            },
            _ => 0,
        }
    }
}

/// Some collections of metrics take as many pauses.
proof fn lemma_slept_over_collections(rules: Rules, elapsed: nat, n: nat)
    requires
        elapsed > rules.settings.watchdog_timeout,
        n <= rules.settings.triggered_metrics_collections,
    ensures
        slept(
            rules,
            Phase::ReadHeartbeat,
            seq![Event::Heartbeat { elapsed }] + collections(n),
        ) == n * rules.settings.pause(),
    decreases n,
{
    let start = Phase::<nat>::ReadHeartbeat;
    let heartbeat = seq![Event::Heartbeat { elapsed }];
    let pause = rules.settings.pause() as int;
    if n == 0 {
        let none = Seq::<Event<nat>>::empty();
        assert(heartbeat + collections(n) =~= none.push(Event::Heartbeat { elapsed }));
        assert(none.push(Event::Heartbeat { elapsed }).drop_last() =~= none);
        assert(slept(rules, start, none) == 0);
    } else {
        let fewer = heartbeat + collections((n - 1) as nat);
        let more = fewer.push(Event::MetricsCollected);
        lemma_slept_over_collections(rules, elapsed, (n - 1) as nat);
        lemma_collections(rules, elapsed, (n - 1) as nat);
        lemma_run_push(rules, start, fewer, Event::MetricsCollected);
        assert(heartbeat + collections(n) =~= more.push(Event::Slept));
        assert(more.drop_last() =~= fewer);
        assert(more.push(Event::Slept).drop_last() =~= more);
        assert(slept(rules, start, more) == slept(rules, start, fewer));
        assert(n * pause == (n - 1) * pause + pause) by (nonlinear_arith);
    }
}

/// From the moment that an overdue heartbeat is read until all metrics are collected, a watchdog
/// sleeps for the time set for collecting metrics, short of it by less than one nanosecond for each
/// collection, however many there are.
pub proof fn collecting_takes_the_time_set_for_it(rules: Rules, elapsed: nat)
    requires
        elapsed > rules.settings.watchdog_timeout,
        rules.settings.triggered_metrics_collections != 0,
    ensures
        ({
            let n = rules.settings.triggered_metrics_collections;
            let time = slept(
                rules,
                Phase::ReadHeartbeat,
                seq![Event::Heartbeat { elapsed }] + collections(n as nat),
            );
            &&& time <= rules.settings.triggered_metrics_duration
            &&& rules.settings.triggered_metrics_duration - time < n
        }),
{
    let n = rules.settings.triggered_metrics_collections;
    let pause = rules.settings.pause();
    lemma_slept_over_collections(rules, elapsed, n as nat);
    pauses_fill_the_collection_time(rules.settings);
    assert(pause * n == n * pause) by (nonlinear_arith);
}

/// A run goes through its events one by one: without events it stays where it is, and one event more
/// takes it from where it had come to where that event leads.
pub proof fn runs_go_event_by_event(
    rules: Rules,
    phase: Phase<nat>,
    events: Seq<Event<nat>>,
    event: Event<nat>,
)
    ensures
        rules.run(phase, Seq::empty()) == Some(phase),
        rules.run(phase, events) matches Some(before) ==> rules.run(phase, events.push(event))
            == rules.next(before, event),
        rules.run(phase, events) is None ==> rules.run(phase, events.push(event)) is None,
{
    lemma_run_push(rules, phase, events, event);
}

} // verus!
