//! The watchdog's loop, step by step.

use std::time::Duration;
use tokio_util_watchdog::Action;
use tokio_util_watchdog::Builder;
use tokio_util_watchdog::DumpOutcome;
use tokio_util_watchdog::Event;
use tokio_util_watchdog::Watchdog;

fn watch(builder: Builder) -> Watchdog {
    let rt = tokio::runtime::Builder::new_current_thread()
        .build()
        .unwrap();
    builder.build_for_runtime(rt.handle().clone())
}

fn secs(n: u64) -> Duration {
    Duration::from_secs(n)
}

fn heartbeat(elapsed: Duration) -> Event<Duration> {
    Event::Heartbeat { elapsed }
}

fn stop_flag(requested: bool) -> Event<Duration> {
    Event::StopFlag { requested }
}

fn dump(outcome: DumpOutcome) -> Event<Duration> {
    Event::TaskDump { outcome }
}

#[test]
fn a_heartbeat_in_time_is_let_pass() {
    let mut watchdog = watch(Watchdog::builder());
    assert_eq!(watchdog.action(), Action::ReadHeartbeat);
    assert_eq!(watchdog.step(heartbeat(secs(5))), Ok(()));
    assert_eq!(watchdog.action(), Action::Sleep { duration: secs(1) });
    assert_eq!(watchdog.step(Event::Slept), Ok(()));
    assert_eq!(watchdog.action(), Action::ReadStopFlag);
    assert_eq!(watchdog.step(stop_flag(false)), Ok(()));
    assert_eq!(watchdog.action(), Action::ReadHeartbeat);
}

#[test]
fn a_stop_request_ends_the_loop() {
    let mut watchdog = watch(Watchdog::builder());
    assert_eq!(watchdog.step(heartbeat(secs(0))), Ok(()));
    assert_eq!(watchdog.step(Event::Slept), Ok(()));
    assert_eq!(watchdog.step(stop_flag(true)), Ok(()));
    assert_eq!(watchdog.action(), Action::Exit);
}

#[test]
fn a_nanosecond_too_late_triggers() {
    let mut watchdog = watch(Watchdog::builder());
    assert_eq!(watchdog.step(heartbeat(Duration::new(5, 1))), Ok(()));
    assert_eq!(watchdog.action(), Action::CollectMetrics { index: 0 });
}

#[test]
fn by_default_metrics_are_collected_twenty_times_over_two_seconds() {
    let mut watchdog = watch(Watchdog::builder());
    assert_eq!(watchdog.step(heartbeat(secs(6))), Ok(()));
    for index in 0..20 {
        assert_eq!(watchdog.action(), Action::CollectMetrics { index });
        assert_eq!(watchdog.step(Event::MetricsCollected), Ok(()));
        assert_eq!(
            watchdog.action(),
            Action::Sleep {
                duration: Duration::from_millis(100)
            }
        );
        assert_eq!(watchdog.step(Event::Slept), Ok(()));
    }
    assert_eq!(watchdog.action(), Action::ReadStopFlag);
    assert_eq!(watchdog.step(stop_flag(false)), Ok(()));
    assert_eq!(watchdog.action(), Action::Panic { elapsed: secs(6) });
}

#[test]
fn the_pause_is_rounded_down_to_nanoseconds() {
    let mut watchdog = watch(
        Watchdog::builder()
            .triggered_metrics_duration(secs(1))
            .triggered_metrics_collections(3),
    );
    assert_eq!(watchdog.step(heartbeat(secs(6))), Ok(()));
    assert_eq!(watchdog.step(Event::MetricsCollected), Ok(()));
    let pause = Duration::from_nanos(333_333_333);
    assert_eq!(watchdog.action(), Action::Sleep { duration: pause });
    assert!(pause * 3 <= secs(1));
    assert!(secs(1) - pause * 3 < Duration::from_nanos(3));
}

#[test]
fn the_longest_duration_can_be_shared_out() {
    let mut watchdog = watch(
        Watchdog::builder()
            .triggered_metrics_duration(Duration::MAX)
            .triggered_metrics_collections(1),
    );
    assert_eq!(watchdog.step(heartbeat(Duration::MAX)), Ok(()));
    assert_eq!(watchdog.step(Event::MetricsCollected), Ok(()));
    assert_eq!(
        watchdog.action(),
        Action::Sleep {
            duration: Duration::MAX
        }
    );
}

#[test]
fn zero_collections_go_straight_to_the_end() {
    let mut watchdog = watch(Watchdog::builder().triggered_metrics_collections(0));
    assert_eq!(watchdog.step(heartbeat(secs(6))), Ok(()));
    assert_eq!(watchdog.action(), Action::ReadStopFlag);
}

#[test]
fn a_stop_request_right_before_the_panic_prevents_it() {
    let mut watchdog = watch(Watchdog::builder().triggered_metrics_collections(0));
    assert_eq!(watchdog.step(heartbeat(secs(6))), Ok(()));
    assert_eq!(watchdog.step(stop_flag(true)), Ok(()));
    assert_eq!(watchdog.action(), Action::Exit);
}

#[test]
fn without_panic_a_triggered_watchdog_rests() {
    let mut watchdog = watch(
        Watchdog::builder()
            .triggered_metrics_collections(0)
            .heartbeat_period(secs(3))
            .panic(false),
    );
    assert_eq!(watchdog.step(heartbeat(secs(6))), Ok(()));
    assert_eq!(watchdog.action(), Action::Sleep { duration: secs(3) });
    assert_eq!(watchdog.step(Event::Slept), Ok(()));
    assert_eq!(watchdog.step(stop_flag(false)), Ok(()));
    assert_eq!(watchdog.action(), Action::ReadHeartbeat);
}

#[test]
fn a_successful_task_dump_resets_the_watchdog() {
    let mut watchdog = watch(
        Watchdog::builder()
            .triggered_metrics_collections(0)
            .task_dump_deadline(secs(8)),
    )
    .with_task_dumps(true);
    assert_eq!(watchdog.step(heartbeat(secs(6))), Ok(()));
    assert_eq!(
        watchdog.action(),
        Action::TakeTaskDump { deadline: secs(8) }
    );
    assert_eq!(watchdog.step(dump(DumpOutcome::Succeeded)), Ok(()));
    assert_eq!(watchdog.action(), Action::ReadHeartbeat);
}

#[test]
fn a_task_dump_in_vain_leads_to_the_panic() {
    for outcome in [DumpOutcome::Unsuccessful, DumpOutcome::NotStarted] {
        let mut watchdog = watch(Watchdog::builder().triggered_metrics_collections(0))
            .with_task_dumps(true);
        assert_eq!(watchdog.step(heartbeat(secs(6))), Ok(()));
        assert_eq!(watchdog.step(dump(outcome)), Ok(()));
        assert_eq!(watchdog.action(), Action::ReadStopFlag);
        assert_eq!(watchdog.step(stop_flag(false)), Ok(()));
        assert_eq!(watchdog.action(), Action::Panic { elapsed: secs(6) });
    }
}

#[test]
fn a_task_dump_in_vain_is_all_that_happens_without_panic() {
    let mut watchdog = watch(
        Watchdog::builder()
            .triggered_metrics_collections(0)
            .panic(false),
    )
    .with_task_dumps(true);
    assert_eq!(watchdog.step(heartbeat(secs(6))), Ok(()));
    assert_eq!(watchdog.step(dump(DumpOutcome::Unsuccessful)), Ok(()));
    assert_eq!(watchdog.action(), Action::Sleep { duration: secs(1) });
}

#[test]
fn an_event_that_answers_nothing_is_handed_back() {
    let mut watchdog = watch(Watchdog::builder());
    assert_eq!(watchdog.step(Event::Slept), Err(Event::Slept));
    assert_eq!(watchdog.action(), Action::ReadHeartbeat);
}

#[test]
fn nothing_follows_the_end() {
    let mut watchdog = watch(Watchdog::builder().triggered_metrics_collections(0));
    assert_eq!(watchdog.step(heartbeat(secs(6))), Ok(()));
    assert_eq!(watchdog.step(stop_flag(false)), Ok(()));
    assert_eq!(watchdog.step(stop_flag(true)), Err(stop_flag(true)));
    assert_eq!(watchdog.action(), Action::Panic { elapsed: secs(6) });
}

#[test]
fn a_stopped_watchdog_ends_within_one_round() {
    let mut watchdog = watch(Watchdog::builder().triggered_metrics_collections(3))
        .with_task_dumps(true);
    let mut steps = 0;
    loop {
        let event = match watchdog.action() {
            Action::ReadHeartbeat => heartbeat(secs(6)),
            Action::CollectMetrics { .. } => Event::MetricsCollected,
            Action::Sleep { .. } => Event::Slept,
            Action::TakeTaskDump { .. } => dump(DumpOutcome::Unsuccessful),
            Action::ReadStopFlag => stop_flag(true),
            Action::Exit => break,
            Action::Panic { .. } => panic!("a stop was requested"),
        };
        assert_eq!(watchdog.step(event), Ok(()));
        steps += 1;
    }
    assert!(steps <= 2 * 3 + 4);
}

#[test]
fn beats_within_the_timeout_never_trigger() {
    let mut watchdog = watch(Watchdog::builder().watchdog_timeout(secs(2)));
    for elapsed in [0, 1, 2] {
        assert_eq!(watchdog.step(heartbeat(secs(elapsed))), Ok(()));
        assert_eq!(watchdog.action(), Action::Sleep { duration: secs(1) });
        assert_eq!(watchdog.step(Event::Slept), Ok(()));
        assert_eq!(watchdog.step(stop_flag(false)), Ok(()));
    }
    assert_eq!(watchdog.step(heartbeat(secs(3))), Ok(()));
    assert_eq!(watchdog.action(), Action::CollectMetrics { index: 0 });
}
