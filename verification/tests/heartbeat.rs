//! The heartbeat task's loop, step by step.

use std::time::Duration;
use tokio_util_watchdog::Heartbeat;
use tokio_util_watchdog::HeartbeatAction;
use tokio_util_watchdog::HeartbeatEvent;
use tokio_util_watchdog::Watchdog;

const PERIOD: Duration = Duration::from_millis(250);

#[test]
fn it_beats_sleeps_and_beats_again() {
    let mut heartbeat = Heartbeat::new(PERIOD);
    for _ in 0..3 {
        assert_eq!(heartbeat.action(), HeartbeatAction::Beat);
        assert_eq!(heartbeat.step(HeartbeatEvent::Beaten), Ok(()));
        assert_eq!(
            heartbeat.action(),
            HeartbeatAction::Sleep { duration: PERIOD }
        );
        assert_eq!(heartbeat.step(HeartbeatEvent::Slept), Ok(()));
        assert_eq!(heartbeat.action(), HeartbeatAction::ReadStopFlag);
        let flag = HeartbeatEvent::StopFlag { requested: false };
        assert_eq!(heartbeat.step(flag), Ok(()));
    }
}

#[test]
fn a_stop_request_ends_it() {
    let mut heartbeat = Heartbeat::new(PERIOD);
    let flag = HeartbeatEvent::StopFlag { requested: true };
    assert_eq!(heartbeat.step(HeartbeatEvent::Beaten), Ok(()));
    assert_eq!(heartbeat.step(HeartbeatEvent::Slept), Ok(()));
    assert_eq!(heartbeat.step(flag), Ok(()));
    assert_eq!(heartbeat.action(), HeartbeatAction::Exit);
    assert_eq!(heartbeat.step(flag), Err(flag));
}

#[test]
fn an_event_that_answers_nothing_changes_nothing() {
    let mut heartbeat = Heartbeat::new(PERIOD);
    assert_eq!(
        heartbeat.step(HeartbeatEvent::Slept),
        Err(HeartbeatEvent::Slept)
    );
    assert_eq!(heartbeat.action(), HeartbeatAction::Beat);
}

#[test]
fn a_watchdog_has_its_heartbeat_beat_every_period() {
    let rt = tokio::runtime::Builder::new_current_thread()
        .build()
        .unwrap();
    let watchdog = Watchdog::builder()
        .heartbeat_period(PERIOD)
        .build_for_runtime(rt.handle().clone());
    let mut heartbeat = watchdog.heartbeat();
    assert_eq!(heartbeat.action(), HeartbeatAction::Beat);
    assert_eq!(heartbeat.step(HeartbeatEvent::Beaten), Ok(()));
    assert_eq!(
        heartbeat.action(),
        HeartbeatAction::Sleep { duration: PERIOD }
    );
}
