//! Taking a watchdog down, step by step.

use std::time::Duration;
use tokio_util_watchdog::Disarm;
use tokio_util_watchdog::DisarmAction;
use tokio_util_watchdog::DisarmEvent;
use tokio_util_watchdog::Watchdog;

const PERIOD: Duration = Duration::from_millis(300);

fn disarm() -> Disarm {
    let rt = tokio::runtime::Builder::new_current_thread()
        .build()
        .unwrap();
    Watchdog::builder()
        .heartbeat_period(PERIOD)
        .build_for_runtime(rt.handle().clone())
        .disarm()
}

#[test]
fn the_thread_is_joined_and_then_the_heartbeat() {
    for end in [DisarmEvent::HeartbeatEnded, DisarmEvent::WaitedOut] {
        let mut disarm = disarm();
        assert_eq!(disarm.action(), DisarmAction::RequestStop);
        assert_eq!(disarm.step(DisarmEvent::StopRequested), Ok(()));
        assert_eq!(disarm.action(), DisarmAction::JoinThread);
        let joined = DisarmEvent::ThreadJoined { panicked: false };
        assert_eq!(disarm.step(joined), Ok(()));
        assert_eq!(
            disarm.action(),
            DisarmAction::JoinHeartbeat { limit: PERIOD }
        );
        assert_eq!(disarm.step(end), Ok(()));
        assert_eq!(disarm.action(), DisarmAction::Finish);
        assert_eq!(disarm.step(end), Err(end));
    }
}

#[test]
fn a_panicked_thread_is_a_failure() {
    let mut disarm = disarm();
    assert_eq!(disarm.step(DisarmEvent::StopRequested), Ok(()));
    let joined = DisarmEvent::ThreadJoined { panicked: true };
    assert_eq!(disarm.step(joined), Ok(()));
    assert_eq!(disarm.action(), DisarmAction::Fail);
}

#[test]
fn nothing_is_joined_before_the_stop_is_requested() {
    let mut disarm = disarm();
    let joined = DisarmEvent::ThreadJoined { panicked: false };
    assert_eq!(disarm.step(joined), Err(joined));
    assert_eq!(
        disarm.step(DisarmEvent::WaitedOut),
        Err(DisarmEvent::WaitedOut)
    );
    assert_eq!(disarm.action(), DisarmAction::RequestStop);
}
