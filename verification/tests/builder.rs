//! Configuring and building a watchdog.

use std::time::Duration;
use tokio::runtime::Handle;
use tokio::runtime::Runtime;
use tokio_util_watchdog::Action;
use tokio_util_watchdog::Builder;
use tokio_util_watchdog::NoCurrentRuntime;
use tokio_util_watchdog::Watchdog;

fn runtime() -> Runtime {
    tokio::runtime::Builder::new_current_thread()
        .build()
        .unwrap()
}

fn three_workers() -> Runtime {
    tokio::runtime::Builder::new_multi_thread()
        .worker_threads(3)
        .build()
        .unwrap()
}

#[test]
fn defaults_are_as_documented() {
    let rt = runtime();
    let watchdog = Watchdog::builder().build_for_runtime(rt.handle().clone());
    let config = watchdog.config();
    assert_eq!(config.heartbeat_period, Duration::from_secs(1));
    assert_eq!(config.watchdog_timeout, Duration::from_secs(5));
    assert_eq!(config.triggered_metrics_duration, Duration::from_secs(2));
    assert_eq!(config.triggered_metrics_collections, 20);
    assert_eq!(config.task_dump_deadline, Duration::from_secs(5));
    assert!(config.panic);
    assert_eq!(config.thread_name, "tokio-watchdog");
}

#[test]
fn each_setter_sets_its_own_setting() {
    let rt = runtime();
    let watchdog = Builder::default()
        .heartbeat_period(Duration::from_millis(1))
        .watchdog_timeout(Duration::from_millis(2))
        .triggered_metrics_duration(Duration::from_millis(3))
        .triggered_metrics_collections(4)
        .task_dump_deadline(Duration::from_millis(5))
        .panic(false)
        .thread_name("six")
        .build_for_runtime(rt.handle().clone());
    let config = watchdog.config();
    assert_eq!(config.heartbeat_period, Duration::from_millis(1));
    assert_eq!(config.watchdog_timeout, Duration::from_millis(2));
    assert_eq!(config.triggered_metrics_duration, Duration::from_millis(3));
    assert_eq!(config.triggered_metrics_collections, 4);
    assert_eq!(config.task_dump_deadline, Duration::from_millis(5));
    assert!(!config.panic);
    assert_eq!(config.thread_name, "six");
}

#[test]
fn one_setter_leaves_the_rest_alone() {
    let text = format!("{:?}", Builder::default().thread_name("x"));
    let defaults = format!("{:?}", Builder::default());
    assert_eq!(text, defaults.replace("tokio-watchdog", "x"));
}

#[test]
fn the_later_value_counts_and_the_order_of_settings_does_not() {
    let one = Builder::default()
        .panic(false)
        .heartbeat_period(Duration::from_secs(9))
        .heartbeat_period(Duration::from_secs(3));
    let other = Builder::default()
        .heartbeat_period(Duration::from_secs(3))
        .panic(false);
    assert_eq!(format!("{:?}", one), format!("{:?}", other));
}

#[test]
fn a_clone_has_the_same_settings() {
    let builder = Builder::default()
        .watchdog_timeout(Duration::new(7, 5))
        .thread_name("n");
    assert_eq!(format!("{:?}", builder.clone()), format!("{:?}", builder));
}

#[test]
fn build_takes_the_current_runtime() {
    let rt = three_workers();
    let guard = rt.enter();
    let watchdog = Watchdog::builder().thread_name("t").build();
    drop(guard);
    match watchdog {
        Ok(watchdog) => {
            assert_eq!(watchdog.config().thread_name, "t");
            assert_eq!(watchdog.collect_metrics().num_workers, 3);
            assert_eq!(watchdog.handle().metrics().num_workers(), 3);
            assert_eq!(watchdog.action(), Action::ReadHeartbeat);
        }
        Err(_) => panic!("there is a current runtime"),
    }
}

#[test]
fn build_outside_of_a_runtime_is_refused() {
    assert_eq!(
        Watchdog::builder().build().err(),
        Some(NoCurrentRuntime::MissingContext)
    );
}

#[test]
fn build_passes_on_what_tokio_says_is_current() {
    let refused = Watchdog::builder().build_for_current(Handle::try_current());
    assert_eq!(refused.err(), Some(NoCurrentRuntime::MissingContext));

    let rt = three_workers();
    let _guard = rt.enter();
    let built = Watchdog::builder().build_for_current(Handle::try_current());
    assert_eq!(built.ok().unwrap().collect_metrics().num_workers, 3);
}
