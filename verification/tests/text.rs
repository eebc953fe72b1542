//! What the watchdog puts into words, and its arithmetic on durations.

use std::time::Duration;
use tokio_util_watchdog::span;
use tokio_util_watchdog::text;
use tokio_util_watchdog::Watchdog;

fn watchdog() -> Watchdog {
    let rt = tokio::runtime::Builder::new_current_thread()
        .build()
        .unwrap();
    Watchdog::builder()
        .thread_name("dog")
        .watchdog_timeout(Duration::from_millis(1500))
        .build_for_runtime(rt.handle().clone())
}

#[test]
fn threads_are_named_after_the_watchdog() {
    assert_eq!(watchdog().thread_label(), "dog-thread");
    assert_eq!(watchdog().task_dump_thread_label(), "dog-taskdump");
}

#[test]
fn the_panic_message_says_what_was_missed() {
    assert_eq!(
        watchdog().panic_message(Duration::from_secs(6), "server"),
        "dog panicked: 6s since last heartbeat > 1.5s, exe = server"
    );
    assert_eq!(
        text::panic_message("a", "b", "c", "d"),
        "a panicked: b since last heartbeat > c, exe = d"
    );
}

#[test]
fn an_unknown_program_is_a_question_mark() {
    assert_eq!(text::exe_label(None), "?");
    assert_eq!(text::exe_label(Some("server".to_string())), "server");
}

#[test]
fn durations_are_told_apart_by_the_nanosecond() {
    let second = Duration::from_secs(1);
    assert!(!span::exceeds(second, second));
    assert!(span::exceeds(Duration::new(1, 1), second));
    assert!(!span::exceeds(Duration::new(0, 999_999_999), second));
    assert!(span::exceeds(Duration::MAX, second));
}

#[test]
fn durations_are_split_evenly() {
    assert_eq!(
        span::split(Duration::from_secs(2), 20),
        Duration::from_millis(100)
    );
    assert_eq!(
        span::split(Duration::new(1, 5), 2),
        Duration::from_nanos(500_000_002)
    );
    assert_eq!(span::split(Duration::MAX, 1), Duration::MAX);
    assert_eq!(span::split(Duration::ZERO, u32::MAX), Duration::ZERO);
    for parts in [1, 3, 7, 1000, u32::MAX] {
        let d = Duration::new(123_456_789_012, 345_678_901);
        assert_eq!(span::split(d, parts), d / parts);
    }
}
