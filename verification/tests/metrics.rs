//! Snapshots of a runtime's metrics.

use std::time::Duration;
use tokio::runtime::Handle;
use tokio_util_watchdog::CounterSample;
use tokio_util_watchdog::NoCurrentRuntime;
use tokio_util_watchdog::RuntimeCounters;
use tokio_util_watchdog::TokioRuntimeMetrics;
use tokio_util_watchdog::UnstableSample;
use tokio_util_watchdog::Watchdog;
use tokio_util_watchdog::WorkerSample;

fn assert_basic(metrics: &TokioRuntimeMetrics) {
    assert!(metrics.worker_park_count.is_empty());
    assert!(metrics.worker_noop_count.is_empty());
    assert!(metrics.worker_steal_count.is_empty());
    assert!(metrics.worker_steal_operations.is_empty());
    assert!(metrics.worker_poll_count.is_empty());
    assert!(metrics.worker_total_busy_duration.is_empty());
    assert!(metrics.worker_local_schedule_count.is_empty());
    assert!(metrics.worker_overflow_count.is_empty());
    assert!(metrics.worker_local_queue_depth.is_empty());
    assert!(metrics.worker_mean_poll_time.is_empty());
}

#[test]
fn the_workers_of_a_multi_thread_runtime_are_counted() {
    let rt = tokio::runtime::Builder::new_multi_thread()
        .worker_threads(3)
        .build()
        .unwrap();
    let metrics = TokioRuntimeMetrics::new(rt.handle().metrics());
    assert_eq!(metrics.num_workers, 3);
    assert_basic(&metrics);
}

#[test]
fn alive_tasks_and_queued_tasks_are_told_apart() {
    let rt = tokio::runtime::Builder::new_current_thread()
        .build()
        .unwrap();
    let idle = TokioRuntimeMetrics::from(rt.handle());
    assert_eq!(idle.num_workers, 1);
    assert_eq!(idle.num_alive_tasks, 0);
    assert_eq!(idle.global_queue_depth, 0);

    rt.spawn(std::future::pending::<()>());
    rt.spawn(std::future::pending::<()>());
    let spawned = TokioRuntimeMetrics::from(rt.handle());
    assert_eq!(spawned.num_alive_tasks, 2);
    assert_eq!(spawned.global_queue_depth, 2);

    // Each has been polled once, waits for nothing, and is in no queue any more.
    rt.block_on(async {
        for _ in 0..8 {
            tokio::task::yield_now().await;
        }
    });
    let pending = TokioRuntimeMetrics::from(rt.handle());
    assert_eq!(pending.num_alive_tasks, 2);
    assert_eq!(pending.global_queue_depth, 0);
    assert_basic(&pending);
}

#[test]
fn a_watchdog_collects_from_the_runtime_it_watches() {
    let rt = tokio::runtime::Builder::new_current_thread()
        .build()
        .unwrap();
    rt.spawn(std::future::pending::<()>());
    let watchdog = Watchdog::builder().build_for_runtime(rt.handle().clone());
    rt.block_on(async {
        for _ in 0..8 {
            tokio::task::yield_now().await;
        }
    });
    let metrics = watchdog.collect_metrics();
    assert_eq!(metrics.num_workers, 1);
    assert_eq!(metrics.num_alive_tasks, 1);
    assert_eq!(metrics.global_queue_depth, 0);
    assert_basic(&metrics);
}

#[test]
fn current_needs_a_runtime() {
    assert_eq!(
        TokioRuntimeMetrics::current().err(),
        Some(NoCurrentRuntime::MissingContext)
    );
    let rt = tokio::runtime::Builder::new_multi_thread()
        .worker_threads(2)
        .build()
        .unwrap();
    let _guard = rt.enter();
    assert_eq!(TokioRuntimeMetrics::current().unwrap().num_workers, 2);
    let metrics = TokioRuntimeMetrics::of_current(Handle::try_current());
    assert_eq!(metrics.unwrap().num_workers, 2);
}

fn worker(base: u64) -> WorkerSample {
    WorkerSample {
        park_count: base + 1,
        noop_count: base + 2,
        steal_count: base + 3,
        steal_operations: base + 4,
        poll_count: base + 5,
        total_busy_duration: Duration::from_nanos(base + 6),
        local_schedule_count: base + 7,
        overflow_count: base + 8,
        mean_poll_time: Duration::from_nanos(base + 9),
    }
}

#[test]
fn the_samples_of_the_workers_become_columns() {
    let unstable = TokioRuntimeMetrics::from_counts(2, 7, 8).with_unstable(UnstableSample {
        num_blocking_threads: 11,
        num_idle_blocking_threads: 12,
        blocking_queue_depth: 13,
        local_queue_depths: vec![14, 15],
        counters: Some(CounterSample {
            runtime: RuntimeCounters {
                spawned_tasks_count: 16,
                remote_schedule_count: 17,
                budget_forced_yield_count: 18,
            },
            workers: vec![worker(100), worker(200)],
        }),
    });
    assert_eq!(unstable.num_blocking_threads, 11);
    assert_eq!(unstable.num_idle_blocking_threads, 12);
    assert_eq!(unstable.blocking_queue_depth, 13);
    let counters = unstable.counters.unwrap();
    assert_eq!(counters.spawned_tasks_count, 16);
    assert_eq!(counters.remote_schedule_count, 17);
    assert_eq!(counters.budget_forced_yield_count, 18);

    let metrics = unstable.metrics;
    assert_eq!(metrics.num_workers, 2);
    assert_eq!(metrics.num_alive_tasks, 7);
    assert_eq!(metrics.global_queue_depth, 8);
    assert_eq!(metrics.worker_local_queue_depth, vec![14, 15]);
    assert_eq!(metrics.worker_park_count, vec![101, 201]);
    assert_eq!(metrics.worker_noop_count, vec![102, 202]);
    assert_eq!(metrics.worker_steal_count, vec![103, 203]);
    assert_eq!(metrics.worker_steal_operations, vec![104, 204]);
    assert_eq!(metrics.worker_poll_count, vec![105, 205]);
    assert_eq!(
        metrics.worker_total_busy_duration,
        vec![Duration::from_nanos(106), Duration::from_nanos(206)]
    );
    assert_eq!(metrics.worker_local_schedule_count, vec![107, 207]);
    assert_eq!(metrics.worker_overflow_count, vec![108, 208]);
    assert_eq!(
        metrics.worker_mean_poll_time,
        vec![Duration::from_nanos(109), Duration::from_nanos(209)]
    );
    assert_eq!(format!("{:?}", metrics.clone()), format!("{:?}", metrics));
}

#[test]
fn without_counters_only_the_queue_depths_have_entries() {
    let unstable = TokioRuntimeMetrics::from_counts(1, 0, 0).with_unstable(UnstableSample {
        num_blocking_threads: 1,
        num_idle_blocking_threads: 2,
        blocking_queue_depth: 3,
        local_queue_depths: vec![4],
        counters: None,
    });
    assert_eq!(unstable.num_blocking_threads, 1);
    assert_eq!(unstable.counters, None);
    assert_eq!(unstable.metrics.worker_local_queue_depth, vec![4]);
    assert!(unstable.metrics.worker_park_count.is_empty());
    assert!(unstable.metrics.worker_mean_poll_time.is_empty());
}

#[test]
fn the_debug_form_shows_the_numbers_and_the_columns() {
    let rt = tokio::runtime::Builder::new_current_thread()
        .build()
        .unwrap();
    assert_eq!(
        format!("{:?}", TokioRuntimeMetrics::from(rt.handle())),
        "TokioRuntimeMetrics { num_workers: 1, num_alive_tasks: 0, global_queue_depth: 0, \
         worker_park_count: [], worker_noop_count: [], worker_steal_count: [], \
         worker_steal_operations: [], worker_poll_count: [], worker_total_busy_duration: [], \
         worker_local_schedule_count: [], worker_overflow_count: [], \
         worker_local_queue_depth: [], worker_mean_poll_time: [] }"
    );
}
