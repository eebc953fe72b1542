//! A snapshot of a runtime's metrics.

use crate::runtime::metrics_of;
use crate::runtime::missing_context;
use crate::runtime::worker_count;
use crate::runtime::NoCurrentRuntime;
use std::time::Duration;
use tokio::runtime::Handle;
use tokio::runtime::RuntimeMetrics;
use tokio::runtime::TryCurrentError;
use vstd::prelude::*;

verus! {

/// The counters of one worker thread, which tokio offers under `tokio_unstable` on targets
/// with 64 bit atomics.
#[derive(Debug)]
pub struct WorkerSample {
    /// How many times the worker has parked.
    pub park_count: u64,
    /// How many times the worker has woken up and immediately parked again.
    pub noop_count: u64,
    /// How many tasks the worker has stolen from another worker thread.
    pub steal_count: u64,
    /// How many steal operations the worker has performed which stole at least one task.
    pub steal_operations: u64,
    /// How many times the worker has polled a task.
    pub poll_count: u64,
    /// The total amount of time the worker has been busy.
    pub total_busy_duration: Duration,
    /// How many times the worker has scheduled a task onto its own queue.
    pub local_schedule_count: u64,
    /// How many times the worker's local queue has become full.
    pub overflow_count: u64,
    /// The mean duration of the worker's task poll times.
    pub mean_poll_time: Duration,
}

/// The counters of a whole runtime, which tokio offers under `tokio_unstable` on targets with 64 bit
/// atomics.
#[derive(Clone, Copy, Debug, PartialEq, Eq, Structural)]
pub struct RuntimeCounters {
    /// Total number of tasks spawned on this runtime
    pub spawned_tasks_count: u64,
    /// Number of times that a thread outside the runtime has scheduled a task
    pub remote_schedule_count: u64,
    /// Number of times that tasks have been forced to yield back to the scheduler after
    /// exhausting their task budgets.
    pub budget_forced_yield_count: u64,
}

/// What tokio offers under `tokio_unstable` on targets with 64 bit atomics.
#[derive(Debug)]
pub struct CounterSample {
    /// The counters of the runtime.
    pub runtime: RuntimeCounters,
    /// The counters of each worker, by index.
    pub workers: Vec<WorkerSample>,
}

/// What tokio offers under `tokio_unstable` on every target.
#[derive(Debug)]
pub struct UnstableSample {
    /// Number of blocking threads.
    pub num_blocking_threads: usize,
    /// Number of idle blocking threads.
    pub num_idle_blocking_threads: usize,
    /// The number of tasks currently in the blocking tasks queue.
    pub blocking_queue_depth: usize,
    /// The number of tasks currently in each worker's local queue, by the worker's index.
    pub local_queue_depths: Vec<usize>,
    /// What tokio offers besides where the target has 64 bit atomics.
    pub counters: Option<CounterSample>,
}

impl UnstableSample {
    /// Whether there is an entry for each of `n` workers wherever there is one for any.
    pub open spec fn covers(self, n: usize) -> bool {
        &&& self.local_queue_depths@.len() == n
        &&& self.counters matches Some(counters) ==> counters.workers@.len() == n
    }
}

/// Data collected from tokio::runtime::RuntimeMetrics
///
/// <https://docs.rs/tokio/latest/tokio/runtime/struct.RuntimeMetrics.html>
///
/// The numbers that every build of tokio offers are always there. The columns with an entry for
/// each worker are empty, unless an unstable build of tokio filled them: see
/// [`TokioRuntimeMetrics::with_unstable`].
#[derive(Debug)]
pub struct TokioRuntimeMetrics {
    /// Number of worker threads
    pub num_workers: usize,
    /// Number of active tasks
    pub num_alive_tasks: usize,
    /// Global queue depth
    pub global_queue_depth: usize,
    /// How many times each worker has parked
    pub worker_park_count: Vec<u64>,
    /// How many times each worker has woken up and immediately parked again
    pub worker_noop_count: Vec<u64>,
    /// How many tasks each worker has stolen from another worker thread
    pub worker_steal_count: Vec<u64>,
    /// How many steal operations each worker has performed which stole at least one task
    pub worker_steal_operations: Vec<u64>,
    /// How many times each worker has polled a task
    pub worker_poll_count: Vec<u64>,
    /// The total amount of time each worker has been busy
    pub worker_total_busy_duration: Vec<Duration>,
    /// How many times a worker has scheduled a task (from within the runtime) onto its own queue
    pub worker_local_schedule_count: Vec<u64>,
    /// How many times a worker's local queue has become full. When this happens it sends tasks to
    /// the injection queue
    pub worker_overflow_count: Vec<u64>,
    /// The number of tasks currently in each worker's local queue
    pub worker_local_queue_depth: Vec<usize>,
    /// The mean duration of task poll times for each worker. This is an exponentially weighted
    /// moving average for each worker.
    pub worker_mean_poll_time: Vec<Duration>,
}

/// A snapshot from a build of tokio with `tokio_unstable`, which offers more.
#[derive(Debug)]
pub struct UnstableRuntimeMetrics {
    /// What every build offers, with the columns filled.
    pub metrics: TokioRuntimeMetrics,
    /// Number of blocking threads
    pub num_blocking_threads: usize,
    /// Number of idle blocking threads
    pub num_idle_blocking_threads: usize,
    /// The number of tasks currently in the blocking tasks queue, created via spawn_blocking.
    pub blocking_queue_depth: usize,
    /// The counters of the runtime, where the target has 64 bit atomics.
    pub counters: Option<RuntimeCounters>,
}

/// The samples of the workers, of which there are none without the counters.
pub open spec fn worker_samples(counters: Option<CounterSample>) -> Seq<WorkerSample> {
    match counters {
        Some(counters) => counters.workers@,
        None => Seq::empty(),
    }
}

impl Clone for TokioRuntimeMetrics {
    fn clone(&self) -> (copy: Self)
        ensures
            copy.agrees_with(*self),
    {
        TokioRuntimeMetrics {
            num_workers: self.num_workers,
            num_alive_tasks: self.num_alive_tasks,
            global_queue_depth: self.global_queue_depth,
            worker_park_count: self.worker_park_count.clone(),
            worker_noop_count: self.worker_noop_count.clone(),
            worker_steal_count: self.worker_steal_count.clone(),
            worker_steal_operations: self.worker_steal_operations.clone(),
            worker_poll_count: self.worker_poll_count.clone(),
            worker_total_busy_duration: self.worker_total_busy_duration.clone(),
            worker_local_schedule_count: self.worker_local_schedule_count.clone(),
            worker_overflow_count: self.worker_overflow_count.clone(),
            worker_local_queue_depth: self.worker_local_queue_depth.clone(),
            worker_mean_poll_time: self.worker_mean_poll_time.clone(),
        }
    }
}

impl TokioRuntimeMetrics {
    /// Whether two snapshots hold the same.
    pub open spec fn agrees_with(self, other: Self) -> bool {
        &&& self.num_workers == other.num_workers
        &&& self.num_alive_tasks == other.num_alive_tasks
        &&& self.global_queue_depth == other.global_queue_depth
        &&& self.worker_park_count@ =~= other.worker_park_count@
        &&& self.worker_noop_count@ =~= other.worker_noop_count@
        &&& self.worker_steal_count@ =~= other.worker_steal_count@
        &&& self.worker_steal_operations@ =~= other.worker_steal_operations@
        &&& self.worker_poll_count@ =~= other.worker_poll_count@
        &&& self.worker_total_busy_duration@ =~= other.worker_total_busy_duration@
        &&& self.worker_local_schedule_count@ =~= other.worker_local_schedule_count@
        &&& self.worker_overflow_count@ =~= other.worker_overflow_count@
        &&& self.worker_local_queue_depth@ =~= other.worker_local_queue_depth@
        &&& self.worker_mean_poll_time@ =~= other.worker_mean_poll_time@
    }

    /// Whether each column with an entry for each worker holds just that of `samples`.
    pub open spec fn tabulates(self, samples: Seq<WorkerSample>) -> bool {
        &&& self.worker_park_count@ =~= samples.map_values(|w: WorkerSample| w.park_count)
        &&& self.worker_noop_count@ =~= samples.map_values(|w: WorkerSample| w.noop_count)
        &&& self.worker_steal_count@ =~= samples.map_values(|w: WorkerSample| w.steal_count)
        &&& self.worker_steal_operations@ =~= samples.map_values(
            |w: WorkerSample| w.steal_operations,
        )
        &&& self.worker_poll_count@ =~= samples.map_values(|w: WorkerSample| w.poll_count)
        &&& self.worker_total_busy_duration@ =~= samples.map_values(
            |w: WorkerSample| w.total_busy_duration,
        )
        &&& self.worker_local_schedule_count@ =~= samples.map_values(
            |w: WorkerSample| w.local_schedule_count,
        )
        &&& self.worker_overflow_count@ =~= samples.map_values(|w: WorkerSample| w.overflow_count)
        &&& self.worker_mean_poll_time@ =~= samples.map_values(|w: WorkerSample| w.mean_poll_time)
    }

    /// Whether this snapshot holds only what tokio offers in every build: no column has entries.
    pub open spec fn is_basic(self) -> bool {
        &&& self.worker_local_queue_depth@ == Seq::<usize>::empty()
        &&& self.tabulates(Seq::empty())
    }

    /// Whether every column has either no entries or one for each worker, and the counters of the
    /// workers have entries only where the depths of their queues have.
    pub open spec fn well_formed(self) -> bool {
        let n = self.num_workers;
        &&& self.worker_park_count@.len() == 0 || self.worker_park_count@.len() == n
        &&& self.worker_noop_count@.len() == self.worker_park_count@.len()
        &&& self.worker_steal_count@.len() == self.worker_park_count@.len()
        &&& self.worker_steal_operations@.len() == self.worker_park_count@.len()
        &&& self.worker_poll_count@.len() == self.worker_park_count@.len()
        &&& self.worker_total_busy_duration@.len() == self.worker_park_count@.len()
        &&& self.worker_local_schedule_count@.len() == self.worker_park_count@.len()
        &&& self.worker_overflow_count@.len() == self.worker_park_count@.len()
        &&& self.worker_mean_poll_time@.len() == self.worker_park_count@.len()
        &&& self.worker_local_queue_depth@.len() == 0 || self.worker_local_queue_depth@.len() == n
        &&& self.worker_park_count@.len() <= self.worker_local_queue_depth@.len()
    }

    /// Whether the numbers of this snapshot that change while a runtime runs are each what tokio
    /// reported of it: a result of the method of that name on `src`.
    pub open spec fn read_from(self, src: RuntimeMetrics) -> bool {
        &&& call_ensures(RuntimeMetrics::num_alive_tasks, (&src,), self.num_alive_tasks)
        &&& call_ensures(RuntimeMetrics::global_queue_depth, (&src,), self.global_queue_depth)
    }

    /// Whether this is a snapshot of what tokio offers in every build of the runtime behind `src`.
    pub open spec fn is_snapshot_of(self, src: RuntimeMetrics) -> bool {
        &&& self.num_workers == worker_count(src)
        &&& self.read_from(src)
        &&& self.is_basic()
        &&& self.well_formed()
    }

    /// Whether `metrics` is what is to be had where tokio says that `current` is the current
    /// runtime: a snapshot of it, or why there is none.
    pub open spec fn follows(
        metrics: Result<Self, NoCurrentRuntime>,
        current: Result<Handle, TryCurrentError>,
    ) -> bool {
        match current {
            Ok(handle) => metrics matches Ok(metrics) && metrics.is_snapshot_of(metrics_of(handle)),
            Err(err) => metrics == Err::<Self, NoCurrentRuntime>(NoCurrentRuntime::because(err)),
        }
    }

    /// A snapshot of what tokio offers in every build.
    pub fn from_counts(
        num_workers: usize,
        num_alive_tasks: usize,
        global_queue_depth: usize,
    ) -> (metrics: Self)
        ensures
            metrics.num_workers == num_workers,
            metrics.num_alive_tasks == num_alive_tasks,
            metrics.global_queue_depth == global_queue_depth,
            metrics.is_basic(),
    {
        let metrics = TokioRuntimeMetrics {
            num_workers,
            num_alive_tasks,
            global_queue_depth,
            worker_park_count: Vec::new(),
            worker_noop_count: Vec::new(),
            worker_steal_count: Vec::new(),
            worker_steal_operations: Vec::new(),
            worker_poll_count: Vec::new(),
            worker_total_busy_duration: Vec::new(),
            worker_local_schedule_count: Vec::new(),
            worker_overflow_count: Vec::new(),
            worker_local_queue_depth: Vec::new(),
            worker_mean_poll_time: Vec::new(),
        };
        assert(metrics.tabulates(Seq::empty()));
        metrics
    }

    /// This snapshot with what tokio offers under `tokio_unstable` in addition.
    pub fn with_unstable(self, sample: UnstableSample) -> (unstable: UnstableRuntimeMetrics)
        ensures
            unstable.metrics.num_workers == self.num_workers,
            unstable.metrics.num_alive_tasks == self.num_alive_tasks,
            unstable.metrics.global_queue_depth == self.global_queue_depth,
            unstable.metrics.worker_local_queue_depth == sample.local_queue_depths,
            unstable.metrics.tabulates(worker_samples(sample.counters)),
            unstable.num_blocking_threads == sample.num_blocking_threads,
            unstable.num_idle_blocking_threads == sample.num_idle_blocking_threads,
            unstable.blocking_queue_depth == sample.blocking_queue_depth,
            unstable.counters == match sample.counters {
                Some(counters) => Some(counters.runtime),
                None => None,
            },
            sample.covers(self.num_workers) ==> unstable.metrics.well_formed(),
    {
        let mut metrics = Self::from_counts(
            self.num_workers,
            self.num_alive_tasks,
            self.global_queue_depth,
        );
        metrics.worker_local_queue_depth = sample.local_queue_depths;
        let mut counted: Option<RuntimeCounters> = None;
        if let Some(counters) = sample.counters {
            counted = Some(counters.runtime);
            let ghost before = metrics;
            let mut i: usize = 0;
            assert(counters.workers@.take(0) =~= Seq::empty());
            while i < counters.workers.len()
                invariant
                    i <= counters.workers.len(),
                    metrics.num_workers == before.num_workers,
                    metrics.num_alive_tasks == before.num_alive_tasks,
                    metrics.global_queue_depth == before.global_queue_depth,
                    metrics.worker_local_queue_depth == before.worker_local_queue_depth,
                    metrics.tabulates(counters.workers@.take(i as int)),
                decreases counters.workers.len() - i,
            {
                let worker = &counters.workers[i];
                metrics.worker_park_count.push(worker.park_count);
                metrics.worker_noop_count.push(worker.noop_count);
                metrics.worker_steal_count.push(worker.steal_count);
                metrics.worker_steal_operations.push(worker.steal_operations);
                metrics.worker_poll_count.push(worker.poll_count);
                metrics.worker_total_busy_duration.push(worker.total_busy_duration);
                metrics.worker_local_schedule_count.push(worker.local_schedule_count);
                metrics.worker_overflow_count.push(worker.overflow_count);
                metrics.worker_mean_poll_time.push(worker.mean_poll_time);
                assert(counters.workers@.take(i + 1) =~= counters.workers@.take(i as int).push(
                    *worker,
                ));
                i += 1;
                assert(metrics.tabulates(counters.workers@.take(i as int)));
            }
            assert(counters.workers@.take(i as int) =~= counters.workers@);
        }
        UnstableRuntimeMetrics {
            metrics,
            num_blocking_threads: sample.num_blocking_threads,
            num_idle_blocking_threads: sample.num_idle_blocking_threads,
            blocking_queue_depth: sample.blocking_queue_depth,
            counters: counted,
        }
    }

    /// Construct self from a tokio RuntimeMetrics object
    ///
    /// The snapshot holds what tokio offers in every build. What it offers under `tokio_unstable`
    /// besides is for [`TokioRuntimeMetrics::with_unstable`] to add. The numbers of alive tasks
    /// and of queued tasks are those at some moment of the call.
    pub fn new(src: RuntimeMetrics) -> (metrics: Self)
        ensures
            metrics.num_workers == worker_count(src),
            metrics.read_from(src),
            metrics.is_basic(),
            metrics.well_formed(),
    {
        Self::from_counts(src.num_workers(), src.num_alive_tasks(), src.global_queue_depth())
    }

    /// Construct self using metrics from the current tokio runtime, if there is one.
    ///
    /// The snapshot holds what tokio offers in every build, and
    /// [`TokioRuntimeMetrics::with_unstable`] adds the rest.
    pub fn current() -> (metrics: Result<Self, NoCurrentRuntime>)
        ensures
            exists|current: Result<Handle, TryCurrentError>| #[trigger]
                call_ensures(Handle::try_current, (), current) && Self::follows(metrics, current),
    {
        Self::of_current(Handle::try_current())
    }

    /// Construct self using metrics from what tokio says is the current runtime.
    ///
    /// The snapshot holds what tokio offers in every build, and
    /// [`TokioRuntimeMetrics::with_unstable`] adds the rest.
    pub fn of_current(current: Result<Handle, TryCurrentError>) -> (metrics: Result<
        Self,
        NoCurrentRuntime,
    >)
        ensures
            Self::follows(metrics, current),
    {
        match current {
            Ok(handle) => Ok(Self::from(&handle)),
            Err(err) => Err(NoCurrentRuntime::new(&err)),
        }
    }
}

/// What a runtime is doing changes from one conversion to the next, so no function of the handle
/// says what comes of it.
impl vstd::std_specs::convert::FromSpecImpl<&Handle> for TokioRuntimeMetrics {
    open spec fn obeys_from_spec() -> bool {
        false
    }

    open spec fn from_spec(src: &Handle) -> Self {
        arbitrary()
    }
}

/// The snapshot holds what tokio offers in every build, and
/// [`TokioRuntimeMetrics::with_unstable`] adds the rest.
impl From<&Handle> for TokioRuntimeMetrics {
    fn from(src: &Handle) -> (metrics: Self)
        ensures
            metrics.num_workers == worker_count(metrics_of(*src)),
            metrics.read_from(metrics_of(*src)),
            metrics.is_basic(),
            metrics.well_formed(),
    {
        Self::new(src.metrics())
    }
}

/// A table of samples has one row for each sample: each column is as long as there are samples, and
/// the entry at an index is that counter of the sample at that index.
pub proof fn a_table_has_a_row_for_each_sample(
    metrics: TokioRuntimeMetrics,
    samples: Seq<WorkerSample>,
)
    requires
        metrics.tabulates(samples),
    ensures
        metrics.worker_park_count@.len() == samples.len(),
        metrics.worker_noop_count@.len() == samples.len(),
        metrics.worker_steal_count@.len() == samples.len(),
        metrics.worker_steal_operations@.len() == samples.len(),
        metrics.worker_poll_count@.len() == samples.len(),
        metrics.worker_total_busy_duration@.len() == samples.len(),
        metrics.worker_local_schedule_count@.len() == samples.len(),
        metrics.worker_overflow_count@.len() == samples.len(),
        metrics.worker_mean_poll_time@.len() == samples.len(),
        forall|i: int|
            #![trigger samples[i]]
            0 <= i < samples.len() ==> {
                &&& metrics.worker_park_count@[i] == samples[i].park_count
                &&& metrics.worker_noop_count@[i] == samples[i].noop_count
                &&& metrics.worker_steal_count@[i] == samples[i].steal_count
                &&& metrics.worker_steal_operations@[i] == samples[i].steal_operations
                &&& metrics.worker_poll_count@[i] == samples[i].poll_count
                &&& metrics.worker_total_busy_duration@[i] == samples[i].total_busy_duration
                &&& metrics.worker_local_schedule_count@[i] == samples[i].local_schedule_count
                &&& metrics.worker_overflow_count@[i] == samples[i].overflow_count
                &&& metrics.worker_mean_poll_time@[i] == samples[i].mean_poll_time
            },
{
    assert forall|i: int| #![trigger samples[i]] 0 <= i < samples.len() implies {
        &&& metrics.worker_park_count@[i] == samples[i].park_count
        &&& metrics.worker_noop_count@[i] == samples[i].noop_count
        &&& metrics.worker_steal_count@[i] == samples[i].steal_count
        &&& metrics.worker_steal_operations@[i] == samples[i].steal_operations
        &&& metrics.worker_poll_count@[i] == samples[i].poll_count
        &&& metrics.worker_total_busy_duration@[i] == samples[i].total_busy_duration
        &&& metrics.worker_local_schedule_count@[i] == samples[i].local_schedule_count
        &&& metrics.worker_overflow_count@[i] == samples[i].overflow_count
        &&& metrics.worker_mean_poll_time@[i] == samples[i].mean_poll_time
    } by {
        assert(metrics.worker_park_count@[i] == samples.map_values(|w: WorkerSample| w.park_count)[i]);
        assert(metrics.worker_noop_count@[i] == samples.map_values(|w: WorkerSample| w.noop_count)[i]);
        assert(metrics.worker_steal_count@[i] == samples.map_values(|w: WorkerSample| w.steal_count)[i]);
        assert(metrics.worker_steal_operations@[i] == samples.map_values(|w: WorkerSample| w.steal_operations)[i]);
        assert(metrics.worker_poll_count@[i] == samples.map_values(|w: WorkerSample| w.poll_count)[i]);
        assert(metrics.worker_total_busy_duration@[i] == samples.map_values(|w: WorkerSample| w.total_busy_duration)[i]);
        assert(metrics.worker_local_schedule_count@[i] == samples.map_values(|w: WorkerSample| w.local_schedule_count)[i]);
        assert(metrics.worker_overflow_count@[i] == samples.map_values(|w: WorkerSample| w.overflow_count)[i]);
        assert(metrics.worker_mean_poll_time@[i] == samples.map_values(|w: WorkerSample| w.mean_poll_time)[i]);
    }
}

/// The samples of the workers are those that were taken, and none where none were.
pub proof fn the_samples_are_those_taken(counters: CounterSample)
    ensures
        worker_samples(Some(counters)) == counters.workers@,
        worker_samples(None).len() == 0,
{
}

/// A sample with as many entries as there are workers covers them, with the counters of the workers
/// or without any.
pub proof fn complete_samples_cover_the_workers(sample: UnstableSample, n: usize)
    requires
        sample.local_queue_depths@.len() == n,
        sample.counters is Some ==> sample.counters->Some_0.workers@.len() == n,
    ensures
        sample.covers(n),
{
}

/// A snapshot with only what tokio offers in every build has no entry in any column.
pub proof fn a_basic_snapshot_has_empty_columns(metrics: TokioRuntimeMetrics)
    requires
        metrics.is_basic(),
    ensures
        metrics.worker_park_count@.len() == 0,
        metrics.worker_noop_count@.len() == 0,
        metrics.worker_steal_count@.len() == 0,
        metrics.worker_steal_operations@.len() == 0,
        metrics.worker_poll_count@.len() == 0,
        metrics.worker_total_busy_duration@.len() == 0,
        metrics.worker_local_schedule_count@.len() == 0,
        metrics.worker_overflow_count@.len() == 0,
        metrics.worker_mean_poll_time@.len() == 0,
        metrics.worker_local_queue_depth@.len() == 0,
{
}

/// Each column of a well-formed snapshot is empty or as long as there are workers, all counters of
/// the workers are there or none, and they are there only beside the depths of the queues.
pub proof fn columns_are_empty_or_complete(metrics: TokioRuntimeMetrics)
    requires
        metrics.well_formed(),
    ensures
        metrics.worker_park_count@.len() == 0 || metrics.worker_park_count@.len()
            == metrics.num_workers,
        metrics.worker_local_queue_depth@.len() == 0 || metrics.worker_local_queue_depth@.len()
            == metrics.num_workers,
        metrics.worker_park_count@.len() > 0 ==> metrics.worker_local_queue_depth@.len() > 0,
        metrics.worker_noop_count@.len() == metrics.worker_park_count@.len(),
        metrics.worker_steal_count@.len() == metrics.worker_park_count@.len(),
        metrics.worker_steal_operations@.len() == metrics.worker_park_count@.len(),
        metrics.worker_poll_count@.len() == metrics.worker_park_count@.len(),
        metrics.worker_total_busy_duration@.len() == metrics.worker_park_count@.len(),
        metrics.worker_local_schedule_count@.len() == metrics.worker_park_count@.len(),
        metrics.worker_overflow_count@.len() == metrics.worker_park_count@.len(),
        metrics.worker_mean_poll_time@.len() == metrics.worker_park_count@.len(),
{
}

/// Snapshots that agree hold the same numbers and the same entries.
pub proof fn agreeing_snapshots_hold_the_same(a: TokioRuntimeMetrics, b: TokioRuntimeMetrics)
    requires
        a.agrees_with(b),
    ensures
        a.num_workers == b.num_workers,
        a.num_alive_tasks == b.num_alive_tasks,
        a.global_queue_depth == b.global_queue_depth,
        a.worker_park_count@ == b.worker_park_count@,
        a.worker_noop_count@ == b.worker_noop_count@,
        a.worker_steal_count@ == b.worker_steal_count@,
        a.worker_steal_operations@ == b.worker_steal_operations@,
        a.worker_poll_count@ == b.worker_poll_count@,
        a.worker_total_busy_duration@ == b.worker_total_busy_duration@,
        a.worker_local_schedule_count@ == b.worker_local_schedule_count@,
        a.worker_overflow_count@ == b.worker_overflow_count@,
        a.worker_mean_poll_time@ == b.worker_mean_poll_time@,
        a.worker_local_queue_depth@ == b.worker_local_queue_depth@,
{
}

/// The numbers that change while a runtime runs are each a result of the method of that name, asked
/// of that runtime.
pub proof fn changing_numbers_are_what_tokio_reported(
    metrics: TokioRuntimeMetrics,
    src: RuntimeMetrics,
)
    requires
        metrics.read_from(src),
    ensures
        call_ensures(RuntimeMetrics::num_alive_tasks, (&src,), metrics.num_alive_tasks),
        call_ensures(RuntimeMetrics::global_queue_depth, (&src,), metrics.global_queue_depth),
{
}

/// Metrics of the current runtime are to be had where, and only where, tokio says that there is one.
/// They are then those of that runtime. Otherwise the error says whether the thread is in no
/// runtime's context.
pub proof fn current_metrics_follow_what_tokio_says(
    metrics: Result<TokioRuntimeMetrics, NoCurrentRuntime>,
    current: Result<Handle, TryCurrentError>,
)
    requires
        TokioRuntimeMetrics::follows(metrics, current),
    ensures
        metrics is Ok <==> current is Ok,
        metrics matches Ok(read) ==> {
            let src = metrics_of(current->Ok_0);
            &&& read.num_workers == worker_count(src)
            &&& call_ensures(RuntimeMetrics::num_alive_tasks, (&src,), read.num_alive_tasks)
            &&& call_ensures(RuntimeMetrics::global_queue_depth, (&src,), read.global_queue_depth)
            &&& read.worker_park_count@.len() == 0
            &&& read.worker_local_queue_depth@.len() == 0
        },
        metrics matches Err(reason) ==> (reason is MissingContext <==> missing_context(
            current->Err_0,
        )),
{
}

} // verus!
