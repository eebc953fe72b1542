//! What the library asks of tokio: the current runtime, and the counters of a runtime.

use tokio::runtime::Handle;
use tokio::runtime::RuntimeMetrics;
use tokio::runtime::TryCurrentError;
use vstd::prelude::*;

verus! {

/// Declares tokio's `Handle`: a reference to a runtime, carried through unread.
#[verifier::external_type_specification]
#[verifier::external_body]
pub struct ExHandle(Handle);

/// Declares tokio's `RuntimeMetrics`: a reference to a runtime, from which its counters are read.
#[verifier::external_type_specification]
#[verifier::external_body]
pub struct ExRuntimeMetrics(RuntimeMetrics);

/// Declares tokio's `TryCurrentError`: why a thread has no current runtime.
#[verifier::external_type_specification]
#[verifier::external_body]
pub struct ExTryCurrentError(TryCurrentError);

/// The number of worker threads of the runtime behind a `RuntimeMetrics`. A runtime gets its
/// workers when it is built and keeps them, so the number belongs to the value.
pub uninterp spec fn worker_count(metrics: RuntimeMetrics) -> nat;

/// The metrics handle of the runtime behind a `Handle`.
pub uninterp spec fn metrics_of(handle: Handle) -> RuntimeMetrics;

/// Whether a `TryCurrentError` says that the thread is in no runtime's context.
pub uninterp spec fn missing_context(err: TryCurrentError) -> bool;

/// `RuntimeMetrics::num_workers`: the number of worker threads, which for a `current_thread`
/// runtime is one and otherwise what the runtime was built with.
pub assume_specification[ RuntimeMetrics::num_workers ](metrics: &RuntimeMetrics) -> (n: usize)
    ensures
        n == worker_count(*metrics),
;

/// `RuntimeMetrics::num_alive_tasks`: how many tasks are alive at the moment of the call.
/// Nothing is claimed of the number: it changes while the runtime runs.
pub assume_specification[ RuntimeMetrics::num_alive_tasks ](metrics: &RuntimeMetrics) -> (n: usize);

/// `RuntimeMetrics::global_queue_depth`: how many tasks wait in the global queue at the moment
/// of the call. Nothing is claimed of the number: it changes while the runtime runs.
pub assume_specification[ RuntimeMetrics::global_queue_depth ](metrics: &RuntimeMetrics) -> (n:
    usize);

/// `Handle::metrics`: the metrics handle of the same runtime.
pub assume_specification[ Handle::metrics ](handle: &Handle) -> (metrics: RuntimeMetrics)
    ensures
        metrics == metrics_of(*handle),
;

/// `Handle::try_current`: the runtime in whose context this thread is, or why there is none.
/// Nothing is claimed of the result: it depends on the thread.
pub assume_specification[ Handle::try_current ]() -> (current: Result<Handle, TryCurrentError>);

/// `TryCurrentError::is_missing_context`: whether the thread is in no runtime's context.
pub assume_specification[ TryCurrentError::is_missing_context ](err: &TryCurrentError) -> (missing:
    bool)
    ensures
        missing == missing_context(*err),
;

/// There is no current tokio runtime.
#[derive(Clone, Copy, Debug, PartialEq, Eq, Structural)]
pub enum NoCurrentRuntime {
    /// The thread is in the context of no runtime.
    MissingContext,
    /// The thread is ending, and no longer knows its runtime.
    ThreadLocalDestroyed,
}

impl NoCurrentRuntime {
    /// What a refusal by tokio says.
    pub open spec fn because(err: TryCurrentError) -> NoCurrentRuntime {
        if missing_context(err) {
            NoCurrentRuntime::MissingContext
        } else {
            NoCurrentRuntime::ThreadLocalDestroyed
        }
    }

    /// What a refusal by tokio says.
    pub fn new(err: &TryCurrentError) -> (reason: Self)
        ensures
            reason == Self::because(*err),
    {
        if err.is_missing_context() {
            NoCurrentRuntime::MissingContext
        } else {
            NoCurrentRuntime::ThreadLocalDestroyed
        }
    }
}

/// The reason tells the two kinds of refusal apart: it is a missing context where, and only where,
/// tokio says so.
pub proof fn the_reason_is_what_tokio_says(err: TryCurrentError)
    ensures
        NoCurrentRuntime::because(err) is MissingContext <==> missing_context(err),
        NoCurrentRuntime::because(err) is ThreadLocalDestroyed <==> !missing_context(err),
{
}

} // verus!
