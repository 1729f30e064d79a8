//! Worker execution context: the single slot that records which worker
//! identity is currently executing a unit of work.
//!
//! The slot is passed explicitly into the operations that read it, and a
//! scoped acquisition guarantees that the slot is cleared on every exit path
//! of the scope, whether the unit of work succeeds or fails. Each worker owns
//! its own context; no other worker ever reads or writes it.

use crate::worker_id::WorkerId;
use vstd::prelude::*;

verus! {

/// One worker's context slot: at most one worker identity is current at any
/// time.
pub struct WorkerContext {
    current: Option<WorkerId>,
}

impl WorkerContext {
    /// The identity currently established on this context, if any.
    pub closed spec fn current_worker(self) -> Option<WorkerId> {
        self.current
    }

    /// A fresh context with no current worker.
    pub fn new() -> (r: WorkerContext)
        ensures
            r.current_worker() is None,
    {
        WorkerContext { current: None }
    }
}

/// Handle of one scoped acquisition: created when a worker identity is
/// established as current, consumed when the scope exits.
pub struct CurWorkerGuard {}

impl CurWorkerGuard {
    /// Establishes `id` as the current worker of `ctx` and hands back the
    /// handle whose release ends the scope.
    pub fn new(ctx: &mut WorkerContext, id: WorkerId) -> (g: CurWorkerGuard)
        ensures
            final(ctx).current_worker() == Some(id),
    {
        set_current_worker(ctx, Some(id));
        CurWorkerGuard {  }
    }

    /// Ends the scope: clears the current worker unconditionally, whatever
    /// the slot held.
    pub fn release(self, ctx: &mut WorkerContext)
        ensures
            final(ctx).current_worker() is None,
    {
        set_current_worker(ctx, None);
    }
}

/// Scoped acquisition: establishes `worker_id` as current on `ctx` for the
/// extent of the returned handle.
pub fn guard(ctx: &mut WorkerContext, worker_id: WorkerId) -> (g: CurWorkerGuard)
    ensures
        final(ctx).current_worker() == Some(worker_id),
{
    CurWorkerGuard::new(ctx, worker_id)
}

fn set_current_worker(ctx: &mut WorkerContext, worker_id: Option<WorkerId>)
    ensures
        final(ctx).current_worker() == worker_id,
{
    ctx.current = worker_id;
}

/// Non-failing lookup of the current worker.
pub fn get_current_worker(ctx: &WorkerContext) -> (r: Option<WorkerId>)
    ensures
        r == ctx.current_worker(),
{
    ctx.current
}

/// Lookup for code paths that are structurally guaranteed to run only inside
/// a worker scope: a caller must establish that a worker is current.
pub fn get_current_worker_uncheck(ctx: &WorkerContext) -> (r: WorkerId)
    requires
        ctx.current_worker() is Some,
    ensures
        Some(r) == ctx.current_worker(),
{
    match ctx.current {
        Some(id) => id,
        None => unreached(),
    }
}

/// True when the current worker has tracing enabled, or when the ambient
/// diagnostic verbosity independently enables trace-level output.
pub fn is_in_trace(ctx: &WorkerContext, ambient_trace: bool) -> (r: bool)
    ensures
        r == match ctx.current_worker() {
            Some(w) => w.trace_enable || ambient_trace,
            None => ambient_trace,
        },
{
    match ctx.current {
        Some(w) => w.trace_enable || ambient_trace,
        None => ambient_trace,
    }
}

/// Law: a unit of work runs with `id` current, and after the scope exits —
/// whether the body returned a value or failed — no worker is current on the
/// context.
pub fn run_scoped<T, E, F: Fn(WorkerId) -> Result<T, E>>(
    ctx: &mut WorkerContext,
    id: WorkerId,
    body: &F,
) -> (r: Result<T, E>)
    requires
        call_requires(*body, (id,)),
    ensures
        final(ctx).current_worker() is None,
        call_ensures(*body, (id,), r),
{
    let g = CurWorkerGuard::new(ctx, id);
    let r = body(id);
    g.release(ctx);
    r
}

} // verus!
