use vstd::prelude::*;
use crate::domain::{DomainState, Precision, ThreadingMode};
use crate::error::Error;
use crate::guard::NativeCallGuard;

verus! {

/// What the coordination layer knows of a plan the native engine just
/// built: which domain it belongs to and the thread count it captured at
/// creation. The numerical plan itself stays with the engine; this handle
/// records the part of its configuration this crate is responsible for.
#[derive(Clone, Copy, Debug, PartialEq, Eq, Structural)]
pub struct PlanHandle {
    /// The domain the plan was created in.
    pub precision: Precision,
    /// The worker-thread count the plan captured when it was created.
    /// Later planner reconfiguration never changes it.
    pub nthreads: usize,
}

/// The handle a creation call made under planner state `s` hands back:
/// the plan captures the thread count configured at that moment.
pub open spec fn plan_of(s: DomainState) -> PlanHandle {
    PlanHandle { precision: s.precision, nthreads: s.nthreads }
}

impl DomainState {
    /// The domain state after its thread count is reconfigured to `n`.
    pub open spec fn with_nthreads(self, n: usize) -> DomainState {
        DomainState { nthreads: n, ..self }
    }

    /// The domain state after threading initialization succeeds in `mode`.
    pub open spec fn initialized(self, mode: ThreadingMode) -> DomainState {
        DomainState { threading: Some(mode), ..self }
    }
}

/// Initialize the native engine's thread subsystem for one domain.
///
/// The engine's bootstrap entry point reports `1` on success and any
/// other value on failure; `bootstrap_code` is that report. On success
/// the bridge callback for `mode` is registered (registration itself is
/// infallible) and the domain is ready for parallel dispatch. On failure
/// nothing is registered, the domain is left exactly as it was, and the
/// caller gets `InitThreadError`.
pub fn init_threads(s: &mut DomainState, mode: ThreadingMode, bootstrap_code: i32) -> (r: Result<
    (),
    Error,
>)
    requires
        old(s).wf(),
    ensures
        final(s).wf(),
        bootstrap_code == 1 ==> r is Ok && *final(s) == old(s).initialized(mode),
        bootstrap_code != 1 ==> (r matches Err(Error::InitThreadError)) && *final(s) == *old(s),
{
    if bootstrap_code != 1 {
        return Err(Error::InitThreadError);
    }
    s.threading = Some(mode);
    Ok(())
}

/// Set the planner of one domain to request `n` worker threads for the
/// plans it creates from now on. Only the thread count changes; plans
/// already created are values of their own and keep the count they
/// captured.
pub fn plan_with_nthreads(s: &mut DomainState, n: usize)
    requires
        old(s).wf(),
        n >= 1,
    ensures
        final(s).wf(),
        *final(s) == old(s).with_nthreads(n),
{
    s.nthreads = n;
}

/// Read back how many worker threads the planner of this domain is
/// currently configured to request.
pub fn planner_nthreads(s: &DomainState) -> (n: usize)
    ensures
        n == s.nthreads,
{
    s.nthreads
}

/// One plan-creation call, run under the native call guard.
///
/// The guard for the plan's domain is taken before the engine's creation
/// routine runs and given back on every exit path, successful or not —
/// the caller sees the guard exactly as it was. `native_ok` is the
/// engine's report: on success the new plan captures the domain's
/// current thread count; on failure the caller gets `InvalidPlanError`
/// and no handle.
///
/// A plan that would use more than one worker thread dispatches through
/// the bridge, so creating one demands that threading initialization has
/// succeeded first: a caller that skipped initialization must have
/// explicitly chosen a serial planner configuration.
pub fn create_plan(
    guard: &mut NativeCallGuard,
    s: &DomainState,
    native_ok: bool,
) -> (r: Result<PlanHandle, Error>)
    requires
        s.wf(),
        old(guard).can_begin_creation(s.precision),
        s.nthreads > 1 ==> s.threads_ready(),
    ensures
        *final(guard) == *old(guard),
        native_ok ==> (r matches Ok(p) && p == plan_of(*s)),
        !native_ok ==> (r matches Err(Error::InvalidPlanError)),
{
    guard.acquire(s.precision);
    let r: Result<PlanHandle, Error> = if native_ok {
        Ok(PlanHandle { precision: s.precision, nthreads: s.nthreads })
    } else {
        Err(Error::InvalidPlanError)
    };
    guard.release(s.precision);
    proof {
        crate::guard::lemma_release_after_acquire(*old(guard), s.precision);
    }
    r
}

/// Thread-count capture: a plan built after the planner was set to
/// `first` threads records `first`. Setting the planner to `second`
/// afterwards moves the planner on — the next plan would capture
/// `second` — but the handle created before the reconfiguration still
/// reads `first`: later changes never retroactively touch a plan.
pub proof fn lemma_thread_count_capture(s: DomainState, first: usize, second: usize)
    requires
        first >= 1,
        second >= 1,
    ensures
        plan_of(s.with_nthreads(first)).nthreads == first,
        plan_of(s.with_nthreads(first).with_nthreads(second)).nthreads == second,
        plan_of(s.with_nthreads(first)).nthreads
            != plan_of(s.with_nthreads(first).with_nthreads(second)).nthreads ==> first != second,
{
}

} // verus!
