use vstd::prelude::*;

verus! {

/// Which of the two parallel native library instances an operation
/// targets: the single-precision engine or the double-precision one.
///
/// Every stateful operation in this crate is keyed by a `Precision`; the
/// two domains never share state.
#[derive(Clone, Copy, Debug, PartialEq, Eq, Structural)]
pub enum Precision {
    Single,
    Double,
}

/// How parallel work inside the engine is carried out once threading has
/// been initialized for a domain.
#[derive(Clone, Copy, Debug, PartialEq, Eq, Structural)]
pub enum ThreadingMode {
    /// The engine's parallel-for requests are fanned out across an
    /// external worker pool through the registered bridge callback.
    ExternalPool,
    /// The engine manages its own worker threads.
    NativeManaged,
}

/// The coordination layer's record of one precision domain's global
/// native state: whether threading has been initialized (and how), the
/// thread count the planner is currently configured with, and the wisdom
/// blob the engine has accumulated.
///
/// The blob is opaque: this crate never interprets its bytes, it only
/// moves them between the engine and wisdom files.
pub struct DomainState {
    /// The domain this state belongs to.
    pub precision: Precision,
    /// `None` until threading initialization has succeeded for this
    /// domain; afterwards, the mode it was initialized with.
    pub threading: Option<ThreadingMode>,
    /// How many worker threads a subsequently created plan will request.
    /// The engine's own default is one (serial plans).
    pub nthreads: usize,
    /// The domain's accumulated planning heuristics.
    pub wisdom: Vec<u8>,
}

impl DomainState {
    /// Well-formedness: the planner never holds a zero thread count.
    pub open spec fn wf(self) -> bool {
        self.nthreads >= 1
    }

    /// Whether threading initialization has succeeded for this domain.
    pub open spec fn threads_ready(self) -> bool {
        self.threading is Some
    }

    /// The state as it stands before any native call has been made for a
    /// domain: threading uninitialized, the engine's default thread count
    /// of one, and no accumulated wisdom.
    pub fn fresh(precision: Precision) -> (s: DomainState)
        ensures
            s.wf(),
            s.precision == precision,
            !s.threads_ready(),
            s.nthreads == 1,
            s.wisdom@ == Seq::<u8>::empty(),
    {
        DomainState { precision, threading: None, nthreads: 1, wisdom: Vec::new() }
    }
}

} // verus!
