//! A verified coordination layer for a native Fourier-transform planning
//! engine in the style of FFTW.
//!
//! The native engine keeps hidden global state per numeric precision: its
//! planner is not safe to call concurrently, while executing an
//! already-built plan against disjoint buffers is. This crate provides the
//! discipline around that engine:
//!
//! * an error taxonomy shared by every fallible operation ([`error`]),
//! * a guard serializing plan creation per precision domain ([`guard`]),
//! * the per-domain planner state machine — threading initialization and
//!   the thread-count setting a new plan captures ([`threading`]),
//! * the partitioning contract of the worker-pool bridge that fans a
//!   native work item out across an external thread pool ([`bridge`]),
//! * the wisdom persistence protocol: path validation and import/export
//!   of the engine's accumulated planning heuristics ([`wisdom`]).
//!
//! The native calls themselves are made by an unverified shell around this
//! crate; every decision — which error a call reports, which offsets a
//! dispatch covers, what state a call leaves behind — is taken here, on
//! plain values, and verified.

pub mod bridge;
pub mod domain;
pub mod error;
pub mod guard;
pub mod threading;
pub mod wisdom;

pub use bridge::WorkItem;
pub use bridge::dispatch_offsets;
pub use domain::DomainState;
pub use domain::Precision;
pub use domain::ThreadingMode;
pub use error::Alignment;
pub use error::Error;
pub use guard::NativeCallGuard;
pub use threading::PlanHandle;
pub use threading::create_plan;
pub use threading::init_threads;
pub use threading::plan_with_nthreads;
pub use threading::planner_nthreads;
pub use wisdom::export_wisdom_file;
pub use wisdom::import_wisdom_file;
pub use wisdom::validate_wisdom_path;
