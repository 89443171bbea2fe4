use vstd::prelude::*;

verus! {

/// Alignment class of a caller-supplied buffer, as the planner reported it.
///
/// Carried inside the array-mismatch errors purely as diagnostic context;
/// buffer validation itself belongs to the planner that produced it.
#[derive(Clone, Copy, Debug, PartialEq, Eq, Structural)]
pub enum Alignment {
    Aligned,
    Unaligned,
}

/// The closed set of failures the coordination layer can report.
///
/// Every fallible operation fails with exactly one of these, carrying the
/// context needed to diagnose it locally: the offending path, the position
/// of a bad byte, or the expected/actual buffer descriptors. There is no
/// generic catch-all variant.
#[derive(Debug)]
pub enum Error {
    /// The native engine rejected or could not build a plan.
    InvalidPlanError,
    /// An input buffer did not match the shape the plan was built for.
    /// Each descriptor is an (element count, alignment class) pair.
    InputArrayMismatch { expect: (usize, Alignment), actual: (usize, Alignment) },
    /// An output buffer did not match the shape the plan was built for.
    OutputArrayMismatch { expect: (usize, Alignment), actual: (usize, Alignment) },
    /// A filesystem path was not representable as a plain text string.
    PathToStrConversionError { path: String },
    /// A path string held an embedded terminator byte and cannot cross the
    /// native string convention; `nul_position` is the byte index of the
    /// first such byte.
    PathToCStringConversionError { path: String, nul_position: usize },
    /// The native engine failed to read wisdom from this file.
    ImportWisdomError { path: String },
    /// The native engine failed to write wisdom to this file.
    ExportWisdomError { path: String },
    /// The native engine's thread subsystem failed to bootstrap.
    InitThreadError,
}

} // verus!
