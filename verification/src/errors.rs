use vstd::prelude::*;

verus! {

/// The error kinds surfaced synchronously by aggregator operations.
///
/// Every guard is checked before any mutation occurs for a call, so a
/// failing operation leaves the aggregator unchanged.
#[derive(Clone, Copy, Debug, PartialEq, Eq, Structural)]
pub enum Error {
    /// A malformed numeric or string argument.
    Type,
    /// The operation is illegal in the current readiness state or given the
    /// current buffer flags.
    InvalidState,
    /// The type descriptor is unrecognized or incompatible.
    NotSupported,
    /// The buffer is not owned by this aggregator.
    NotFound,
    /// A time-range index is out of bounds.
    IndexSize,
}

/// The caller-supplied end-of-stream error code.
///
/// It selects only the external error-reporting surface delegated to
/// collaborators; the readiness transition is the same with or without it.
#[derive(Clone, Copy, Debug, PartialEq, Eq, Structural)]
pub enum EndOfStreamError {
    /// Playback ended because of a network problem.
    Network,
    /// Playback ended because of a decode problem.
    Decode,
}

} // verus!
