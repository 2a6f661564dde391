//! Error and diagnostic types of the command layer.

use vstd::prelude::*;

use crate::commands::Context3DTextureFormat;

verus! {

/// Reported by the backend when a queued command fails during execution.
/// `failed_index` identifies the offending command within the submitted
/// sequence; commands before it have executed, it and the rest have not.
#[derive(Clone, Copy, Debug, PartialEq, Eq, Structural)]
pub struct PresentError {
    pub failed_index: usize,
}

/// Reported by the backend when it cannot satisfy a resource allocation
/// (size, format or quota).
#[derive(Clone, Copy, Debug, PartialEq, Eq, Structural)]
pub struct ResourceAllocationError;

/// The error kinds a context operation can surface to the scripting layer.
#[derive(Clone, Copy, Debug, PartialEq, Eq, Structural)]
pub enum Context3DError {
    /// The call arrived after the context was disposed; disposal is
    /// terminal and nothing reached the backend.
    ContextDisposed,
    /// An enqueue argument had an invalid shape; the call was rejected
    /// before anything was queued.
    InvalidArgument,
    /// The backend refused a synchronous resource allocation, or the
    /// handle space is exhausted; no partial resource is left live.
    ResourceAllocation,
    /// A command failed while the backend executed a presented sequence.
    Present(PresentError),
}

/// Diagnostic recorded when a script requests a texture format the
/// backend does not yet implement: the call still proceeds best-effort,
/// and this record lets the host surface the capability gap.
#[derive(Clone, Copy, Debug, PartialEq, Eq, Structural)]
pub struct UnsupportedCapability {
    pub format: Context3DTextureFormat,
}

} // verus!
