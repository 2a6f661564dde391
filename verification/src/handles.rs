//! Opaque handles for backend-managed resources.
//!
//! A handle is copyable and comparable but never dereferenced by this
//! core; the backend owns the storage it names. Commands store handle
//! copies, never references to the wrapper objects, so a queued command's
//! meaning cannot change after it is recorded.

use vstd::prelude::*;

verus! {

/// Identifies a vertex buffer allocated by the backend.
#[derive(Clone, Copy, Debug, PartialEq, Eq, Structural)]
pub struct VertexBufferHandle(pub u64);

/// Identifies an index buffer allocated by the backend.
#[derive(Clone, Copy, Debug, PartialEq, Eq, Structural)]
pub struct IndexBufferHandle(pub u64);

/// Identifies a texture (flat or cube) allocated by the backend.
#[derive(Clone, Copy, Debug, PartialEq, Eq, Structural)]
pub struct TextureHandle(pub u64);

/// Identifies a shader program slot.
#[derive(Clone, Copy, Debug, PartialEq, Eq, Structural)]
pub struct ProgramHandle(pub u64);

/// Identifies a bitmap owned by the host, used as a copy source.
#[derive(Clone, Copy, Debug, PartialEq, Eq, Structural)]
pub struct BitmapHandle(pub u64);

/// Identifies the backend's current renderable surface.
#[derive(Clone, Copy, Debug, PartialEq, Eq, Structural)]
pub struct SurfaceHandle(pub u64);

} // verus!
