//! Thin owning wrappers for backend-allocated resources.
//!
//! Each wrapper pairs an opaque handle with the minimal metadata later
//! commands are validated against. Wrappers are plain values: queued
//! commands copy the handle out of them, so discarding a wrapper never
//! invalidates work already queued against its handle.

use vstd::prelude::*;

use crate::commands::Context3DTextureFormat;
use crate::handles::{IndexBufferHandle, ProgramHandle, TextureHandle, VertexBufferHandle};

verus! {

/// A vertex buffer: its handle, how many vertices it holds, and how many
/// 32-bit words each vertex occupies.
#[derive(Clone, Copy, Debug, PartialEq, Eq, Structural)]
pub struct VertexBuffer3DObject {
    pub handle: VertexBufferHandle,
    pub vertex_count: u32,
    pub data32_per_vertex: u8,
}

/// An index buffer: its handle and how many 16-bit indices it holds.
#[derive(Clone, Copy, Debug, PartialEq, Eq, Structural)]
pub struct IndexBuffer3DObject {
    pub handle: IndexBufferHandle,
    pub count: u32,
}

/// A flat or cube texture: its handle, dimensions and format.
#[derive(Clone, Copy, Debug, PartialEq, Eq, Structural)]
pub struct TextureObject {
    pub handle: TextureHandle,
    pub width: u32,
    pub height: u32,
    pub format: Context3DTextureFormat,
    pub cube: bool,
}

/// A shader program slot; its stages are filled by an upload command.
#[derive(Clone, Copy, Debug, PartialEq, Eq, Structural)]
pub struct Program3DObject {
    pub handle: ProgramHandle,
}

} // verus!
