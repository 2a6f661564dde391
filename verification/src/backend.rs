//! The abstract capability contract a rendering backend must offer.
//!
//! The context object never depends on a concrete renderer: it talks to
//! any implementation of [`Context3D`]. The trait's specification pins the
//! observable protocol: allocation never executes queued work, and a
//! presented sequence runs in submission order, fail-fast and without
//! rollback.

use vstd::prelude::*;

use crate::commands::{BufferUsage, Context3DCommand, Context3DTextureFormat};
use crate::error::{PresentError, ResourceAllocationError};
use crate::handles::SurfaceHandle;

verus! {

/// A synchronous resource-allocation request, fully resolved.
#[derive(Clone, Copy, Debug, PartialEq, Eq, Structural)]
pub enum ResourceRequest {
    VertexBuffer {
        vertex_count: u32,
        data32_per_vertex: u8,
        usage: BufferUsage,
    },
    IndexBuffer {
        index_count: u32,
        usage: BufferUsage,
    },
    Texture {
        width: u32,
        height: u32,
        format: Context3DTextureFormat,
        optimize_for_render_to_texture: bool,
        streaming_levels: u32,
    },
    CubeTexture {
        size: u32,
        format: Context3DTextureFormat,
        optimize_for_render_to_texture: bool,
        streaming_levels: u32,
    },
}

/// The rendering backend a context drives.
///
/// `executed()` is the backend-visible effect log: the commands it has
/// run, in order. `present_commands` must execute a submitted sequence in
/// exactly that order; on failure it reports the offending command's
/// index, having executed every command before it and none from it on
/// (fail-fast, no rollback). Presenting an empty sequence succeeds and
/// only queries readiness. Allocation is synchronous and executes no
/// queued work.
pub trait Context3D: Sized {
    /// The commands this backend has executed so far, in order.
    spec fn executed(&self) -> Seq<Context3DCommand>;

    /// Whether the backend currently holds a finalized renderable frame.
    spec fn frame_ready(&self) -> bool;

    /// The handle of the backend's current renderable surface.
    spec fn surface(&self) -> SurfaceHandle;

    /// Whether the backend would satisfy this allocation for this handle.
    spec fn accepts(&self, handle: u64, request: ResourceRequest) -> bool;

    /// Where execution of this sequence would first fail, if anywhere.
    spec fn first_failure(&self, commands: Seq<Context3DCommand>) -> Option<usize>;

    /// Allocates backing storage for the resource the context has named
    /// `handle`. Succeeds exactly when the backend accepts the request,
    /// and never executes queued work.
    fn allocate(&mut self, handle: u64, request: ResourceRequest) -> (r: Result<
        (),
        ResourceAllocationError,
    >)
        ensures
            r is Ok <==> old(self).accepts(handle, request),
            final(self).executed() == old(self).executed(),
            final(self).frame_ready() == old(self).frame_ready(),
            final(self).surface() == old(self).surface(),
    ;

    /// Executes the submitted commands in order. On success all of them
    /// ran and, if any were submitted, a frame is finalized; on failure
    /// exactly the commands before the failing one ran. An empty
    /// submission succeeds and leaves readiness unchanged.
    fn present_commands(&mut self, commands: Vec<Context3DCommand>) -> (r: Result<
        (),
        PresentError,
    >)
        ensures
            r is Ok <==> old(self).first_failure(commands@) is None,
            commands@.len() == 0 ==> r is Ok,
            commands@.len() == 0 ==> final(self).frame_ready() == old(self).frame_ready(),
            r is Ok ==> final(self).executed() == old(self).executed() + commands@,
            r is Ok && commands@.len() > 0 ==> final(self).frame_ready(),
            r matches Err(e) ==> old(self).first_failure(commands@) matches Some(i)
                && e.failed_index == i && i < commands@.len() && final(self).executed() == old(
                self,
            ).executed() + commands@.take(i as int),
    ;

    /// Reports whether a finalized frame is ready to composite.
    fn should_render(&self) -> (r: bool)
        ensures
            r == self.frame_ready(),
    ;

    /// Hands out the handle of the current renderable surface.
    fn current_surface_handle(&self) -> (r: SurfaceHandle)
        ensures
            r == self.surface(),
    ;
}

} // verus!
