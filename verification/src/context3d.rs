//! The context object: command queue, resource lifecycle, flush protocol.
//!
//! Every public mutating operation other than resource creation appends
//! exactly one fully resolved command to the pending queue and never
//! touches the backend; resource creation is the one synchronous class of
//! call, because the returned handle is needed to build later commands.
//! `present` atomically takes the whole queue and submits it for in-order
//! execution. Disposal is terminal: afterwards every call fails with
//! `ContextDisposed` and nothing reaches the backend.

use vstd::prelude::*;

use crate::backend::{Context3D, ResourceRequest};
use crate::commands::{
    BufferUsage, Context3DBlendFactor, Context3DCommand, Context3DCompareMode,
    Context3DTextureFormat, Context3DTriangleFace, Context3DVertexBufferFormat, ProgramType,
    TriangleCount,
};
use crate::error::{Context3DError, UnsupportedCapability};
use crate::handles::{
    BitmapHandle, IndexBufferHandle, ProgramHandle, SurfaceHandle, TextureHandle,
    VertexBufferHandle,
};
use crate::resources::{
    IndexBuffer3DObject, Program3DObject, TextureObject, VertexBuffer3DObject,
};

verus! {

/// One "draw external surface" instruction appended to the host scene's
/// output stream; the transform is supplied by the host's display
/// hierarchy and carried through untouched.
#[derive(Clone, Debug, PartialEq, Eq)]
pub struct SurfaceDraw<T> {
    pub surface: SurfaceHandle,
    pub transform: T,
}

/// How many triangles a draw command records: the `All` request derives
/// the count from the bound index buffer's index count divided by three,
/// truncated; an exact request is forwarded as given.
pub open spec fn resolved_triangle_count(requested: TriangleCount, index_count: u32) -> i32 {
    match requested {
        TriangleCount::All => (index_count / 3) as i32,
        TriangleCount::Exact(n) => n,
    }
}

/// Whether the backend lacks support for this texture format, so that a
/// creation call records an `UnsupportedCapability` diagnostic while
/// still proceeding best-effort.
pub open spec fn texture_stub_format(format: Context3DTextureFormat) -> bool {
    format is BgrPacked || format is Compressed
}

/// Shape validity of a vertex-data upload: the declared word count must
/// match the buffer it targets, the payload must hold whole vertices, and
/// the written range must lie inside the buffer.
pub open spec fn valid_vertex_upload(
    buffer: VertexBuffer3DObject,
    data_len: nat,
    start_vertex: nat,
    data32_per_vertex: u8,
) -> bool {
    &&& data32_per_vertex == buffer.data32_per_vertex
    &&& data32_per_vertex > 0
    &&& data_len % (4 * data32_per_vertex as nat) == 0
    &&& start_vertex + data_len / (4 * data32_per_vertex as nat) <= buffer.vertex_count
}

/// Shape validity of an index-data upload: whole 16-bit indices, written
/// inside the buffer.
pub open spec fn valid_index_upload(
    buffer: IndexBuffer3DObject,
    data_len: nat,
    start_offset: nat,
) -> bool {
    &&& data_len % 2 == 0
    &&& start_offset + data_len / 2 <= buffer.count
}

/// A queue after a sequence of enqueue calls: each call appends exactly
/// one command, so the calls fold onto the queue one `push` at a time.
pub open spec fn enqueue_all(
    queue: Seq<Context3DCommand>,
    calls: Seq<Context3DCommand>,
) -> Seq<Context3DCommand>
    decreases calls.len(),
{
    if calls.len() == 0 {
        queue
    } else {
        enqueue_all(queue.push(calls[0]), calls.drop_first())
    }
}

/// Ordering law of the two-phase protocol. Every enqueue operation
/// appends exactly one command (`Context3DObject::enqueued`), so after
/// any interleaving of such calls the queue holds the commands in
/// submission order — `enqueue_all` of the calls is their concatenation.
/// A successful `present` then extends the backend's executed log by
/// exactly the queue, in order (its `ensures`), so backend-visible side
/// effects happen in exactly submission order.
pub proof fn lemma_flush_order(queue: Seq<Context3DCommand>, calls: Seq<Context3DCommand>)
    ensures
        enqueue_all(queue, calls) == queue + calls,
    decreases calls.len(),
{
    if calls.len() == 0 {
        assert(enqueue_all(queue, calls) =~= queue + calls);
    } else {
        lemma_flush_order(queue.push(calls[0]), calls.drop_first());
        assert(queue.push(calls[0]) + calls.drop_first() =~= queue + calls);
    }
}

/// Handle-freshness law. Every resource creation hands out the counter's
/// current value as the new handle and leaves the counter strictly above
/// it, and no operation ever decreases the counter (each `ensures` either
/// preserves `next_resource_id` or advances it). So a handle issued
/// earlier is strictly below the counter at any later creation, and no
/// two resources of one context ever share a handle.
pub proof fn lemma_handles_never_reused(
    earlier_handle: u64,
    counter_after_earlier: u64,
    counter_at_later: u64,
)
    requires
        earlier_handle < counter_after_earlier,
        counter_after_earlier <= counter_at_later,
    ensures
        earlier_handle != counter_at_later,
{
}

/// The root entity: owns the backend rendering context while live, the
/// ordered queue of pending commands, the monotone counter that mints
/// never-reused resource handles, and the capability diagnostics log.
pub struct Context3DObject<B: Context3D> {
    backend: Option<B>,
    queue: Vec<Context3DCommand>,
    next_id: u64,
    diags: Vec<UnsupportedCapability>,
}

impl<B: Context3D> Context3DObject<B> {
    /// The backend, present exactly while the context is not disposed.
    pub closed spec fn backend_view(&self) -> Option<B> {
        self.backend
    }

    /// Whether the context has been disposed; disposal is terminal.
    pub open spec fn is_disposed(&self) -> bool {
        self.backend_view() is None
    }

    /// The pending commands, in the order they were enqueued.
    pub closed spec fn pending(&self) -> Seq<Context3DCommand> {
        self.queue@
    }

    /// The handle value the next created resource will receive. The
    /// counter only ever grows, so no two resources of one context share
    /// a handle.
    pub closed spec fn next_resource_id(&self) -> u64 {
        self.next_id
    }

    /// The capability diagnostics recorded so far, in order.
    pub closed spec fn diagnostics(&self) -> Seq<UnsupportedCapability> {
        self.diags@
    }

    /// The commands the backend has executed, in order.
    pub open spec fn executed(&self) -> Seq<Context3DCommand> {
        match self.backend_view() {
            Some(b) => b.executed(),
            None => Seq::empty(),
        }
    }

    /// Whether the backend holds a finalized frame.
    pub open spec fn frame_ready(&self) -> bool {
        match self.backend_view() {
            Some(b) => b.frame_ready(),
            None => false,
        }
    }

    /// The backend's current surface handle, while the context is live.
    pub open spec fn surface(&self) -> Option<SurfaceHandle> {
        match self.backend_view() {
            Some(b) => Some(b.surface()),
            None => None,
        }
    }

    /// Whether the backend would satisfy this allocation.
    pub open spec fn backend_accepts(&self, handle: u64, request: ResourceRequest) -> bool {
        match self.backend_view() {
            Some(b) => b.accepts(handle, request),
            None => false,
        }
    }

    /// Where the backend would first fail executing this sequence.
    pub open spec fn backend_first_failure(&self, commands: Seq<Context3DCommand>) -> Option<
        usize,
    > {
        match self.backend_view() {
            Some(b) => b.first_failure(commands),
            None => None,
        }
    }

    /// The effect of one enqueue call: exactly this command is appended
    /// to the pending queue, and nothing else about the context — backend
    /// included — changes.
    pub open spec fn enqueued(pre: Self, post: Self, command: Context3DCommand) -> bool {
        &&& post.pending() == pre.pending().push(command)
        &&& post.backend_view() == pre.backend_view()
        &&& post.next_resource_id() == pre.next_resource_id()
        &&& post.diagnostics() == pre.diagnostics()
    }

    /// The disposal barrier, shared by every operation: a call on a
    /// disposed context fails with `ContextDisposed`, changes nothing,
    /// and in particular never reaches the backend.
    pub open spec fn disposed_rejected<T>(pre: Self, post: Self, r: Result<
        T,
        Context3DError,
    >) -> bool {
        pre.is_disposed() ==> (post == pre && r matches Err(Context3DError::ContextDisposed))
    }

    /// The parts of a live context a synchronous resource creation never
    /// touches: the pending queue, the diagnostics (textures aside), and
    /// every backend-visible effect.
    pub open spec fn creation_preserves(pre: Self, post: Self) -> bool {
        &&& !post.is_disposed()
        &&& post.pending() == pre.pending()
        &&& post.executed() == pre.executed()
        &&& post.frame_ready() == pre.frame_ready()
        &&& post.surface() == pre.surface()
    }

    /// Wraps a live backend context. The new object has an empty queue,
    /// no diagnostics, and has issued no resource handles.
    pub fn from_context(backend: B) -> (r: Self)
        ensures
            !r.is_disposed(),
            r.backend_view() == Some(backend),
            r.pending() == Seq::<Context3DCommand>::empty(),
            r.diagnostics() == Seq::<UnsupportedCapability>::empty(),
            r.next_resource_id() == 0,
    {
        Context3DObject { backend: Some(backend), queue: Vec::new(), next_id: 0, diags: Vec::new() }
    }

    /// Read-only view of the pending queue, oldest command first.
    pub fn pending_commands(&self) -> (r: &Vec<Context3DCommand>)
        ensures
            r@ == self.pending(),
    {
        &self.queue
    }

    /// Read-only view of the recorded capability diagnostics.
    pub fn capability_diagnostics(&self) -> (r: &Vec<UnsupportedCapability>)
        ensures
            r@ == self.diagnostics(),
    {
        &self.diags
    }

    /// Releases the backend context and empties the queue; the context is
    /// disposed from here on. Returns the backend so the host can tear it
    /// down (or `None` if already disposed).
    pub fn dispose(&mut self) -> (r: Option<B>)
        ensures
            final(self).is_disposed(),
            final(self).pending() == Seq::<Context3DCommand>::empty(),
            final(self).diagnostics() == old(self).diagnostics(),
            final(self).next_resource_id() == old(self).next_resource_id(),
            r == old(self).backend_view(),
    {
        let mut taken: Option<B> = None;
        core::mem::swap(&mut taken, &mut self.backend);
        self.queue.clear();
        taken
    }

    /// Records the capability-stub diagnostic for texture formats the
    /// backend does not yet support, instead of failing the call.
    fn check_texture_stub(&mut self, format: Context3DTextureFormat)
        ensures
            texture_stub_format(format) ==> final(self).diagnostics() == old(self).diagnostics().push((UnsupportedCapability { format })),
            !texture_stub_format(format) ==> final(self).diagnostics() == old(self).diagnostics(),
            final(self).pending() == old(self).pending(),
            final(self).backend_view() == old(self).backend_view(),
            final(self).next_resource_id() == old(self).next_resource_id(),
    {
        match format {
            Context3DTextureFormat::BgrPacked => self.diags.push(
                UnsupportedCapability { format },
            ),
            Context3DTextureFormat::Compressed => self.diags.push(
                UnsupportedCapability { format },
            ),
            _ => {},
        }
    }

    /// Mints the next resource handle and asks the backend to back it
    /// with storage for `request`. Fails with `ResourceAllocation` when
    /// the backend refuses or the handle space is exhausted, leaving no
    /// partial resource live.
    fn allocate_resource(&mut self, request: ResourceRequest) -> (r: Result<u64, Context3DError>)
        requires
            !old(self).is_disposed(),
        ensures
            Self::creation_preserves(*old(self), *final(self)),
            final(self).diagnostics() == old(self).diagnostics(),
            r is Ok <==> old(self).next_resource_id() < u64::MAX && old(self).backend_accepts(
                old(self).next_resource_id(),
                request,
            ),
            r matches Ok(id) ==> id == old(self).next_resource_id() && final(self).next_resource_id()
                == old(self).next_resource_id() + 1,
            r is Err ==> (r matches Err(Context3DError::ResourceAllocation) && final(self).next_resource_id() == old(self).next_resource_id()),
    {
        let id = self.next_id;
        if id == u64::MAX {
            return Err(Context3DError::ResourceAllocation);
        }
        match &mut self.backend {
            None => Err(Context3DError::ResourceAllocation),
            Some(b) => {
                match b.allocate(id, request) {
                    Ok(()) => {
                        self.next_id = id + 1;
                        Ok(id)
                    },
                    Err(_) => Err(Context3DError::ResourceAllocation),
                }
            },
        }
    }

    /// Synchronously creates a vertex buffer of `num_vertices` vertices,
    /// each `data32_per_vertex` 32-bit words wide, returning its wrapper.
    pub fn create_vertex_buffer(
        &mut self,
        num_vertices: u32,
        data32_per_vertex: u8,
        usage: BufferUsage,
    ) -> (r: Result<VertexBuffer3DObject, Context3DError>)
        ensures
            Self::disposed_rejected(*old(self), *final(self), r),
            !old(self).is_disposed() ==> {
                &&& Self::creation_preserves(*old(self), *final(self))
                &&& final(self).diagnostics() == old(self).diagnostics()
                &&& (r is Ok <==> old(self).next_resource_id() < u64::MAX && old(self).backend_accepts(
                    old(self).next_resource_id(),
                    (ResourceRequest::VertexBuffer {
                        vertex_count: num_vertices,
                        data32_per_vertex,
                        usage,
                    }),
                ))
                &&& (r matches Ok(vb) ==> vb == (VertexBuffer3DObject {
                    handle: VertexBufferHandle(old(self).next_resource_id()),
                    vertex_count: num_vertices,
                    data32_per_vertex,
                }) && final(self).next_resource_id() == old(self).next_resource_id() + 1)
                &&& (r is Err ==> (r matches Err(Context3DError::ResourceAllocation) && final(self).next_resource_id() == old(self).next_resource_id()))
            },
    {
        if self.backend.is_none() {
            return Err(Context3DError::ContextDisposed);
        }
        let id = self.allocate_resource(
            ResourceRequest::VertexBuffer { vertex_count: num_vertices, data32_per_vertex, usage },
        )?;
        Ok(
            VertexBuffer3DObject {
                handle: VertexBufferHandle(id),
                vertex_count: num_vertices,
                data32_per_vertex,
            },
        )
    }

    /// Synchronously creates an index buffer of `num_indices` 16-bit
    /// indices, returning its wrapper.
    pub fn create_index_buffer(&mut self, num_indices: u32) -> (r: Result<
        IndexBuffer3DObject,
        Context3DError,
    >)
        ensures
            Self::disposed_rejected(*old(self), *final(self), r),
            !old(self).is_disposed() ==> {
                &&& Self::creation_preserves(*old(self), *final(self))
                &&& final(self).diagnostics() == old(self).diagnostics()
                &&& (r is Ok <==> old(self).next_resource_id() < u64::MAX && old(self).backend_accepts(
                    old(self).next_resource_id(),
                    (ResourceRequest::IndexBuffer {
                        index_count: num_indices,
                        usage: BufferUsage::StaticDraw,
                    }),
                ))
                &&& (r matches Ok(ib) ==> ib == (IndexBuffer3DObject {
                    handle: IndexBufferHandle(old(self).next_resource_id()),
                    count: num_indices,
                }) && final(self).next_resource_id() == old(self).next_resource_id() + 1)
                &&& (r is Err ==> (r matches Err(Context3DError::ResourceAllocation) && final(self).next_resource_id() == old(self).next_resource_id()))
            },
    {
        if self.backend.is_none() {
            return Err(Context3DError::ContextDisposed);
        }
        let id = self.allocate_resource(
            ResourceRequest::IndexBuffer { index_count: num_indices, usage: BufferUsage::StaticDraw },
        )?;
        Ok(IndexBuffer3DObject { handle: IndexBufferHandle(id), count: num_indices })
    }

    /// Synchronously creates a flat texture. A request for a format the
    /// backend does not yet support still proceeds best-effort: it
    /// records an `UnsupportedCapability` diagnostic and returns a usable
    /// handle rather than failing.
    pub fn create_texture(
        &mut self,
        width: u32,
        height: u32,
        format: Context3DTextureFormat,
        optimize_for_render_to_texture: bool,
        streaming_levels: u32,
    ) -> (r: Result<TextureObject, Context3DError>)
        ensures
            Self::disposed_rejected(*old(self), *final(self), r),
            !old(self).is_disposed() ==> {
                &&& Self::creation_preserves(*old(self), *final(self))
                &&& (texture_stub_format(format) ==> final(self).diagnostics() == old(self).diagnostics().push((UnsupportedCapability { format })))
                &&& (!texture_stub_format(format) ==> final(self).diagnostics() == old(self).diagnostics())
                &&& (r is Ok <==> old(self).next_resource_id() < u64::MAX && old(self).backend_accepts(
                    old(self).next_resource_id(),
                    (ResourceRequest::Texture {
                        width,
                        height,
                        format,
                        optimize_for_render_to_texture,
                        streaming_levels,
                    }),
                ))
                &&& (r matches Ok(t) ==> t == (TextureObject {
                    handle: TextureHandle(old(self).next_resource_id()),
                    width,
                    height,
                    format,
                    cube: false,
                }) && final(self).next_resource_id() == old(self).next_resource_id() + 1)
                &&& (r is Err ==> (r matches Err(Context3DError::ResourceAllocation) && final(self).next_resource_id() == old(self).next_resource_id()))
            },
    {
        if self.backend.is_none() {
            return Err(Context3DError::ContextDisposed);
        }
        self.check_texture_stub(format);
        let id = self.allocate_resource(
            ResourceRequest::Texture {
                width,
                height,
                format,
                optimize_for_render_to_texture,
                streaming_levels,
            },
        )?;
        Ok(TextureObject { handle: TextureHandle(id), width, height, format, cube: false })
    }

    /// Synchronously creates a cube texture of edge length `size`, with
    /// the same best-effort handling of unsupported formats as
    /// `create_texture`.
    pub fn create_cube_texture(
        &mut self,
        size: u32,
        format: Context3DTextureFormat,
        optimize_for_render_to_texture: bool,
        streaming_levels: u32,
    ) -> (r: Result<TextureObject, Context3DError>)
        ensures
            Self::disposed_rejected(*old(self), *final(self), r),
            !old(self).is_disposed() ==> {
                &&& Self::creation_preserves(*old(self), *final(self))
                &&& (texture_stub_format(format) ==> final(self).diagnostics() == old(self).diagnostics().push((UnsupportedCapability { format })))
                &&& (!texture_stub_format(format) ==> final(self).diagnostics() == old(self).diagnostics())
                &&& (r is Ok <==> old(self).next_resource_id() < u64::MAX && old(self).backend_accepts(
                    old(self).next_resource_id(),
                    (ResourceRequest::CubeTexture {
                        size,
                        format,
                        optimize_for_render_to_texture,
                        streaming_levels,
                    }),
                ))
                &&& (r matches Ok(t) ==> t == (TextureObject {
                    handle: TextureHandle(old(self).next_resource_id()),
                    width: size,
                    height: size,
                    format,
                    cube: true,
                }) && final(self).next_resource_id() == old(self).next_resource_id() + 1)
                &&& (r is Err ==> (r matches Err(Context3DError::ResourceAllocation) && final(self).next_resource_id() == old(self).next_resource_id()))
            },
    {
        if self.backend.is_none() {
            return Err(Context3DError::ContextDisposed);
        }
        self.check_texture_stub(format);
        let id = self.allocate_resource(
            ResourceRequest::CubeTexture {
                size,
                format,
                optimize_for_render_to_texture,
                streaming_levels,
            },
        )?;
        Ok(TextureObject { handle: TextureHandle(id), width: size, height: size, format, cube: true })
    }

    /// Creates a program slot. No backend allocation is needed until a
    /// shader pair is uploaded, so only the handle is minted; the call
    /// fails only on a disposed context or an exhausted handle space.
    pub fn create_program(&mut self) -> (r: Result<Program3DObject, Context3DError>)
        ensures
            Self::disposed_rejected(*old(self), *final(self), r),
            !old(self).is_disposed() ==> {
                &&& !final(self).is_disposed()
                &&& final(self).pending() == old(self).pending()
                &&& final(self).diagnostics() == old(self).diagnostics()
                &&& final(self).backend_view() == old(self).backend_view()
                &&& (r is Ok <==> old(self).next_resource_id() < u64::MAX)
                &&& (r matches Ok(p) ==> p == (Program3DObject {
                    handle: ProgramHandle(old(self).next_resource_id()),
                }) && final(self).next_resource_id() == old(self).next_resource_id() + 1)
                &&& (r is Err ==> (r matches Err(Context3DError::ResourceAllocation) && final(self).next_resource_id() == old(self).next_resource_id()))
            },
    {
        if self.backend.is_none() {
            return Err(Context3DError::ContextDisposed);
        }
        let id = self.next_id;
        if id == u64::MAX {
            return Err(Context3DError::ResourceAllocation);
        }
        self.next_id = id + 1;
        Ok(Program3DObject { handle: ProgramHandle(id) })
    }

    /// Appends one command to the pending queue; the single deferred-path
    /// primitive every enqueue operation goes through.
    fn enqueue(&mut self, command: Context3DCommand) -> (r: Result<(), Context3DError>)
        ensures
            Self::disposed_rejected(*old(self), *final(self), r),
            !old(self).is_disposed() ==> r is Ok && Self::enqueued(
                *old(self),
                *final(self),
                command,
            ),
    {
        if self.backend.is_none() {
            return Err(Context3DError::ContextDisposed);
        }
        self.queue.push(command);
        Ok(())
    }

    /// Requests the back-buffer configuration the next flush applies.
    pub fn configure_back_buffer(
        &mut self,
        width: u32,
        height: u32,
        anti_alias: u32,
        depth_and_stencil: bool,
        wants_best_resolution: bool,
        wants_best_resolution_on_browser_zoom: bool,
    ) -> (r: Result<(), Context3DError>)
        ensures
            Self::disposed_rejected(*old(self), *final(self), r),
            !old(self).is_disposed() ==> r is Ok && Self::enqueued(
                *old(self),
                *final(self),
                (Context3DCommand::ConfigureBackBuffer {
                    width,
                    height,
                    anti_alias,
                    depth_and_stencil,
                    wants_best_resolution,
                    wants_best_resolution_on_browser_zoom,
                }),
            ),
    {
        self.enqueue(
            Context3DCommand::ConfigureBackBuffer {
                width,
                height,
                anti_alias,
                depth_and_stencil,
                wants_best_resolution,
                wants_best_resolution_on_browser_zoom,
            },
        )
    }

    /// Queues an upload of vertex data into `buffer`, starting at vertex
    /// `start_vertex`. The payload's shape is validated against the
    /// buffer's metadata before anything is queued; an invalid shape
    /// fails with `InvalidArgument` and leaves the queue unmodified.
    pub fn upload_vertex_buffer_data(
        &mut self,
        buffer: &VertexBuffer3DObject,
        data: Vec<u8>,
        start_vertex: usize,
        data32_per_vertex: u8,
    ) -> (r: Result<(), Context3DError>)
        ensures
            Self::disposed_rejected(*old(self), *final(self), r),
            !old(self).is_disposed() ==> {
                &&& (valid_vertex_upload(
                    *buffer,
                    data@.len(),
                    start_vertex as nat,
                    data32_per_vertex,
                ) ==> r is Ok && Self::enqueued(
                    *old(self),
                    *final(self),
                    (Context3DCommand::UploadVertexData {
                        buffer: buffer.handle,
                        data,
                        start_vertex,
                        data32_per_vertex,
                    }),
                ))
                &&& (!valid_vertex_upload(
                    *buffer,
                    data@.len(),
                    start_vertex as nat,
                    data32_per_vertex,
                ) ==> (r matches Err(Context3DError::InvalidArgument) && *final(self) == *old(
                    self,
                )))
            },
    {
        if self.backend.is_none() {
            return Err(Context3DError::ContextDisposed);
        }
        let stride: usize = 4 * (data32_per_vertex as usize);
        let shape_ok = data32_per_vertex == buffer.data32_per_vertex && data32_per_vertex > 0
            && data.len() % stride == 0 && start_vertex <= buffer.vertex_count as usize
            && data.len() / stride <= buffer.vertex_count as usize - start_vertex;
        if !shape_ok {
            return Err(Context3DError::InvalidArgument);
        }
        self.enqueue(
            Context3DCommand::UploadVertexData {
                buffer: buffer.handle,
                data,
                start_vertex,
                data32_per_vertex,
            },
        )
    }

    /// Queues an upload of 16-bit index data into `buffer`, starting at
    /// index `start_offset`, validating the payload's shape first.
    pub fn upload_index_buffer_data(
        &mut self,
        buffer: &IndexBuffer3DObject,
        data: Vec<u8>,
        start_offset: usize,
    ) -> (r: Result<(), Context3DError>)
        ensures
            Self::disposed_rejected(*old(self), *final(self), r),
            !old(self).is_disposed() ==> {
                &&& (valid_index_upload(*buffer, data@.len(), start_offset as nat) ==> r is Ok
                    && Self::enqueued(
                    *old(self),
                    *final(self),
                    (Context3DCommand::UploadIndexData { buffer: buffer.handle, data, start_offset }),
                ))
                &&& (!valid_index_upload(*buffer, data@.len(), start_offset as nat) ==> (r matches
                Err(Context3DError::InvalidArgument) && *final(self) == *old(self)))
            },
    {
        if self.backend.is_none() {
            return Err(Context3DError::ContextDisposed);
        }
        let shape_ok = data.len() % 2 == 0 && start_offset <= buffer.count as usize && data.len()
            / 2 <= buffer.count as usize - start_offset;
        if !shape_ok {
            return Err(Context3DError::InvalidArgument);
        }
        self.enqueue(
            Context3DCommand::UploadIndexData { buffer: buffer.handle, data, start_offset },
        )
    }

    /// Queues binding `buffer` (or nothing) at attribute slot `index`.
    /// Only the buffer's handle is recorded: discarding the wrapper later
    /// does not affect the queued binding.
    pub fn set_vertex_buffer_at(
        &mut self,
        index: u32,
        buffer: Option<&VertexBuffer3DObject>,
        buffer_offset: u32,
        buffer_format: Context3DVertexBufferFormat,
    ) -> (r: Result<(), Context3DError>)
        ensures
            Self::disposed_rejected(*old(self), *final(self), r),
            !old(self).is_disposed() ==> r is Ok && Self::enqueued(
                *old(self),
                *final(self),
                (Context3DCommand::BindVertexBufferAt {
                    index,
                    buffer: (match buffer {
                        Some(b) => Some(b.handle),
                        None => None,
                    }),
                    buffer_offset,
                    format: buffer_format,
                }),
            ),
    {
        let handle = match buffer {
            Some(b) => Some(b.handle),
            None => None,
        };
        self.enqueue(
            Context3DCommand::BindVertexBufferAt {
                index,
                buffer: handle,
                buffer_offset,
                format: buffer_format,
            },
        )
    }

    /// Queues the upload of a vertex/fragment shader pair into `program`.
    /// The two payloads are opaque byte sequences in the backend's
    /// assembly form; this core records them unparsed.
    pub fn upload_shaders(
        &mut self,
        program: &Program3DObject,
        vertex_shader_agal: Vec<u8>,
        fragment_shader_agal: Vec<u8>,
    ) -> (r: Result<(), Context3DError>)
        ensures
            Self::disposed_rejected(*old(self), *final(self), r),
            !old(self).is_disposed() ==> r is Ok && Self::enqueued(
                *old(self),
                *final(self),
                (Context3DCommand::UploadShaderPair {
                    program: program.handle,
                    vertex_shader_agal,
                    fragment_shader_agal,
                }),
            ),
    {
        self.enqueue(
            Context3DCommand::UploadShaderPair {
                program: program.handle,
                vertex_shader_agal,
                fragment_shader_agal,
            },
        )
    }

    /// Queues binding `program` for subsequent draws.
    pub fn set_program(&mut self, program: &Program3DObject) -> (r: Result<(), Context3DError>)
        ensures
            Self::disposed_rejected(*old(self), *final(self), r),
            !old(self).is_disposed() ==> r is Ok && Self::enqueued(
                *old(self),
                *final(self),
                (Context3DCommand::BindProgram { program: program.handle }),
            ),
    {
        self.enqueue(Context3DCommand::BindProgram { program: program.handle })
    }

    /// Queues a draw of `num_triangles` triangles from `index_buffer`,
    /// starting at `first_index`. An `All` request resolves, at enqueue
    /// time, to the buffer's index count divided by three (truncated); an
    /// exact count is forwarded as given, negative values included.
    pub fn draw_triangles(
        &mut self,
        index_buffer: &IndexBuffer3DObject,
        first_index: u32,
        num_triangles: TriangleCount,
    ) -> (r: Result<(), Context3DError>)
        ensures
            Self::disposed_rejected(*old(self), *final(self), r),
            !old(self).is_disposed() ==> r is Ok && Self::enqueued(
                *old(self),
                *final(self),
                (Context3DCommand::DrawTriangles {
                    index_buffer: index_buffer.handle,
                    first_index,
                    num_triangles: resolved_triangle_count(num_triangles, index_buffer.count),
                }),
            ),
    {
        let resolved: i32 = match num_triangles {
            TriangleCount::All => (index_buffer.count / 3) as i32,
            TriangleCount::Exact(n) => n,
        };
        self.enqueue(
            Context3DCommand::DrawTriangles {
                index_buffer: index_buffer.handle,
                first_index,
                num_triangles: resolved,
            },
        )
    }

    /// Queues an upload of shader constants: column-major register words
    /// carried as raw 32-bit bit patterns, starting at `first_register`.
    pub fn set_program_constants_from_matrix(
        &mut self,
        program_type: ProgramType,
        first_register: u32,
        matrix_raw_data_column_major: Vec<u32>,
    ) -> (r: Result<(), Context3DError>)
        ensures
            Self::disposed_rejected(*old(self), *final(self), r),
            !old(self).is_disposed() ==> r is Ok && Self::enqueued(
                *old(self),
                *final(self),
                (Context3DCommand::SetProgramConstants {
                    program_type,
                    first_register,
                    data: matrix_raw_data_column_major,
                }),
            ),
    {
        self.enqueue(
            Context3DCommand::SetProgramConstants {
                program_type,
                first_register,
                data: matrix_raw_data_column_major,
            },
        )
    }

    /// Queues a change of the culled triangle face.
    pub fn set_culling(&mut self, face: Context3DTriangleFace) -> (r: Result<(), Context3DError>)
        ensures
            Self::disposed_rejected(*old(self), *final(self), r),
            !old(self).is_disposed() ==> r is Ok && Self::enqueued(
                *old(self),
                *final(self),
                (Context3DCommand::SetCulling { face }),
            ),
    {
        self.enqueue(Context3DCommand::SetCulling { face })
    }

    /// Queues a change of the source and destination blend factors.
    pub fn set_blend_factors(
        &mut self,
        source_factor: Context3DBlendFactor,
        destination_factor: Context3DBlendFactor,
    ) -> (r: Result<(), Context3DError>)
        ensures
            Self::disposed_rejected(*old(self), *final(self), r),
            !old(self).is_disposed() ==> r is Ok && Self::enqueued(
                *old(self),
                *final(self),
                (Context3DCommand::SetBlendFactors { source_factor, destination_factor }),
            ),
    {
        self.enqueue(Context3DCommand::SetBlendFactors { source_factor, destination_factor })
    }

    /// Queues redirecting rendering into `texture` (one of its surfaces,
    /// chosen by `surface_selector`).
    pub fn set_render_to_texture(
        &mut self,
        texture: &TextureObject,
        enable_depth_and_stencil: bool,
        anti_alias: u32,
        surface_selector: u32,
    ) -> (r: Result<(), Context3DError>)
        ensures
            Self::disposed_rejected(*old(self), *final(self), r),
            !old(self).is_disposed() ==> r is Ok && Self::enqueued(
                *old(self),
                *final(self),
                (Context3DCommand::SetRenderToTexture {
                    texture: texture.handle,
                    enable_depth_and_stencil,
                    anti_alias,
                    surface_selector,
                }),
            ),
    {
        self.enqueue(
            Context3DCommand::SetRenderToTexture {
                texture: texture.handle,
                enable_depth_and_stencil,
                anti_alias,
                surface_selector,
            },
        )
    }

    /// Queues redirecting rendering back to the back buffer.
    pub fn set_render_to_back_buffer(&mut self) -> (r: Result<(), Context3DError>)
        ensures
            Self::disposed_rejected(*old(self), *final(self), r),
            !old(self).is_disposed() ==> r is Ok && Self::enqueued(
                *old(self),
                *final(self),
                Context3DCommand::SetRenderToBackBuffer,
            ),
    {
        self.enqueue(Context3DCommand::SetRenderToBackBuffer)
    }

    /// Queues a clear of the current render target. Channel and depth
    /// values are the raw bit patterns of the host's 64-bit floats,
    /// recorded untouched.
    pub fn set_clear(
        &mut self,
        red: u64,
        green: u64,
        blue: u64,
        alpha: u64,
        depth: u64,
        stencil: u32,
        mask: u32,
    ) -> (r: Result<(), Context3DError>)
        ensures
            Self::disposed_rejected(*old(self), *final(self), r),
            !old(self).is_disposed() ==> r is Ok && Self::enqueued(
                *old(self),
                *final(self),
                (Context3DCommand::Clear { red, green, blue, alpha, depth, stencil, mask }),
            ),
    {
        self.enqueue(Context3DCommand::Clear { red, green, blue, alpha, depth, stencil, mask })
    }

    /// Queues copying the host bitmap `source` into layer `layer` of the
    /// texture `dest`.
    pub fn copy_bitmap_to_texture(
        &mut self,
        source: BitmapHandle,
        dest: &TextureObject,
        layer: u32,
    ) -> (r: Result<(), Context3DError>)
        ensures
            Self::disposed_rejected(*old(self), *final(self), r),
            !old(self).is_disposed() ==> r is Ok && Self::enqueued(
                *old(self),
                *final(self),
                (Context3DCommand::CopyBitmapToTexture { source, dest: dest.handle, layer }),
            ),
    {
        self.enqueue(Context3DCommand::CopyBitmapToTexture { source, dest: dest.handle, layer })
    }

    /// Queues binding `texture` (or nothing) at sampler `sampler`.
    pub fn set_texture_at(
        &mut self,
        sampler: u32,
        texture: Option<&TextureObject>,
        cube: bool,
    ) -> (r: Result<(), Context3DError>)
        ensures
            Self::disposed_rejected(*old(self), *final(self), r),
            !old(self).is_disposed() ==> r is Ok && Self::enqueued(
                *old(self),
                *final(self),
                (Context3DCommand::BindTextureAt {
                    sampler,
                    texture: (match texture {
                        Some(t) => Some(t.handle),
                        None => None,
                    }),
                    cube,
                }),
            ),
    {
        let handle = match texture {
            Some(t) => Some(t.handle),
            None => None,
        };
        self.enqueue(Context3DCommand::BindTextureAt { sampler, texture: handle, cube })
    }

    /// Queues a change of the depth test: whether depth writes are
    /// enabled and which comparison passes.
    pub fn set_depth_test(
        &mut self,
        depth_mask: bool,
        pass_compare_mode: Context3DCompareMode,
    ) -> (r: Result<(), Context3DError>)
        ensures
            Self::disposed_rejected(*old(self), *final(self), r),
            !old(self).is_disposed() ==> r is Ok && Self::enqueued(
                *old(self),
                *final(self),
                (Context3DCommand::SetDepthTest { depth_mask, pass_compare_mode }),
            ),
    {
        self.enqueue(Context3DCommand::SetDepthTest { depth_mask, pass_compare_mode })
    }

    /// Atomically takes the whole pending sequence, leaves the queue
    /// empty, and submits the taken sequence for in-order execution. On
    /// success every submitted command has executed and, if any were
    /// submitted, a frame is finalized; presenting an empty queue
    /// succeeds and leaves readiness unchanged. On failure the error
    /// identifies the failing command, the commands before it have
    /// executed, and nothing is rolled back — but the queue is empty
    /// either way and the context stays usable.
    pub fn present(&mut self) -> (r: Result<(), Context3DError>)
        ensures
            Self::disposed_rejected(*old(self), *final(self), r),
            !old(self).is_disposed() ==> {
                &&& !final(self).is_disposed()
                &&& final(self).pending() == Seq::<Context3DCommand>::empty()
                &&& final(self).diagnostics() == old(self).diagnostics()
                &&& final(self).next_resource_id() == old(self).next_resource_id()
                &&& (r is Ok <==> old(self).backend_first_failure(old(self).pending()) is None)
                &&& (old(self).pending().len() == 0 ==> r is Ok && final(self).frame_ready() == old(self).frame_ready() && final(self).executed() == old(self).executed())
                &&& (r is Ok ==> final(self).executed() == old(self).executed() + old(self).pending())
                &&& (r is Ok && old(self).pending().len() > 0 ==> final(self).frame_ready())
                &&& (r matches Err(e) ==> (e matches Context3DError::Present(pe) && old(self).backend_first_failure(old(self).pending()) matches Some(i) && pe.failed_index == i
                    && i < old(self).pending().len() && final(self).executed() == old(self).executed() + old(self).pending().take(i as int)))
            },
    {
        match &mut self.backend {
            None => Err(Context3DError::ContextDisposed),
            Some(b) => {
                let mut commands: Vec<Context3DCommand> = Vec::new();
                core::mem::swap(&mut commands, &mut self.queue);
                proof {
                    assert(b.executed() + Seq::<Context3DCommand>::empty() =~= b.executed());
                }
                match b.present_commands(commands) {
                    Ok(()) => Ok(()),
                    Err(e) => Err(Context3DError::Present(e)),
                }
            },
        }
    }

    /// Reports whether the backend holds a finalized frame ready to be
    /// composited into the host scene; always false once disposed.
    pub fn should_render(&self) -> (r: bool)
        ensures
            r == self.frame_ready(),
    {
        match &self.backend {
            None => false,
            Some(b) => b.should_render(),
        }
    }

    /// When a finalized frame is ready, appends a single "draw external
    /// surface" instruction for it to the host scene's output stream,
    /// using the placement transform supplied by the host; otherwise the
    /// stream is left untouched.
    pub fn render<T>(&self, out: &mut Vec<SurfaceDraw<T>>, transform: T) -> (r: Result<
        (),
        Context3DError,
    >)
        ensures
            self.is_disposed() ==> (r matches Err(Context3DError::ContextDisposed) && final(out)@
                == old(out)@),
            !self.is_disposed() ==> {
                &&& r is Ok
                &&& (self.frame_ready() ==> final(out)@ == old(out)@.push(
                    (SurfaceDraw { surface: self.surface()->0, transform }),
                ))
                &&& (!self.frame_ready() ==> final(out)@ == old(out)@)
            },
    {
        match &self.backend {
            None => Err(Context3DError::ContextDisposed),
            Some(b) => {
                if b.should_render() {
                    let surface = b.current_surface_handle();
                    out.push(SurfaceDraw { surface, transform });
                }
                Ok(())
            },
        }
    }
}

} // verus!
