//! The closed set of deferred commands and their argument types.
//!
//! Every command is an immutable record of one requested operation with
//! fully resolved arguments: resource handles and scalars only, never a
//! live reference to a resource wrapper. Floating-point payloads (shader
//! constants, clear colours) are carried as raw bit patterns of the words
//! the marshalling layer hands over; this core never interprets them.

use vstd::prelude::*;

use crate::handles::{
    BitmapHandle, IndexBufferHandle, ProgramHandle, TextureHandle, VertexBufferHandle,
};

verus! {

/// Usage hint given to the backend when a buffer is allocated.
#[derive(Clone, Copy, Debug, PartialEq, Eq, Structural)]
pub enum BufferUsage {
    DynamicDraw,
    StaticDraw,
}

/// Texture storage formats a script may request.
#[derive(Clone, Copy, Debug, PartialEq, Eq, Structural)]
pub enum Context3DTextureFormat {
    Bgra,
    BgraPacked,
    BgrPacked,
    Compressed,
    CompressedAlpha,
    RgbaHalfFloat,
}

/// Per-attribute layout of a vertex buffer binding.
#[derive(Clone, Copy, Debug, PartialEq, Eq, Structural)]
pub enum Context3DVertexBufferFormat {
    Float1,
    Float2,
    Float3,
    Float4,
    Bytes4,
}

/// Which triangle faces are culled before rasterisation.
#[derive(Clone, Copy, Debug, PartialEq, Eq, Structural)]
pub enum Context3DTriangleFace {
    Back,
    Front,
    FrontAndBack,
    NoCulling,
}

/// Blend factor applied to a source or destination colour.
#[derive(Clone, Copy, Debug, PartialEq, Eq, Structural)]
pub enum Context3DBlendFactor {
    DestinationAlpha,
    DestinationColor,
    One,
    OneMinusDestinationAlpha,
    OneMinusDestinationColor,
    OneMinusSourceAlpha,
    OneMinusSourceColor,
    SourceAlpha,
    SourceColor,
    Zero,
}

/// Comparison used by the depth test.
#[derive(Clone, Copy, Debug, PartialEq, Eq, Structural)]
pub enum Context3DCompareMode {
    Always,
    Equal,
    Greater,
    GreaterEqual,
    Less,
    LessEqual,
    Never,
    NotEqual,
}

/// Which shader stage a constant upload targets.
#[derive(Clone, Copy, Debug, PartialEq, Eq, Structural)]
pub enum ProgramType {
    Vertex,
    Fragment,
}

/// Triangle count requested by a draw call, with the sentinel made
/// explicit: `All` derives the count from the bound index buffer, while
/// `Exact` forwards the given count unchanged (negative counts other than
/// the sentinel are deliberately not interpreted here).
#[derive(Clone, Copy, Debug, PartialEq, Eq, Structural)]
pub enum TriangleCount {
    All,
    Exact(i32),
}

impl TriangleCount {
    /// Reads the raw signed count used at the scripting boundary, where
    /// `-1` means "draw every triangle in the index buffer".
    pub fn from_raw(raw: i32) -> (r: TriangleCount)
        ensures
            raw == -1 ==> r == TriangleCount::All,
            raw != -1 ==> r == TriangleCount::Exact(raw),
    {
        if raw == -1 {
            TriangleCount::All
        } else {
            TriangleCount::Exact(raw)
        }
    }
}

/// One immutable, fully resolved instruction awaiting execution.
#[derive(Clone, Debug, PartialEq, Eq)]
pub enum Context3DCommand {
    ConfigureBackBuffer {
        width: u32,
        height: u32,
        anti_alias: u32,
        depth_and_stencil: bool,
        wants_best_resolution: bool,
        wants_best_resolution_on_browser_zoom: bool,
    },
    UploadVertexData {
        buffer: VertexBufferHandle,
        data: Vec<u8>,
        start_vertex: usize,
        data32_per_vertex: u8,
    },
    UploadIndexData {
        buffer: IndexBufferHandle,
        data: Vec<u8>,
        start_offset: usize,
    },
    BindVertexBufferAt {
        index: u32,
        buffer: Option<VertexBufferHandle>,
        buffer_offset: u32,
        format: Context3DVertexBufferFormat,
    },
    UploadShaderPair {
        program: ProgramHandle,
        vertex_shader_agal: Vec<u8>,
        fragment_shader_agal: Vec<u8>,
    },
    BindProgram {
        program: ProgramHandle,
    },
    DrawTriangles {
        index_buffer: IndexBufferHandle,
        first_index: u32,
        num_triangles: i32,
    },
    /// `data` holds the column-major register words as raw 32-bit float
    /// bit patterns; conversion from host floats is the marshalling
    /// layer's concern.
    SetProgramConstants {
        program_type: ProgramType,
        first_register: u32,
        data: Vec<u32>,
    },
    SetCulling {
        face: Context3DTriangleFace,
    },
    SetBlendFactors {
        source_factor: Context3DBlendFactor,
        destination_factor: Context3DBlendFactor,
    },
    SetRenderToTexture {
        texture: TextureHandle,
        enable_depth_and_stencil: bool,
        anti_alias: u32,
        surface_selector: u32,
    },
    SetRenderToBackBuffer,
    /// Channel and depth values are the raw bit patterns of the 64-bit
    /// floats the marshalling layer hands over; this core records them
    /// untouched.
    Clear {
        red: u64,
        green: u64,
        blue: u64,
        alpha: u64,
        depth: u64,
        stencil: u32,
        mask: u32,
    },
    CopyBitmapToTexture {
        source: BitmapHandle,
        dest: TextureHandle,
        layer: u32,
    },
    BindTextureAt {
        sampler: u32,
        texture: Option<TextureHandle>,
        cube: bool,
    },
    SetDepthTest {
        depth_mask: bool,
        pass_compare_mode: Context3DCompareMode,
    },
}

} // verus!
