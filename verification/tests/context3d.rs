use stage3d::backend::Context3D;
use stage3d::commands::{
    BufferUsage, Context3DBlendFactor, Context3DCommand, Context3DCompareMode,
    Context3DTextureFormat, Context3DTriangleFace, Context3DVertexBufferFormat, ProgramType,
    TriangleCount,
};
use stage3d::context3d::{Context3DObject, SurfaceDraw};
use stage3d::error::{Context3DError, PresentError, UnsupportedCapability};
use stage3d::handles::{BitmapHandle, SurfaceHandle};
use stage3d::logging_backend::LoggingBackend;

fn fresh() -> Context3DObject<LoggingBackend> {
    Context3DObject::from_context(LoggingBackend::new(SurfaceHandle(99)))
}

#[test]
fn scenario_six_indices_resolves_two_triangles() {
    let mut ctx = fresh();
    let ib = ctx.create_index_buffer(6).unwrap();
    let vb = ctx.create_vertex_buffer(4, 3, BufferUsage::StaticDraw).unwrap();
    ctx.upload_index_buffer_data(&ib, vec![0u8; 12], 0).unwrap();
    ctx.upload_vertex_buffer_data(&vb, vec![0u8; 48], 0, 3).unwrap();
    ctx.set_vertex_buffer_at(0, Some(&vb), 0, Context3DVertexBufferFormat::Float3).unwrap();
    ctx.draw_triangles(&ib, 0, TriangleCount::from_raw(-1)).unwrap();
    ctx.present().unwrap();
    let backend = ctx.dispose().unwrap();
    let log = backend.log();
    assert_eq!(log.len(), 4);
    assert!(matches!(log[0], Context3DCommand::UploadIndexData { .. }));
    assert!(matches!(log[1], Context3DCommand::UploadVertexData { .. }));
    assert!(matches!(log[2], Context3DCommand::BindVertexBufferAt { .. }));
    match &log[3] {
        Context3DCommand::DrawTriangles { index_buffer, first_index, num_triangles } => {
            assert_eq!(*index_buffer, ib.handle);
            assert_eq!(*first_index, 0);
            assert_eq!(*num_triangles, 2);
        },
        other => panic!("expected a draw, found {:?}", other),
    }
}

#[test]
fn flush_executes_in_submission_order() {
    let mut ctx = fresh();
    ctx.set_culling(Context3DTriangleFace::Back).unwrap();
    let tex = ctx
        .create_texture(8, 8, Context3DTextureFormat::Bgra, false, 0)
        .unwrap();
    ctx.set_blend_factors(Context3DBlendFactor::One, Context3DBlendFactor::Zero).unwrap();
    let program = ctx.create_program().unwrap();
    ctx.set_program(&program).unwrap();
    ctx.set_texture_at(2, Some(&tex), false).unwrap();
    ctx.present().unwrap();
    let backend = ctx.dispose().unwrap();
    let log = backend.log();
    let expected = vec![
        Context3DCommand::SetCulling { face: Context3DTriangleFace::Back },
        Context3DCommand::SetBlendFactors {
            source_factor: Context3DBlendFactor::One,
            destination_factor: Context3DBlendFactor::Zero,
        },
        Context3DCommand::BindProgram { program: program.handle },
        Context3DCommand::BindTextureAt { sampler: 2, texture: Some(tex.handle), cube: false },
    ];
    assert_eq!(log, &expected);
}

#[test]
fn draw_triangles_exact_and_sentinel_counts() {
    let mut ctx = fresh();
    let ib7 = ctx.create_index_buffer(7).unwrap();
    let ib0 = ctx.create_index_buffer(0).unwrap();
    ctx.draw_triangles(&ib7, 1, TriangleCount::from_raw(-1)).unwrap();
    ctx.draw_triangles(&ib0, 0, TriangleCount::All).unwrap();
    ctx.draw_triangles(&ib7, 0, TriangleCount::from_raw(-5)).unwrap();
    ctx.draw_triangles(&ib7, 0, TriangleCount::Exact(2)).unwrap();
    let pending = ctx.pending_commands();
    let counts: Vec<i32> = pending
        .iter()
        .map(|c| match c {
            Context3DCommand::DrawTriangles { num_triangles, .. } => *num_triangles,
            other => panic!("expected a draw, found {:?}", other),
        })
        .collect();
    assert_eq!(counts, vec![2, 0, -5, 2]);
}

#[test]
fn disposal_is_terminal_and_reaches_no_backend() {
    let mut ctx = fresh();
    let ib = ctx.create_index_buffer(6).unwrap();
    let backend = ctx.dispose().unwrap();
    assert_eq!(backend.log().len(), 0);
    assert!(ctx.dispose().is_none());
    assert!(matches!(
        ctx.set_culling(Context3DTriangleFace::Front),
        Err(Context3DError::ContextDisposed)
    ));
    assert!(matches!(
        ctx.create_index_buffer(3),
        Err(Context3DError::ContextDisposed)
    ));
    assert!(matches!(
        ctx.create_vertex_buffer(1, 1, BufferUsage::DynamicDraw),
        Err(Context3DError::ContextDisposed)
    ));
    assert!(matches!(
        ctx.create_texture(1, 1, Context3DTextureFormat::Bgra, false, 0),
        Err(Context3DError::ContextDisposed)
    ));
    assert!(matches!(ctx.create_program(), Err(Context3DError::ContextDisposed)));
    assert!(matches!(
        ctx.upload_index_buffer_data(&ib, vec![], 0),
        Err(Context3DError::ContextDisposed)
    ));
    assert!(matches!(
        ctx.draw_triangles(&ib, 0, TriangleCount::All),
        Err(Context3DError::ContextDisposed)
    ));
    assert!(matches!(ctx.present(), Err(Context3DError::ContextDisposed)));
    assert!(matches!(ctx.set_render_to_back_buffer(), Err(Context3DError::ContextDisposed)));
    assert!(!ctx.should_render());
    assert_eq!(ctx.pending_commands().len(), 0);
    let mut out: Vec<SurfaceDraw<i32>> = Vec::new();
    assert!(matches!(ctx.render(&mut out, 5), Err(Context3DError::ContextDisposed)));
    assert!(out.is_empty());
}

#[test]
fn present_on_empty_queue_keeps_should_render() {
    let mut ctx = fresh();
    assert!(!ctx.should_render());
    ctx.present().unwrap();
    assert!(!ctx.should_render());
    ctx.set_culling(Context3DTriangleFace::NoCulling).unwrap();
    ctx.present().unwrap();
    assert!(ctx.should_render());
    ctx.present().unwrap();
    assert!(ctx.should_render());
}

#[test]
fn handle_survives_wrapper_discard_until_present() {
    let mut ctx = fresh();
    let vb = ctx.create_vertex_buffer(10, 3, BufferUsage::StaticDraw).unwrap();
    let expected_handle = vb.handle;
    ctx.set_vertex_buffer_at(0, Some(&vb), 0, Context3DVertexBufferFormat::Float3).unwrap();
    drop(vb);
    ctx.set_culling(Context3DTriangleFace::Back).unwrap();
    ctx.present().unwrap();
    let backend = ctx.dispose().unwrap();
    match &backend.log()[0] {
        Context3DCommand::BindVertexBufferAt { buffer, .. } => {
            assert_eq!(*buffer, Some(expected_handle));
        },
        other => panic!("expected a binding, found {:?}", other),
    }
}

#[test]
fn unsupported_texture_format_still_returns_handle_with_diagnostic() {
    let mut ctx = fresh();
    let tex = ctx
        .create_texture(16, 16, Context3DTextureFormat::BgrPacked, false, 0)
        .unwrap();
    assert_eq!(tex.format, Context3DTextureFormat::BgrPacked);
    assert!(!tex.cube);
    let cube = ctx
        .create_cube_texture(8, Context3DTextureFormat::Compressed, false, 0)
        .unwrap();
    assert!(cube.cube);
    assert_eq!(cube.width, 8);
    let plain = ctx
        .create_texture(4, 4, Context3DTextureFormat::Bgra, true, 1)
        .unwrap();
    assert_ne!(plain.handle, tex.handle);
    let diags = ctx.capability_diagnostics();
    assert_eq!(
        diags,
        &vec![
            UnsupportedCapability { format: Context3DTextureFormat::BgrPacked },
            UnsupportedCapability { format: Context3DTextureFormat::Compressed },
        ]
    );
}

#[test]
fn upload_shape_validation_rejects_before_enqueue() {
    let mut ctx = fresh();
    let vb = ctx.create_vertex_buffer(4, 3, BufferUsage::StaticDraw).unwrap();
    let ib = ctx.create_index_buffer(6).unwrap();
    assert!(matches!(
        ctx.upload_vertex_buffer_data(&vb, vec![0u8; 13], 0, 3),
        Err(Context3DError::InvalidArgument)
    ));
    assert!(matches!(
        ctx.upload_vertex_buffer_data(&vb, vec![0u8; 12], 0, 2),
        Err(Context3DError::InvalidArgument)
    ));
    assert!(matches!(
        ctx.upload_vertex_buffer_data(&vb, vec![0u8; 48], 1, 3),
        Err(Context3DError::InvalidArgument)
    ));
    assert!(matches!(
        ctx.upload_index_buffer_data(&ib, vec![0u8; 3], 0),
        Err(Context3DError::InvalidArgument)
    ));
    assert!(matches!(
        ctx.upload_index_buffer_data(&ib, vec![0u8; 4], 5),
        Err(Context3DError::InvalidArgument)
    ));
    assert_eq!(ctx.pending_commands().len(), 0);
    ctx.upload_vertex_buffer_data(&vb, vec![0u8; 36], 1, 3).unwrap();
    ctx.upload_index_buffer_data(&ib, vec![0u8; 4], 4).unwrap();
    assert_eq!(ctx.pending_commands().len(), 2);
}

#[test]
fn backend_allocation_refusal_surfaces_as_resource_error() {
    let mut backend = LoggingBackend::new(SurfaceHandle(1));
    backend.refuse_allocations();
    let mut ctx = Context3DObject::from_context(backend);
    assert!(matches!(
        ctx.create_index_buffer(4),
        Err(Context3DError::ResourceAllocation)
    ));
    assert!(matches!(
        ctx.create_texture(4, 4, Context3DTextureFormat::Bgra, false, 0),
        Err(Context3DError::ResourceAllocation)
    ));
    // A program slot needs no backend allocation until shaders are uploaded.
    assert!(ctx.create_program().is_ok());
}

#[test]
fn present_failure_is_fail_fast_without_rollback() {
    let mut backend = LoggingBackend::new(SurfaceHandle(1));
    backend.fail_submissions_at(1);
    let mut ctx = Context3DObject::from_context(backend);
    ctx.set_culling(Context3DTriangleFace::Back).unwrap();
    ctx.set_render_to_back_buffer().unwrap();
    ctx.set_depth_test(true, Context3DCompareMode::LessEqual).unwrap();
    let err = ctx.present();
    assert_eq!(
        err,
        Err(Context3DError::Present(PresentError { failed_index: 1 }))
    );
    // The queue was taken whole; the context stays usable.
    assert_eq!(ctx.pending_commands().len(), 0);
    ctx.set_culling(Context3DTriangleFace::Front).unwrap();
    ctx.present().unwrap();
    let backend = ctx.dispose().unwrap();
    // Of the first submission only the command before the failing one
    // executed, with nothing rolled back; the later one-command
    // submission never reached the failing index and ran whole.
    assert_eq!(
        backend.log(),
        &vec![
            Context3DCommand::SetCulling { face: Context3DTriangleFace::Back },
            Context3DCommand::SetCulling { face: Context3DTriangleFace::Front },
        ]
    );
}

#[test]
fn render_appends_one_surface_draw_when_ready() {
    let mut ctx = fresh();
    let mut out: Vec<SurfaceDraw<&str>> = Vec::new();
    ctx.render(&mut out, "placement").unwrap();
    assert!(out.is_empty());
    ctx.configure_back_buffer(640, 480, 0, true, false, false).unwrap();
    ctx.present().unwrap();
    ctx.render(&mut out, "placement").unwrap();
    assert_eq!(out.len(), 1);
    assert_eq!(out[0].surface, SurfaceHandle(99));
    assert_eq!(out[0].transform, "placement");
}

#[test]
fn every_enqueue_op_records_exactly_its_command() {
    let mut ctx = fresh();
    let vb = ctx.create_vertex_buffer(2, 1, BufferUsage::DynamicDraw).unwrap();
    let ib = ctx.create_index_buffer(3).unwrap();
    let tex = ctx.create_texture(4, 4, Context3DTextureFormat::Bgra, true, 0).unwrap();
    let program = ctx.create_program().unwrap();

    ctx.configure_back_buffer(800, 600, 4, true, true, false).unwrap();
    ctx.upload_vertex_buffer_data(&vb, vec![1u8; 8], 0, 1).unwrap();
    ctx.upload_index_buffer_data(&ib, vec![2u8; 6], 0).unwrap();
    ctx.set_vertex_buffer_at(1, None, 0, Context3DVertexBufferFormat::Bytes4).unwrap();
    ctx.upload_shaders(&program, vec![3u8; 2], vec![4u8; 2]).unwrap();
    ctx.set_program(&program).unwrap();
    ctx.draw_triangles(&ib, 0, TriangleCount::All).unwrap();
    ctx.set_program_constants_from_matrix(ProgramType::Vertex, 4, vec![7u32; 16]).unwrap();
    ctx.set_culling(Context3DTriangleFace::FrontAndBack).unwrap();
    ctx.set_blend_factors(
        Context3DBlendFactor::SourceAlpha,
        Context3DBlendFactor::OneMinusSourceAlpha,
    )
    .unwrap();
    ctx.set_render_to_texture(&tex, true, 2, 1).unwrap();
    ctx.set_render_to_back_buffer().unwrap();
    ctx.set_clear(1, 2, 3, 4, 5, 6, 7).unwrap();
    ctx.copy_bitmap_to_texture(BitmapHandle(12), &tex, 0).unwrap();
    ctx.set_texture_at(0, None, true).unwrap();
    ctx.set_depth_test(false, Context3DCompareMode::Always).unwrap();

    let expected = vec![
        Context3DCommand::ConfigureBackBuffer {
            width: 800,
            height: 600,
            anti_alias: 4,
            depth_and_stencil: true,
            wants_best_resolution: true,
            wants_best_resolution_on_browser_zoom: false,
        },
        Context3DCommand::UploadVertexData {
            buffer: vb.handle,
            data: vec![1u8; 8],
            start_vertex: 0,
            data32_per_vertex: 1,
        },
        Context3DCommand::UploadIndexData { buffer: ib.handle, data: vec![2u8; 6], start_offset: 0 },
        Context3DCommand::BindVertexBufferAt {
            index: 1,
            buffer: None,
            buffer_offset: 0,
            format: Context3DVertexBufferFormat::Bytes4,
        },
        Context3DCommand::UploadShaderPair {
            program: program.handle,
            vertex_shader_agal: vec![3u8; 2],
            fragment_shader_agal: vec![4u8; 2],
        },
        Context3DCommand::BindProgram { program: program.handle },
        Context3DCommand::DrawTriangles {
            index_buffer: ib.handle,
            first_index: 0,
            num_triangles: 1,
        },
        Context3DCommand::SetProgramConstants {
            program_type: ProgramType::Vertex,
            first_register: 4,
            data: vec![7u32; 16],
        },
        Context3DCommand::SetCulling { face: Context3DTriangleFace::FrontAndBack },
        Context3DCommand::SetBlendFactors {
            source_factor: Context3DBlendFactor::SourceAlpha,
            destination_factor: Context3DBlendFactor::OneMinusSourceAlpha,
        },
        Context3DCommand::SetRenderToTexture {
            texture: tex.handle,
            enable_depth_and_stencil: true,
            anti_alias: 2,
            surface_selector: 1,
        },
        Context3DCommand::SetRenderToBackBuffer,
        Context3DCommand::Clear { red: 1, green: 2, blue: 3, alpha: 4, depth: 5, stencil: 6, mask: 7 },
        Context3DCommand::CopyBitmapToTexture { source: BitmapHandle(12), dest: tex.handle, layer: 0 },
        Context3DCommand::BindTextureAt { sampler: 0, texture: None, cube: true },
        Context3DCommand::SetDepthTest {
            depth_mask: false,
            pass_compare_mode: Context3DCompareMode::Always,
        },
    ];
    assert_eq!(ctx.pending_commands(), &expected);
    ctx.present().unwrap();
    assert_eq!(ctx.pending_commands().len(), 0);
    let backend = ctx.dispose().unwrap();
    assert_eq!(backend.log(), &expected);
}

#[test]
fn resource_handles_are_never_reused() {
    let mut ctx = fresh();
    let vb = ctx.create_vertex_buffer(1, 1, BufferUsage::StaticDraw).unwrap();
    let ib = ctx.create_index_buffer(1).unwrap();
    let tex = ctx.create_texture(1, 1, Context3DTextureFormat::Bgra, false, 0).unwrap();
    let program = ctx.create_program().unwrap();
    let raw = vec![vb.handle.0, ib.handle.0, tex.handle.0, program.handle.0];
    assert_eq!(raw, vec![0, 1, 2, 3]);
}

#[test]
fn wrapper_metadata_matches_creation_arguments() {
    let mut ctx = fresh();
    let vb = ctx.create_vertex_buffer(10, 3, BufferUsage::StaticDraw).unwrap();
    assert_eq!(vb.vertex_count, 10);
    assert_eq!(vb.data32_per_vertex, 3);
    let ib = ctx.create_index_buffer(6).unwrap();
    assert_eq!(ib.count, 6);
    let tex = ctx.create_texture(32, 16, Context3DTextureFormat::BgraPacked, false, 2).unwrap();
    assert_eq!((tex.width, tex.height), (32, 16));
}
