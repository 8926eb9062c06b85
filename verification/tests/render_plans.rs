use vantablock_client::pipelines::{
    CompareFunction, DepthFormat, FrontFace, PipelinePlan, VertexAttribute, VertexFormat,
    VertexStepMode, COLOR_WRITES_ALL,
};
use vantablock_client::pipelines::{
    BindGroupKind, BlendMode, ColorFormat, OpaquePipelineKey, OpaquePipelines, OpaqueRenderMode,
    PipelineKind, PolygonFill, ShaderProgram, SkyboxPipeline, SkyboxPipelineKey, Topology,
    TransparentPipeline, TransparentPipelineKey, WireframePipeline, WireframePipelineKey,
};
use vantablock_client::wireframe::{plan_wireframe_buffer_size, plan_wireframe_objects};

#[test]
fn opaque_chunk_pipeline_in_fill_mode() {
    let key = OpaquePipelineKey { msaa_samples: 4, hdr: true, mode: OpaqueRenderMode::Fill, is_skybox: false };
    let p = OpaquePipelines.specialize(key);
    assert_eq!(p.kind, PipelineKind::Opaque);
    assert_eq!(p.kind.label(), "Opaque Pipeline");
    assert_eq!(
        p.layouts,
        vec![
            BindGroupKind::CameraView,
            BindGroupKind::Environment,
            BindGroupKind::TextureArray,
            BindGroupKind::ChunkStorage
        ]
    );
    assert_eq!(p.shaders, ShaderProgram::Opaque);
    assert_eq!(p.format, ColorFormat::Hdr);
    assert_eq!(p.blend, BlendMode::Replace);
    assert!(p.depth_write);
    assert_eq!(p.polygon_fill, PolygonFill::Fill);
    assert!(p.cull_back_faces);
    assert_eq!(p.msaa_samples, 4);
}

#[test]
fn opaque_chunk_pipeline_in_wireframe_mode() {
    let key = OpaquePipelineKey { msaa_samples: 1, hdr: false, mode: OpaqueRenderMode::Wireframe, is_skybox: false };
    let p = OpaquePipelines.specialize(key);
    assert_eq!(p.kind.label(), "Wireframe Opaque Pipeline");
    assert_eq!(p.polygon_fill, PolygonFill::Line);
    assert_eq!(p.format, ColorFormat::Rgba8UnormSrgb);
}

#[test]
fn opaque_sky_ignores_the_render_mode() {
    let key = OpaquePipelineKey { msaa_samples: 1, hdr: false, mode: OpaqueRenderMode::Wireframe, is_skybox: true };
    let p = OpaquePipelines.specialize(key);
    assert_eq!(p.kind.label(), "Skybox Opaque Pipeline");
    assert_eq!(p.layouts, vec![BindGroupKind::CameraView, BindGroupKind::Environment]);
    assert_eq!(p.shaders, ShaderProgram::Skybox);
    assert!(!p.depth_write);
    assert_eq!(p.polygon_fill, PolygonFill::Fill);
    assert!(!p.cull_back_faces);
}

#[test]
fn transparent_pipeline_blends_without_depth_writes() {
    let p = TransparentPipeline.specialize(TransparentPipelineKey { msaa_samples: 2, hdr: false });
    assert_eq!(p.kind.label(), "Transparent Render Pipeline");
    assert_eq!(p.blend, BlendMode::AlphaBlending);
    assert!(!p.depth_write);
    assert!(p.cull_back_faces);
    assert_eq!(p.layouts.len(), 4);
    assert_eq!(p.msaa_samples, 2);
}

#[test]
fn skybox_pipeline() {
    let p = SkyboxPipeline.specialize(SkyboxPipelineKey { msaa_samples: 1, hdr: true });
    assert_eq!(p.kind.label(), "Skybox Pipeline");
    assert_eq!(p.format, ColorFormat::Hdr);
    assert_eq!(p.blend, BlendMode::Replace);
    assert!(!p.depth_write);
}

#[test]
fn wireframe_pipeline_draws_lines_from_its_vertex_buffer() {
    let p = WireframePipeline.specialize(WireframePipelineKey { msaa_samples: 1, hdr: false });
    assert_eq!(p.kind.label(), "Wireframe Pipeline");
    assert_eq!(p.topology, Topology::LineList);
    assert_eq!(p.polygon_fill, PolygonFill::Line);
    assert_eq!(p.vertex_buffers.len(), 1);
    let layout = &p.vertex_buffers[0];
    assert_eq!(layout.array_stride, 24);
    assert_eq!(layout.step_mode, VertexStepMode::Vertex);
    assert_eq!(
        layout.attributes,
        vec![
            VertexAttribute { format: VertexFormat::Float32x3, offset: 0, shader_location: 0 },
            VertexAttribute { format: VertexFormat::Float32x3, offset: 12, shader_location: 1 },
        ]
    );
    assert_eq!(
        p.layouts,
        vec![BindGroupKind::CameraView, BindGroupKind::Environment, BindGroupKind::WireframeObject]
    );
}

#[test]
fn wireframe_objects_per_frame() {
    assert_eq!(plan_wireframe_objects(false, 12, false), None);
    assert_eq!(plan_wireframe_objects(false, 12, true), Some(1));
    assert_eq!(plan_wireframe_objects(true, 12, false), Some(12));
    assert_eq!(plan_wireframe_objects(true, 12, true), Some(13));
    assert_eq!(plan_wireframe_objects(true, 0, false), Some(0));
}

#[test]
fn wireframe_buffer_grows_by_half_again() {
    assert_eq!(plan_wireframe_buffer_size(2, 64, 128), None);
    assert_eq!(plan_wireframe_buffer_size(3, 64, 128), Some(288));
    assert_eq!(plan_wireframe_buffer_size(1, 3, 0), Some(5));
    assert_eq!(plan_wireframe_buffer_size(1, 64, 0), Some(96));
}

fn assert_shared_settings(p: &PipelinePlan, samples: u32) {
    assert_eq!(p.vertex_entry_point, "vs_main");
    assert_eq!(p.fragment_entry_point, "fs_main");
    assert_eq!(p.color_target_count, 1);
    assert_eq!(p.color_write_mask, COLOR_WRITES_ALL);
    assert_eq!(COLOR_WRITES_ALL, 0xF);
    assert_eq!(p.depth_format, DepthFormat::Depth32Float);
    assert_eq!(p.depth_compare, CompareFunction::GreaterEqual);
    assert_eq!(p.front_face, FrontFace::Ccw);
    assert_eq!(p.msaa_samples, samples);
    assert_eq!(p.sample_mask, u64::MAX);
    assert!(!p.alpha_to_coverage);
    assert!(p.zero_initialize_workgroup_memory);
}

#[test]
fn every_pipeline_shares_depth_targets_and_sampling() {
    let opaque = OpaquePipelines.specialize(OpaquePipelineKey {
        msaa_samples: 4,
        hdr: false,
        mode: OpaqueRenderMode::Fill,
        is_skybox: false,
    });
    assert_shared_settings(&opaque, 4);
    assert!(opaque.vertex_buffers.is_empty());
    let sky = OpaquePipelines.specialize(OpaquePipelineKey {
        msaa_samples: 2,
        hdr: true,
        mode: OpaqueRenderMode::Fill,
        is_skybox: true,
    });
    assert_shared_settings(&sky, 2);
    let transparent = TransparentPipeline.specialize(TransparentPipelineKey { msaa_samples: 8, hdr: true });
    assert_shared_settings(&transparent, 8);
    assert!(transparent.vertex_buffers.is_empty());
    assert_shared_settings(&SkyboxPipeline.specialize(SkyboxPipelineKey { msaa_samples: 1, hdr: false }), 1);
    assert_shared_settings(&WireframePipeline.specialize(WireframePipelineKey { msaa_samples: 1, hdr: true }), 1);
}

#[test]
fn each_view_uses_a_chunk_key_and_a_sky_key() {
    let (mesh, sky) = OpaquePipelineKey::for_view(4, true, OpaqueRenderMode::Wireframe);
    assert_eq!(mesh, OpaquePipelineKey { msaa_samples: 4, hdr: true, mode: OpaqueRenderMode::Wireframe, is_skybox: false });
    assert_eq!(sky, OpaquePipelineKey { msaa_samples: 4, hdr: true, mode: OpaqueRenderMode::Wireframe, is_skybox: true });
}
