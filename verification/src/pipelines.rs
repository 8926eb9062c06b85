//! The render graph's nodes and the choices behind each specialized render
//! pipeline of the client: which shaders, bind groups, blending, depth writes,
//! rasterization and sample count a pipeline key leads to.

use crate::input::OpaqueWireframeMode;
use vstd::prelude::*;

verus! {

/// The nodes that the client adds to the 3D render graph.
#[derive(Clone, Copy, Debug, PartialEq, Eq, Hash, Structural)]
pub enum VantablockNode {
    ShadowPass,
    OpaquePass,
    TransparentPass,
    BoundingBoxPass,
}

/// How opaque geometry is rasterized.
#[derive(Clone, Copy, Debug, PartialEq, Eq, Hash, Structural)]
pub enum OpaqueRenderMode {
    Fill,
    Wireframe,
}

impl Default for OpaqueRenderMode {
    /// Opaque geometry is filled unless wireframe mode is on.
    fn default() -> (r: Self)
        ensures
            r == OpaqueRenderMode::Fill,
    {
        OpaqueRenderMode::Fill
    }
}

impl OpaqueRenderMode {
    /// The render mode that the render world extracts from the wireframe toggle.
    pub fn extract_resource(source: &OpaqueWireframeMode) -> (r: Self)
        ensures
            r == (if source.enabled {
                OpaqueRenderMode::Wireframe
            } else {
                OpaqueRenderMode::Fill
            }),
    {
        if source.enabled {
            OpaqueRenderMode::Wireframe
        } else {
            OpaqueRenderMode::Fill
        }
    }
}

/// The colour format of a pipeline's target.
#[derive(Clone, Copy, Debug, PartialEq, Eq, Hash, Structural)]
pub enum ColorFormat {
    /// The view target's HDR format.
    Hdr,
    /// 8-bit sRGB with alpha.
    Rgba8UnormSrgb,
}

/// How a fragment is combined with the target.
#[derive(Clone, Copy, Debug, PartialEq, Eq, Hash, Structural)]
pub enum BlendMode {
    Replace,
    AlphaBlending,
}

/// How primitives are assembled from vertices.
#[derive(Clone, Copy, Debug, PartialEq, Eq, Hash, Structural)]
pub enum Topology {
    TriangleList,
    LineList,
}

/// How polygons are rasterized.
#[derive(Clone, Copy, Debug, PartialEq, Eq, Hash, Structural)]
pub enum PolygonFill {
    Fill,
    Line,
}

/// The vertex and fragment shaders of a pipeline.
#[derive(Clone, Copy, Debug, PartialEq, Eq, Hash, Structural)]
pub enum ShaderProgram {
    Opaque,
    Skybox,
    Transparent,
    Wireframe,
}

/// The bind group layouts that a pipeline binds, in group order.
#[derive(Clone, Copy, Debug, PartialEq, Eq, Hash, Structural)]
pub enum BindGroupKind {
    CameraView,
    Environment,
    TextureArray,
    ChunkStorage,
    WireframeObject,
}

/// Which pipeline a plan describes; each has its own debug label.
#[derive(Clone, Copy, Debug, PartialEq, Eq, Hash, Structural)]
pub enum PipelineKind {
    SkyboxOpaque,
    Opaque,
    WireframeOpaque,
    Transparent,
    Skybox,
    Wireframe,
}

/// The debug label of each pipeline.
pub open spec fn pipeline_label(kind: PipelineKind) -> Seq<char> {
    match kind {
        PipelineKind::SkyboxOpaque => "Skybox Opaque Pipeline"@,
        PipelineKind::Opaque => "Opaque Pipeline"@,
        PipelineKind::WireframeOpaque => "Wireframe Opaque Pipeline"@,
        PipelineKind::Transparent => "Transparent Render Pipeline"@,
        PipelineKind::Skybox => "Skybox Pipeline"@,
        PipelineKind::Wireframe => "Wireframe Pipeline"@,
    }
}

impl PipelineKind {
    /// The pipeline's debug label.
    pub fn label(&self) -> (r: &'static str)
        ensures
            r@ == pipeline_label(*self),
    {
        match self {
            PipelineKind::SkyboxOpaque => "Skybox Opaque Pipeline",
            PipelineKind::Opaque => "Opaque Pipeline",
            PipelineKind::WireframeOpaque => "Wireframe Opaque Pipeline",
            PipelineKind::Transparent => "Transparent Render Pipeline",
            PipelineKind::Skybox => "Skybox Pipeline",
            PipelineKind::Wireframe => "Wireframe Pipeline",
        }
    }
}

/// The depth formats of the client's depth attachments.
#[derive(Clone, Copy, Debug, PartialEq, Eq, Hash, Structural)]
pub enum DepthFormat {
    /// 32-bit float depth: the main depth texture.
    Depth32Float,
}

/// How a fragment's depth is compared with the stored depth.
#[derive(Clone, Copy, Debug, PartialEq, Eq, Hash, Structural)]
pub enum CompareFunction {
    /// Passes when nearer or as near (reverse Z: larger is nearer).
    GreaterEqual,
}

/// Which winding makes a triangle front-facing.
#[derive(Clone, Copy, Debug, PartialEq, Eq, Hash, Structural)]
pub enum FrontFace {
    /// Counter-clockwise.
    Ccw,
}

/// The formats of vertex attributes.
#[derive(Clone, Copy, Debug, PartialEq, Eq, Hash, Structural)]
pub enum VertexFormat {
    /// Three 32-bit floats.
    Float32x3,
}

/// How a vertex buffer advances.
#[derive(Clone, Copy, Debug, PartialEq, Eq, Hash, Structural)]
pub enum VertexStepMode {
    /// One element per vertex.
    Vertex,
}

/// One attribute of a vertex buffer: its format, byte offset in the element
/// and shader location.
#[derive(Clone, Copy, Debug, PartialEq, Eq, Hash, Structural)]
pub struct VertexAttribute {
    pub format: VertexFormat,
    pub offset: u64,
    pub shader_location: u32,
}

/// The layout of a vertex buffer.
pub struct VertexBufferLayout {
    pub array_stride: u64,
    pub step_mode: VertexStepMode,
    pub attributes: Vec<VertexAttribute>,
}

/// The bits of a colour target's write mask: red 1, green 2, blue 4, alpha 8.
pub const COLOR_WRITES_ALL: u32 = 0xF;

/// The layout of the wireframe vertex buffer: each vertex is a position and a
/// colour of three `f32` each, laid out as in C (24 bytes), the position at
/// location 0 and the colour at location 1.
pub open spec fn is_wireframe_vertex_layout(l: VertexBufferLayout) -> bool {
    &&& l.array_stride == 24
    &&& l.step_mode == VertexStepMode::Vertex
    &&& l.attributes@ == seq![
        VertexAttribute { format: VertexFormat::Float32x3, offset: 0, shader_location: 0 },
        VertexAttribute { format: VertexFormat::Float32x3, offset: 12, shader_location: 1 },
    ]
}

/// The layout of the wireframe vertex buffer.
pub fn wireframe_vertex_desc() -> (r: VertexBufferLayout)
    ensures
        is_wireframe_vertex_layout(r),
{
    let attributes = vec![
        VertexAttribute { format: VertexFormat::Float32x3, offset: 0, shader_location: 0 },
        VertexAttribute { format: VertexFormat::Float32x3, offset: 12, shader_location: 1 },
    ];
    let r = VertexBufferLayout { array_stride: 24, step_mode: VertexStepMode::Vertex, attributes };
    assert(r.attributes@ =~= seq![
        VertexAttribute { format: VertexFormat::Float32x3, offset: 0, shader_location: 0 },
        VertexAttribute { format: VertexFormat::Float32x3, offset: 12, shader_location: 1 },
    ]);
    r
}

/// The choices that make up a specialized render pipeline.
pub struct PipelinePlan {
    pub kind: PipelineKind,
    pub layouts: Vec<BindGroupKind>,
    pub shaders: ShaderProgram,
    pub vertex_entry_point: &'static str,
    pub fragment_entry_point: &'static str,
    /// The vertex buffers; empty when the vertex shader builds the vertices
    /// from storage buffers.
    pub vertex_buffers: Vec<VertexBufferLayout>,
    /// The number of colour targets (each with `format`, `blend` and
    /// `color_write_mask`).
    pub color_target_count: u32,
    pub format: ColorFormat,
    pub blend: BlendMode,
    pub color_write_mask: u32,
    pub depth_format: DepthFormat,
    pub depth_write: bool,
    pub depth_compare: CompareFunction,
    pub topology: Topology,
    pub front_face: FrontFace,
    pub polygon_fill: PolygonFill,
    pub cull_back_faces: bool,
    pub msaa_samples: u32,
    pub sample_mask: u64,
    pub alpha_to_coverage: bool,
    pub zero_initialize_workgroup_memory: bool,
}

/// What every pipeline of the client shares: entry points `vs_main` and
/// `fs_main`, one colour target writing all channels, the main depth format
/// compared with greater-or-equal (reverse Z), counter-clockwise front faces,
/// `msaa_samples` samples with a full sample mask and no alpha to coverage,
/// and zero-initialized workgroup memory.
pub open spec fn shared_pipeline_settings(r: PipelinePlan, msaa_samples: u32) -> bool {
    &&& r.vertex_entry_point@ == "vs_main"@
    &&& r.fragment_entry_point@ == "fs_main"@
    &&& r.color_target_count == 1
    &&& r.color_write_mask == COLOR_WRITES_ALL
    &&& r.depth_format == DepthFormat::Depth32Float
    &&& r.depth_compare == CompareFunction::GreaterEqual
    &&& r.front_face == FrontFace::Ccw
    &&& r.msaa_samples == msaa_samples
    &&& r.sample_mask == u64::MAX
    &&& !r.alpha_to_coverage
    &&& r.zero_initialize_workgroup_memory
}

/// A plan with the given choices and the settings all pipelines share.
fn pipeline_plan(
    kind: PipelineKind,
    layouts: Vec<BindGroupKind>,
    shaders: ShaderProgram,
    vertex_buffers: Vec<VertexBufferLayout>,
    format: ColorFormat,
    blend: BlendMode,
    depth_write: bool,
    topology: Topology,
    polygon_fill: PolygonFill,
    cull_back_faces: bool,
    msaa_samples: u32,
) -> (r: PipelinePlan)
    ensures
        r.kind == kind,
        r.layouts@ == layouts@,
        r.shaders == shaders,
        r.vertex_buffers@ == vertex_buffers@,
        r.format == format,
        r.blend == blend,
        r.depth_write == depth_write,
        r.topology == topology,
        r.polygon_fill == polygon_fill,
        r.cull_back_faces == cull_back_faces,
        shared_pipeline_settings(r, msaa_samples),
{
    PipelinePlan {
        kind,
        layouts,
        shaders,
        vertex_entry_point: "vs_main",
        fragment_entry_point: "fs_main",
        vertex_buffers,
        color_target_count: 1,
        format,
        blend,
        color_write_mask: COLOR_WRITES_ALL,
        depth_format: DepthFormat::Depth32Float,
        depth_write,
        depth_compare: CompareFunction::GreaterEqual,
        topology,
        front_face: FrontFace::Ccw,
        polygon_fill,
        cull_back_faces,
        msaa_samples,
        sample_mask: u64::MAX,
        alpha_to_coverage: false,
        zero_initialize_workgroup_memory: true,
    }
}

/// The colour format for a view with or without HDR.
pub open spec fn target_format(hdr: bool) -> ColorFormat {
    if hdr {
        ColorFormat::Hdr
    } else {
        ColorFormat::Rgba8UnormSrgb
    }
}

fn choose_target_format(hdr: bool) -> (r: ColorFormat)
    ensures
        r == target_format(hdr),
{
    if hdr {
        ColorFormat::Hdr
    } else {
        ColorFormat::Rgba8UnormSrgb
    }
}

/// The bind groups of a pass that draws chunk geometry.
pub open spec fn chunk_layouts() -> Seq<BindGroupKind> {
    seq![
        BindGroupKind::CameraView,
        BindGroupKind::Environment,
        BindGroupKind::TextureArray,
        BindGroupKind::ChunkStorage,
    ]
}

/// The bind groups of the sky.
pub open spec fn sky_layouts() -> Seq<BindGroupKind> {
    seq![BindGroupKind::CameraView, BindGroupKind::Environment]
}

/// The bind groups of the wireframe boxes.
pub open spec fn wireframe_layouts() -> Seq<BindGroupKind> {
    seq![BindGroupKind::CameraView, BindGroupKind::Environment, BindGroupKind::WireframeObject]
}

fn chunk_layout_list() -> (r: Vec<BindGroupKind>)
    ensures
        r@ == chunk_layouts(),
{
    let r = vec![
        BindGroupKind::CameraView,
        BindGroupKind::Environment,
        BindGroupKind::TextureArray,
        BindGroupKind::ChunkStorage,
    ];
    assert(r@ =~= chunk_layouts());
    r
}

fn sky_layout_list() -> (r: Vec<BindGroupKind>)
    ensures
        r@ == sky_layouts(),
{
    let r = vec![BindGroupKind::CameraView, BindGroupKind::Environment];
    assert(r@ =~= sky_layouts());
    r
}

/// The key of a specialized opaque pipeline.
#[derive(Clone, Copy, Debug, PartialEq, Eq, Hash, Structural)]
pub struct OpaquePipelineKey {
    pub msaa_samples: u32,
    pub hdr: bool,
    pub mode: OpaqueRenderMode,
    pub is_skybox: bool,
}

impl OpaquePipelineKey {
    /// The two opaque pipelines that each view uses, for its sample count,
    /// HDR setting and the render mode: first the chunk geometry's, then the
    /// sky's.
    pub fn for_view(msaa_samples: u32, hdr: bool, mode: OpaqueRenderMode) -> (r: (
        OpaquePipelineKey,
        OpaquePipelineKey,
    ))
        ensures
            r.0 == (OpaquePipelineKey { msaa_samples, hdr, mode, is_skybox: false }),
            r.1 == (OpaquePipelineKey { msaa_samples, hdr, mode, is_skybox: true }),
    {
        (
            OpaquePipelineKey { msaa_samples, hdr, mode, is_skybox: false },
            OpaquePipelineKey { msaa_samples, hdr, mode, is_skybox: true },
        )
    }
}

/// The opaque pass's pipelines: the sky, drawn first without depth writes,
/// and the chunk geometry, filled or as a wireframe.
pub struct OpaquePipelines;

impl OpaquePipelines {
    /// The pipeline for `key`. The sky ignores the render mode; chunk geometry
    /// writes depth, culls back faces and is rasterized as lines in wireframe
    /// mode. Both replace what is in the target.
    pub fn specialize(&self, key: OpaquePipelineKey) -> (r: PipelinePlan)
        ensures
            r.format == target_format(key.hdr),
            r.blend == BlendMode::Replace,
            shared_pipeline_settings(r, key.msaa_samples),
            r.topology == Topology::TriangleList,
            r.vertex_buffers@.len() == 0,
            key.is_skybox ==> {
                &&& r.kind == PipelineKind::SkyboxOpaque
                &&& r.layouts@ == sky_layouts()
                &&& r.shaders == ShaderProgram::Skybox
                &&& !r.depth_write
                &&& r.polygon_fill == PolygonFill::Fill
                &&& !r.cull_back_faces
            },
            !key.is_skybox ==> {
                &&& r.kind == (match key.mode {
                    OpaqueRenderMode::Fill => PipelineKind::Opaque,
                    OpaqueRenderMode::Wireframe => PipelineKind::WireframeOpaque,
                })
                &&& r.layouts@ == chunk_layouts()
                &&& r.shaders == ShaderProgram::Opaque
                &&& r.depth_write
                &&& r.polygon_fill == (match key.mode {
                    OpaqueRenderMode::Fill => PolygonFill::Fill,
                    OpaqueRenderMode::Wireframe => PolygonFill::Line,
                })
                &&& r.cull_back_faces
            },
    {
        let format = choose_target_format(key.hdr);
        if key.is_skybox {
            pipeline_plan(
                PipelineKind::SkyboxOpaque,
                sky_layout_list(),
                ShaderProgram::Skybox,
                Vec::new(),
                format,
                BlendMode::Replace,
                false,
                Topology::TriangleList,
                PolygonFill::Fill,
                false,
                key.msaa_samples,
            )
        } else {
            let (kind, polygon_fill) = match key.mode {
                OpaqueRenderMode::Fill => (PipelineKind::Opaque, PolygonFill::Fill),
                OpaqueRenderMode::Wireframe => (PipelineKind::WireframeOpaque, PolygonFill::Line),
            };
            pipeline_plan(
                kind,
                chunk_layout_list(),
                ShaderProgram::Opaque,
                Vec::new(),
                format,
                BlendMode::Replace,
                true,
                Topology::TriangleList,
                polygon_fill,
                true,
                key.msaa_samples,
            )
        }
    }
}

/// The key of a specialized transparent pipeline.
#[derive(Clone, Copy, Debug, PartialEq, Eq, Hash, Structural)]
pub struct TransparentPipelineKey {
    pub msaa_samples: u32,
    pub hdr: bool,
}

/// The transparent pass's pipeline.
pub struct TransparentPipeline;

impl TransparentPipeline {
    /// The pipeline for `key`: chunk geometry, alpha blended, back faces
    /// culled, and without depth writes so that what lies behind still shows.
    pub fn specialize(&self, key: TransparentPipelineKey) -> (r: PipelinePlan)
        ensures
            r.kind == PipelineKind::Transparent,
            r.layouts@ == chunk_layouts(),
            r.shaders == ShaderProgram::Transparent,
            r.vertex_buffers@.len() == 0,
            r.format == target_format(key.hdr),
            r.blend == BlendMode::AlphaBlending,
            !r.depth_write,
            r.topology == Topology::TriangleList,
            r.polygon_fill == PolygonFill::Fill,
            r.cull_back_faces,
            shared_pipeline_settings(r, key.msaa_samples),
    {
        pipeline_plan(
            PipelineKind::Transparent,
            chunk_layout_list(),
            ShaderProgram::Transparent,
            Vec::new(),
            choose_target_format(key.hdr),
            BlendMode::AlphaBlending,
            false,
            Topology::TriangleList,
            PolygonFill::Fill,
            true,
            key.msaa_samples,
        )
    }
}

/// The key of a specialized skybox pipeline.
#[derive(Clone, Copy, Debug, PartialEq, Eq, Hash, Structural)]
pub struct SkyboxPipelineKey {
    pub msaa_samples: u32,
    pub hdr: bool,
}

/// The standalone sky pipeline.
pub struct SkyboxPipeline;

impl SkyboxPipeline {
    /// The pipeline for `key`: the sky over the camera and environment
    /// bindings, replacing the target, without depth writes or culling.
    pub fn specialize(&self, key: SkyboxPipelineKey) -> (r: PipelinePlan)
        ensures
            r.kind == PipelineKind::Skybox,
            r.layouts@ == sky_layouts(),
            r.shaders == ShaderProgram::Skybox,
            r.vertex_buffers@.len() == 0,
            r.format == target_format(key.hdr),
            r.blend == BlendMode::Replace,
            !r.depth_write,
            r.topology == Topology::TriangleList,
            r.polygon_fill == PolygonFill::Fill,
            !r.cull_back_faces,
            shared_pipeline_settings(r, key.msaa_samples),
    {
        pipeline_plan(
            PipelineKind::Skybox,
            sky_layout_list(),
            ShaderProgram::Skybox,
            Vec::new(),
            choose_target_format(key.hdr),
            BlendMode::Replace,
            false,
            Topology::TriangleList,
            PolygonFill::Fill,
            false,
            key.msaa_samples,
        )
    }
}

/// The key of a specialized wireframe pipeline.
#[derive(Clone, Copy, Debug, PartialEq, Eq, Hash, Structural)]
pub struct WireframePipelineKey {
    pub msaa_samples: u32,
    pub hdr: bool,
}

/// The pipeline of the debug wireframe boxes.
pub struct WireframePipeline;

impl WireframePipeline {
    /// The pipeline for `key`: line lists from the wireframe vertex buffer,
    /// alpha blended, without depth writes or culling.
    pub fn specialize(&self, key: WireframePipelineKey) -> (r: PipelinePlan)
        ensures
            r.kind == PipelineKind::Wireframe,
            r.layouts@ == wireframe_layouts(),
            r.shaders == ShaderProgram::Wireframe,
            r.vertex_buffers@.len() == 1,
            is_wireframe_vertex_layout(r.vertex_buffers@[0]),
            r.format == target_format(key.hdr),
            r.blend == BlendMode::AlphaBlending,
            !r.depth_write,
            r.topology == Topology::LineList,
            r.polygon_fill == PolygonFill::Line,
            !r.cull_back_faces,
            shared_pipeline_settings(r, key.msaa_samples),
    {
        let layouts = vec![
            BindGroupKind::CameraView,
            BindGroupKind::Environment,
            BindGroupKind::WireframeObject,
        ];
        assert(layouts@ =~= wireframe_layouts());
        pipeline_plan(
            PipelineKind::Wireframe,
            layouts,
            ShaderProgram::Wireframe,
            vec![wireframe_vertex_desc()],
            choose_target_format(key.hdr),
            BlendMode::AlphaBlending,
            false,
            Topology::LineList,
            PolygonFill::Line,
            false,
            key.msaa_samples,
        )
    }
}

} // verus!
