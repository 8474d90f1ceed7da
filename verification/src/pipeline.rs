//! Pipelines as plain values: which kernel, which bind-group layouts in
//! which order, and the fixed-function state of the render pipelines.

use crate::bind::{GroupLayout, SamplerRef};
use crate::bloom::{BloomModel, PassKind, MAX_MIP_LEVELS};
use crate::color_correction::ColorCorrectionModel;
use crate::render_pass::RenderPassKind;
use crate::texture::{TextureFormat, ViewRef};
use crate::wgpu_ctx::WgpuCtxModel;
use vstd::prelude::*;

verus! {

/// How vertices are assembled into triangles.
#[derive(Clone, Copy, Debug, PartialEq, Eq, Structural)]
pub enum PrimitiveTopology {
    TriangleList,
    TriangleStrip,
}

/// Which faces are discarded.
#[derive(Clone, Copy, Debug, PartialEq, Eq, Structural)]
pub enum CullMode {
    Off,
    Back,
}

/// Which winding makes a face a front face.
#[derive(Clone, Copy, Debug, PartialEq, Eq, Structural)]
pub enum FrontFace {
    /// Counter-clockwise.
    Ccw,
    /// Clockwise.
    Cw,
}

/// When a fragment passes the depth test.
#[derive(Clone, Copy, Debug, PartialEq, Eq, Structural)]
pub enum CompareFunction {
    /// When it is nearer than what is there.
    Less,
    /// When it is nearer than or as near as what is there.
    LessEqual,
    /// Always.
    Always,
}

/// How a pipeline tests and writes depth.
#[derive(Clone, Copy, Debug, PartialEq, Eq, Structural)]
pub struct DepthState {
    /// Format of the depth attachment.
    pub format: TextureFormat,
    /// Whether fragments that pass write their depth.
    pub write_enabled: bool,
    pub compare: CompareFunction,
}

/// The format of the target a render pipeline draws into.
#[derive(Clone, Copy, Debug, PartialEq, Eq, Structural)]
pub enum TargetFormat {
    /// Four 32-bit float channels.
    Rgba32Float,
    /// Whatever format the presentation surface was configured with.
    Surface,
}

/// How a sampler treats coordinates outside the texture.
#[derive(Clone, Copy, Debug, PartialEq, Eq, Structural)]
pub enum AddressMode {
    ClampToEdge,
    Repeat,
}

/// A sampler: one address mode for all axes, linear filtering throughout.
#[derive(Clone, Copy, Debug, PartialEq, Eq, Structural)]
pub struct SamplerDesc {
    pub address_mode: AddressMode,
    pub linear: bool,
}

/// A compute pipeline: a kernel and the layouts of its bind groups, group
/// `g` at index `g`.
#[derive(Debug, PartialEq, Eq)]
pub struct ComputePipelineDesc {
    pub kind: PassKind,
    /// The name of its kernel in the shader.
    pub entry_point: &'static str,
    pub layouts: Vec<GroupLayout>,
}

/// A compute pipeline as a mathematical value.
pub struct ComputePipelineView {
    pub kind: PassKind,
    pub entry_point: Seq<char>,
    pub layouts: Seq<GroupLayout>,
}

impl View for ComputePipelineDesc {
    type V = ComputePipelineView;

    open spec fn view(&self) -> ComputePipelineView {
        ComputePipelineView {
            kind: self.kind,
            entry_point: self.entry_point@,
            layouts: self.layouts@,
        }
    }
}

/// A render pipeline.
#[derive(Debug, PartialEq, Eq)]
pub struct RenderPipelineDesc {
    pub kind: RenderPassKind,
    /// The name of its vertex kernel in the shader.
    pub vertex_entry_point: &'static str,
    /// The name of its fragment kernel in the shader.
    pub fragment_entry_point: &'static str,
    /// The layouts of its bind groups, group `g` at index `g`.
    pub layouts: Vec<GroupLayout>,
    pub topology: PrimitiveTopology,
    pub front_face: FrontFace,
    pub cull_mode: CullMode,
    /// How it tests depth, if it does.
    pub depth: Option<DepthState>,
    pub target: TargetFormat,
    /// Whether it reads the scene vertex buffer.
    pub vertex_buffer: bool,
}

/// A render pipeline as a mathematical value.
pub struct RenderPipelineView {
    pub kind: RenderPassKind,
    pub vertex_entry_point: Seq<char>,
    pub fragment_entry_point: Seq<char>,
    pub layouts: Seq<GroupLayout>,
    pub topology: PrimitiveTopology,
    pub front_face: FrontFace,
    pub cull_mode: CullMode,
    pub depth: Option<DepthState>,
    pub target: TargetFormat,
    pub vertex_buffer: bool,
}

impl View for RenderPipelineDesc {
    type V = RenderPipelineView;

    open spec fn view(&self) -> RenderPipelineView {
        RenderPipelineView {
            kind: self.kind,
            vertex_entry_point: self.vertex_entry_point@,
            fragment_entry_point: self.fragment_entry_point@,
            layouts: self.layouts@,
            topology: self.topology,
            front_face: self.front_face,
            cull_mode: self.cull_mode,
            depth: self.depth,
            target: self.target,
            vertex_buffer: self.vertex_buffer,
        }
    }
}

/// The name of the kernel of each kind of bloom pass.
pub open spec fn spec_entry_point(kind: PassKind) -> Seq<char> {
    match kind {
        PassKind::Prefilter => "prefilter_main"@,
        PassKind::Downsample => "downsample_main"@,
        PassKind::HorizontalBlur => "horizontal_blur_main"@,
        PassKind::VerticalBlur => "vertical_blur_main"@,
        PassKind::Composite => "composite_main"@,
    }
}

/// The layouts of the bind groups of each kind of bloom pass: settings and
/// a texture pair for all, and the blurred inputs for the composite.
pub open spec fn spec_compute_layouts(kind: PassKind) -> Seq<GroupLayout> {
    match kind {
        PassKind::Composite => seq![
            GroupLayout::Settings,
            GroupLayout::TexturePair,
            GroupLayout::CompositeInputs,
        ],
        _ => seq![GroupLayout::Settings, GroupLayout::TexturePair],
    }
}

/// The mathematical values of a list of compute pipelines, in order.
pub open spec fn pipeline_views(pipelines: Seq<ComputePipelineDesc>) -> Seq<ComputePipelineView> {
    pipelines.map_values(|p: ComputePipelineDesc| p@)
}

/// The pipeline of a kind of bloom pass.
pub open spec fn spec_compute_pipeline(kind: PassKind) -> ComputePipelineView {
    ComputePipelineView {
        kind,
        entry_point: spec_entry_point(kind),
        layouts: spec_compute_layouts(kind),
    }
}

/// The kinds of bloom pass, in the order in which their pipelines are
/// listed.
pub open spec fn spec_pass_kinds() -> Seq<PassKind> {
    seq![
        PassKind::Prefilter,
        PassKind::Downsample,
        PassKind::HorizontalBlur,
        PassKind::VerticalBlur,
        PassKind::Composite,
    ]
}

/// Where the pipeline of a kind of bloom pass stands in the list of
/// pipelines.
pub open spec fn spec_pipeline_index(kind: PassKind) -> int {
    match kind {
        PassKind::Prefilter => 0,
        PassKind::Downsample => 1,
        PassKind::HorizontalBlur => 2,
        PassKind::VerticalBlur => 3,
        PassKind::Composite => 4,
    }
}

/// The five pipelines of the bloom effect, one for each kind of pass.
pub open spec fn spec_compute_pipelines() -> Seq<ComputePipelineView> {
    Seq::new(5, |i: int| spec_compute_pipeline(spec_pass_kinds()[i]))
}

/// Depth as the scene pipeline treats it: 32-bit float, written, nearer
/// fragments winning.
pub open spec fn spec_scene_depth_state() -> DepthState {
    DepthState {
        format: TextureFormat::Depth32Float,
        write_enabled: true,
        compare: CompareFunction::Less,
    }
}

/// The scene pipeline: camera, start-up textures and voxel settings; a
/// list of back-face-culled, depth-tested triangles from the vertex buffer
/// into a float target.
pub open spec fn spec_scene_pipeline() -> RenderPipelineView {
    RenderPipelineView {
        kind: RenderPassKind::Scene,
        vertex_entry_point: "vs_main"@,
        fragment_entry_point: "fs_main"@,
        layouts: seq![GroupLayout::Camera, GroupLayout::Terrain, GroupLayout::VoxelSettings],
        topology: PrimitiveTopology::TriangleList,
        front_face: FrontFace::Ccw,
        cull_mode: CullMode::Back,
        depth: Some(spec_scene_depth_state()),
        target: TargetFormat::Rgba32Float,
        vertex_buffer: true,
    }
}

/// The colour-correction pipeline: one bind group; a strip without vertex
/// buffer, culling or depth, into the surface.
pub open spec fn spec_color_correction_pipeline() -> RenderPipelineView {
    RenderPipelineView {
        kind: RenderPassKind::ColorCorrection,
        vertex_entry_point: "vs_main"@,
        fragment_entry_point: "fs_main"@,
        layouts: seq![GroupLayout::ColorCorrection],
        topology: PrimitiveTopology::TriangleStrip,
        front_face: FrontFace::Ccw,
        cull_mode: CullMode::Off,
        depth: None,
        target: TargetFormat::Surface,
        vertex_buffer: false,
    }
}

/// What each sampler is.
pub open spec fn spec_sampler(sampler: SamplerRef) -> SamplerDesc {
    match sampler {
        SamplerRef::Clamp => SamplerDesc { address_mode: AddressMode::ClampToEdge, linear: true },
        SamplerRef::Repeat => SamplerDesc { address_mode: AddressMode::Repeat, linear: true },
    }
}

/// The name of the kernel of a bloom pass.
pub fn entry_point(kind: PassKind) -> (name: &'static str)
    ensures
        name@ == spec_entry_point(kind),
{
    match kind {
        PassKind::Prefilter => "prefilter_main",
        PassKind::Downsample => "downsample_main",
        PassKind::HorizontalBlur => "horizontal_blur_main",
        PassKind::VerticalBlur => "vertical_blur_main",
        PassKind::Composite => "composite_main",
    }
}

/// The name of the vertex kernel of both render pipelines.
pub fn vertex_entry_point() -> (name: &'static str)
    ensures
        name@ == "vs_main"@,
{
    "vs_main"
}

/// The name of the fragment kernel of both render pipelines.
pub fn fragment_entry_point() -> (name: &'static str)
    ensures
        name@ == "fs_main"@,
{
    "fs_main"
}

/// Where the pipeline of a kind of bloom pass stands in the list of
/// pipelines.
pub fn pipeline_index(kind: PassKind) -> (index: usize)
    ensures
        index == spec_pipeline_index(kind),
        0 <= index < 5,
        spec_pass_kinds()[index as int] == kind,
{
    match kind {
        PassKind::Prefilter => 0,
        PassKind::Downsample => 1,
        PassKind::HorizontalBlur => 2,
        PassKind::VerticalBlur => 3,
        PassKind::Composite => 4,
    }
}

/// The five pipelines of the bloom effect, in the order prefilter,
/// downsample, horizontal blur, vertical blur, composite.
pub fn create_compute_pipelines() -> (pipelines: Vec<ComputePipelineDesc>)
    ensures
        pipeline_views(pipelines@) == spec_compute_pipelines(),
{
    let mut pipelines: Vec<ComputePipelineDesc> = Vec::new();
    pipelines.push(create_compute_pipeline(PassKind::Prefilter));
    pipelines.push(create_compute_pipeline(PassKind::Downsample));
    pipelines.push(create_compute_pipeline(PassKind::HorizontalBlur));
    pipelines.push(create_compute_pipeline(PassKind::VerticalBlur));
    pipelines.push(create_compute_pipeline(PassKind::Composite));
    assert(pipeline_views(pipelines@) =~= spec_compute_pipelines());
    pipelines
}

/// The pipeline of a kind of bloom pass.
pub fn create_compute_pipeline(kind: PassKind) -> (pipeline: ComputePipelineDesc)
    ensures
        pipeline@ == spec_compute_pipeline(kind),
{
    let mut layouts: Vec<GroupLayout> = Vec::new();
    layouts.push(GroupLayout::Settings);
    layouts.push(GroupLayout::TexturePair);
    match kind {
        PassKind::Composite => {
            layouts.push(GroupLayout::CompositeInputs);
        },
        _ => {},
    }
    assert(layouts@ =~= spec_compute_layouts(kind));
    ComputePipelineDesc { kind, entry_point: entry_point(kind), layouts }
}

/// The scene pipeline.
pub fn create_pipeline() -> (pipeline: RenderPipelineDesc)
    ensures
        pipeline@ == spec_scene_pipeline(),
{
    let mut layouts: Vec<GroupLayout> = Vec::new();
    layouts.push(GroupLayout::Camera);
    layouts.push(GroupLayout::Terrain);
    layouts.push(GroupLayout::VoxelSettings);
    assert(layouts@ =~= spec_scene_pipeline().layouts);
    RenderPipelineDesc {
        kind: RenderPassKind::Scene,
        vertex_entry_point: vertex_entry_point(),
        fragment_entry_point: fragment_entry_point(),
        layouts,
        topology: PrimitiveTopology::TriangleList,
        front_face: FrontFace::Ccw,
        cull_mode: CullMode::Back,
        depth: Some(
            DepthState {
                format: TextureFormat::Depth32Float,
                write_enabled: true,
                compare: CompareFunction::Less,
            },
        ),
        target: TargetFormat::Rgba32Float,
        vertex_buffer: true,
    }
}

/// The colour-correction pipeline.
pub fn create_color_correction_pipeline() -> (pipeline: RenderPipelineDesc)
    ensures
        pipeline@ == spec_color_correction_pipeline(),
{
    let mut layouts: Vec<GroupLayout> = Vec::new();
    layouts.push(GroupLayout::ColorCorrection);
    assert(layouts@ =~= spec_color_correction_pipeline().layouts);
    RenderPipelineDesc {
        kind: RenderPassKind::ColorCorrection,
        vertex_entry_point: vertex_entry_point(),
        fragment_entry_point: fragment_entry_point(),
        layouts,
        topology: PrimitiveTopology::TriangleStrip,
        front_face: FrontFace::Ccw,
        cull_mode: CullMode::Off,
        depth: None,
        target: TargetFormat::Surface,
        vertex_buffer: false,
    }
}

/// What a sampler is.
pub fn sampler_desc(sampler: SamplerRef) -> (desc: SamplerDesc)
    ensures
        desc == spec_sampler(sampler),
{
    match sampler {
        SamplerRef::Clamp => SamplerDesc { address_mode: AddressMode::ClampToEdge, linear: true },
        SamplerRef::Repeat => SamplerDesc { address_mode: AddressMode::Repeat, linear: true },
    }
}

/// There is one pipeline for each kind of bloom pass and no other: the
/// pipeline at the index of a kind is the pipeline of that kind, with that
/// kind's kernel and layouts, and every pipeline of the list stands at the
/// index of its own kind.
pub proof fn lemma_one_pipeline_per_kind(kind: PassKind, i: int)
    ensures
        spec_compute_pipelines().len() == 5,
        0 <= spec_pipeline_index(kind) < 5,
        spec_compute_pipelines()[spec_pipeline_index(kind)] == spec_compute_pipeline(kind),
        0 <= i < 5 ==> spec_pipeline_index(spec_compute_pipelines()[i].kind) == i,
        spec_compute_pipeline(kind).layouts.len() == if kind == PassKind::Composite {
            3int
        } else {
            2int
        },
        spec_compute_pipeline(kind).entry_point == spec_entry_point(kind),
        spec_compute_pipeline(kind).layouts[0] == GroupLayout::Settings,
        spec_compute_pipeline(kind).layouts[1] == GroupLayout::TexturePair,
        kind == PassKind::Composite ==> spec_compute_pipeline(kind).layouts[2]
            == GroupLayout::CompositeInputs,
{
}

/// Every bloom pass binds, at each group index, a bind group of the layout
/// that the pass's pipeline expects there.
pub proof fn lemma_compute_groups_match_pipeline(
    model: BloomModel,
    scene: ViewRef,
    target: ViewRef,
    k: int,
)
    requires
        1 <= model.max_level <= MAX_MIP_LEVELS,
        0 <= k < model.schedule_len(),
    ensures
        ({
            let pass = model.schedule(scene)[k];
            let layouts = spec_compute_layouts(pass.kind);
            &&& pass.groups.len() == layouts.len()
            &&& forall|g: int|
                0 <= g < layouts.len() ==> (#[trigger] pass.groups[g]).layout == layouts[g]
        }),
        ({
            let pass = model.composite_pass(scene, target);
            let layouts = spec_compute_layouts(pass.kind);
            &&& pass.groups.len() == layouts.len()
            &&& forall|g: int|
                0 <= g < layouts.len() ==> (#[trigger] pass.groups[g]).layout == layouts[g]
        }),
{
}

/// The scene pass and the colour-correction pass bind, at each group index,
/// a bind group of the layout that their pipeline expects there, and have
/// a depth attachment exactly when their pipeline tests depth. The scene
/// pipeline's formats are those of the scene and depth targets; the
/// colour-correction pipeline's one target has the format of the surface.
pub proof fn lemma_render_groups_match_pipeline(
    ctx: WgpuCtxModel,
    effect: ColorCorrectionModel,
    target: ViewRef,
)
    ensures
        ({
            let pass = ctx.scene_pass();
            let layouts = spec_scene_pipeline().layouts;
            &&& pass.kind == spec_scene_pipeline().kind
            &&& pass.groups.len() == layouts.len()
            &&& forall|g: int|
                0 <= g < layouts.len() ==> (#[trigger] pass.groups[g]).layout == layouts[g]
            &&& pass.depth is Some <==> spec_scene_pipeline().depth is Some
            &&& spec_scene_pipeline().depth.unwrap().format == crate::texture::spec_depth_texture(
                ctx.width,
                ctx.height,
            ).format
            &&& spec_scene_pipeline().target == TargetFormat::Rgba32Float
            &&& crate::texture::spec_color_target(ctx.width, ctx.height).format
                == TextureFormat::Rgba32Float
        }),
        ({
            let pass = effect.pass(target);
            let layouts = spec_color_correction_pipeline().layouts;
            &&& pass.kind == spec_color_correction_pipeline().kind
            &&& pass.groups.len() == layouts.len()
            &&& forall|g: int|
                0 <= g < layouts.len() ==> (#[trigger] pass.groups[g]).layout == layouts[g]
            &&& pass.depth is Some <==> spec_color_correction_pipeline().depth is Some
            &&& spec_color_correction_pipeline().target == TargetFormat::Surface
        }),
{
}

} // verus!
