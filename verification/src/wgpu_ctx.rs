//! The frame orchestrator: the targets of a frame, the order of its passes,
//! and the resize protocol that rebuilds everything that depends on the
//! surface size.

use crate::bind::{
    group_views, spec_uniform_group, BindGroup, BindGroupEntry, BindGroupView, BindResource,
    BufferRef, GroupLayout, SamplerRef,
};
use crate::bloom::{pass_views, BloomEffect, BloomModel, ComputePass, ComputePassView, MAX_LEVEL};
use crate::color_correction::{
    spec_identity_uniform, ColorCorrectionEffect, ColorCorrectionModel, ColorCorrectionUniform,
    UniformWrite, UniformWriteView,
};
use crate::buffer::{
    buffer_desc, spec_buffer, spec_index_buffer, spec_vertex_buffer, BufferDesc,
};
use crate::model::{spec_built_material, Model};
use crate::pipeline::{create_pipeline, spec_scene_pipeline, RenderPipelineDesc};
use crate::vertex::{
    square_index_buffer, square_vertex_buffer, SQUARE_INDEX_BYTES, SQUARE_VERTEX_BYTES,
};
use crate::render_pass::{
    spec_depth_attachment, DepthAttachment, DrawCall, IndexFormat, LoadOp, RenderPass,
    RenderPassKind, RenderPassView, StoreOp, CLEAR_DEPTH_FAR,
};
use crate::texture::{
    create_color_target, create_depth_texture, next_generation, spec_color_target,
    spec_depth_texture, spec_next_generation, AssetTexture, TextureDesc, ViewRef, ViewSource,
};
use vstd::prelude::*;

verus! {

/// Number of indices of the quad the scene pass draws.
pub const QUAD_INDEX_COUNT: u32 = 6;

/// One step of a frame. The steps of a frame are carried out in the order
/// in which they are listed; all passes go into one command stream, which
/// is submitted once.
#[derive(Debug, PartialEq, Eq)]
pub enum FrameStep {
    /// Acquire the surface texture for this frame.
    AcquireSurface,
    /// Record the scene pass.
    ScenePass(RenderPass),
    /// Record the bloom passes that fill the chains, in the order given.
    BloomRender(Vec<ComputePass>),
    /// Record the bloom composite.
    BloomApply(ComputePass),
    /// Queue a uniform write.
    WriteUniform(UniformWrite),
    /// Record the colour-correction pass.
    ColorCorrection(RenderPass),
    /// Record the user-interface pass.
    UiOverlay(RenderPass),
    /// Submit the command stream.
    Submit,
    /// Present the surface texture.
    Present,
}

/// A frame step as a mathematical value.
pub enum FrameStepView {
    AcquireSurface,
    ScenePass(RenderPassView),
    BloomRender(Seq<ComputePassView>),
    BloomApply(ComputePassView),
    WriteUniform(UniformWriteView),
    ColorCorrection(RenderPassView),
    UiOverlay(RenderPassView),
    Submit,
    Present,
}

impl View for FrameStep {
    type V = FrameStepView;

    open spec fn view(&self) -> FrameStepView {
        match self {
            FrameStep::AcquireSurface => FrameStepView::AcquireSurface,
            FrameStep::ScenePass(pass) => FrameStepView::ScenePass(pass@),
            FrameStep::BloomRender(passes) => FrameStepView::BloomRender(pass_views(passes@)),
            FrameStep::BloomApply(pass) => FrameStepView::BloomApply(pass@),
            FrameStep::WriteUniform(write) => FrameStepView::WriteUniform(write@),
            FrameStep::ColorCorrection(pass) => FrameStepView::ColorCorrection(pass@),
            FrameStep::UiOverlay(pass) => FrameStepView::UiOverlay(pass@),
            FrameStep::Submit => FrameStepView::Submit,
            FrameStep::Present => FrameStepView::Present,
        }
    }
}

/// The mathematical values of a list of frame steps, in order.
pub open spec fn step_views(steps: Seq<FrameStep>) -> Seq<FrameStepView> {
    steps.map_values(|s: FrameStep| s@)
}

impl FrameStepView {
    /// The step records a pass that binds `view` for reading.
    pub open spec fn reads(self, view: ViewRef) -> bool {
        match self {
            FrameStepView::ScenePass(pass) => pass.reads(view),
            FrameStepView::BloomRender(passes) => exists|j: int|
                0 <= j < passes.len() && (#[trigger] passes[j]).reads(view),
            FrameStepView::BloomApply(pass) => pass.reads(view),
            FrameStepView::ColorCorrection(pass) => pass.reads(view),
            FrameStepView::UiOverlay(pass) => pass.reads(view),
            _ => false,
        }
    }

    /// The step records a pass that writes `view`.
    pub open spec fn writes(self, view: ViewRef) -> bool {
        match self {
            FrameStepView::ScenePass(pass) => pass.writes(view),
            FrameStepView::BloomRender(passes) => exists|j: int|
                0 <= j < passes.len() && (#[trigger] passes[j]).writes(view),
            FrameStepView::BloomApply(pass) => pass.writes(view),
            FrameStepView::ColorCorrection(pass) => pass.writes(view),
            FrameStepView::UiOverlay(pass) => pass.writes(view),
            _ => false,
        }
    }

    /// The step records a pass into the command stream.
    pub open spec fn records(self) -> bool {
        match self {
            FrameStepView::ScenePass(_) => true,
            FrameStepView::BloomRender(_) => true,
            FrameStepView::BloomApply(_) => true,
            FrameStepView::ColorCorrection(_) => true,
            FrameStepView::UiOverlay(_) => true,
            _ => false,
        }
    }
}

/// One step of the resize protocol, carried out in the order listed.
#[derive(Clone, Copy, Debug, PartialEq, Eq, Structural)]
pub enum ResizeStep {
    /// Reconfigure the presentation surface for this size.
    ConfigureSurface { width: u32, height: u32 },
    /// Replace the depth target.
    CreateDepthTarget(TextureDesc),
    /// Replace the scene target.
    CreateSceneTarget(TextureDesc),
    /// Replace the post-process target.
    CreatePostProcessTarget(TextureDesc),
    /// Replace the chains and bind groups of the bloom effect.
    RebuildBloom,
    /// Replace the bind group of the colour correction.
    RebuildColorCorrection,
}

/// What a frame orchestrator is, as plain values.
pub struct WgpuCtxModel {
    /// Width of the surface and of every full-resolution target, at least one.
    pub width: u32,
    /// Height of the surface and of every full-resolution target, at least one.
    pub height: u32,
    /// Generation of the full-resolution targets; a resize moves to the next.
    pub generation: u64,
    pub bloom: BloomModel,
    pub color_correction: ColorCorrectionModel,
    /// Number of models registered so far.
    pub model_count: usize,
}

/// `max(1, extent)`: a surface is never configured with an empty extent.
pub open spec fn spec_clamp_extent(extent: u32) -> u32 {
    if extent < 1 {
        1
    } else {
        extent
    }
}

/// The view of a start-up texture. These are never reallocated.
pub open spec fn spec_asset_view(asset: AssetTexture) -> ViewRef {
    ViewRef { source: ViewSource::Asset(asset), generation: 0 }
}

/// The bind group of the start-up textures: colour noise, volume noise,
/// grain and dirt in slots 0 to 3, the repeating sampler in slot 4.
pub open spec fn spec_terrain_group() -> BindGroupView {
    BindGroupView {
        layout: GroupLayout::Terrain,
        entries: seq![
            BindGroupEntry {
                binding: 0,
                resource: BindResource::Sampled(spec_asset_view(AssetTexture::Noise0)),
            },
            BindGroupEntry {
                binding: 1,
                resource: BindResource::Sampled(spec_asset_view(AssetTexture::Noise1)),
            },
            BindGroupEntry {
                binding: 2,
                resource: BindResource::Sampled(spec_asset_view(AssetTexture::Grain)),
            },
            BindGroupEntry {
                binding: 3,
                resource: BindResource::Sampled(spec_asset_view(AssetTexture::Dirt)),
            },
            BindGroupEntry { binding: 4, resource: BindResource::Sampler(SamplerRef::Repeat) },
        ],
    }
}

impl WgpuCtxModel {
    /// The view of the scene target.
    pub open spec fn scene_view(self) -> ViewRef {
        ViewRef { source: ViewSource::Scene, generation: self.generation }
    }

    /// The view of the post-process target.
    pub open spec fn post_process_view(self) -> ViewRef {
        ViewRef { source: ViewSource::PostProcess, generation: self.generation }
    }

    /// The view of the depth target.
    pub open spec fn depth_view(self) -> ViewRef {
        ViewRef { source: ViewSource::Depth, generation: self.generation }
    }

    /// The view of the surface texture of a frame.
    pub open spec fn surface_view(self) -> ViewRef {
        ViewRef { source: ViewSource::Surface, generation: self.generation }
    }

    /// Sizes and generations agree throughout and the colour correction
    /// reads the current post-process target.
    pub open spec fn consistent(self) -> bool {
        &&& self.width >= 1
        &&& self.height >= 1
        &&& self.bloom.full_width == self.width
        &&& self.bloom.full_height == self.height
        &&& self.bloom.generation == self.generation
        &&& 1 <= self.bloom.max_level <= crate::bloom::MAX_MIP_LEVELS
        &&& self.color_correction.input == self.post_process_view()
    }

    /// The scene pass: colour is cleared to black and depth to the far
    /// plane, the camera, the start-up textures and the voxel settings are
    /// bound at groups 0 to 2, one instance of the quad is drawn, and
    /// colour and depth are stored.
    pub open spec fn scene_pass(self) -> RenderPassView {
        RenderPassView {
            kind: RenderPassKind::Scene,
            target: self.scene_view(),
            color_load: LoadOp::ClearBlack,
            color_store: StoreOp::Store,
            depth: Some(spec_depth_attachment(self.depth_view())),
            groups: seq![
                spec_uniform_group(GroupLayout::Camera, BufferRef::Camera),
                spec_terrain_group(),
                spec_uniform_group(GroupLayout::VoxelSettings, BufferRef::VoxelSettings),
            ],
            draw: DrawCall::Indexed {
                index_count: QUAD_INDEX_COUNT,
                instance_count: 1,
                format: IndexFormat::Uint16,
            },
        }
    }

    /// The user-interface pass: drawn over the surface, whose content is kept.
    pub open spec fn ui_pass(self) -> RenderPassView {
        RenderPassView {
            kind: RenderPassKind::Ui,
            target: self.surface_view(),
            color_load: LoadOp::Load,
            color_store: StoreOp::Store,
            depth: None,
            groups: Seq::empty(),
            draw: DrawCall::UiDrawData,
        }
    }

    /// The model as a frame leaves it: the colour-correction factors are
    /// reset to identity, nothing else changes.
    pub open spec fn drawn(self) -> WgpuCtxModel {
        WgpuCtxModel {
            color_correction: ColorCorrectionModel {
                input: self.color_correction.input,
                uniform: spec_identity_uniform(),
            },
            ..self
        }
    }

    /// The steps of one frame, in order: acquire the surface; scene pass
    /// into the scene target; bloom passes over the scene; bloom composite
    /// into the post-process target; colour-correction uniform; colour
    /// correction into the surface; user interface over the surface;
    /// submit; present.
    pub open spec fn frame(self) -> Seq<FrameStepView> {
        seq![
            FrameStepView::AcquireSurface,
            FrameStepView::ScenePass(self.scene_pass()),
            FrameStepView::BloomRender(self.bloom.schedule(self.scene_view())),
            FrameStepView::BloomApply(
                self.bloom.composite_pass(self.scene_view(), self.post_process_view()),
            ),
            FrameStepView::WriteUniform(self.drawn().color_correction.uniform_write()),
            FrameStepView::ColorCorrection(self.color_correction.pass(self.surface_view())),
            FrameStepView::UiOverlay(self.ui_pass()),
            FrameStepView::Submit,
            FrameStepView::Present,
        ]
    }

    /// The model after a resize to `new_size`: each extent clamped to at
    /// least one, the targets of the next generation, the bloom effect
    /// resized to the clamped size, the colour correction reading the new
    /// post-process target.
    pub open spec fn resized(self, new_size: (u32, u32)) -> WgpuCtxModel {
        let width = spec_clamp_extent(new_size.0);
        let height = spec_clamp_extent(new_size.1);
        let generation = spec_next_generation(self.generation);
        WgpuCtxModel {
            width,
            height,
            generation,
            bloom: self.bloom.resized(width, height),
            color_correction: ColorCorrectionModel {
                input: ViewRef { source: ViewSource::PostProcess, generation },
                uniform: self.color_correction.uniform,
            },
            model_count: self.model_count,
        }
    }

    /// The steps that bring the device to this model after a resize, in
    /// order: surface, depth target, scene target, post-process target,
    /// bloom, colour correction.
    pub open spec fn resize_steps(self) -> Seq<ResizeStep> {
        seq![
            ResizeStep::ConfigureSurface { width: self.width, height: self.height },
            ResizeStep::CreateDepthTarget(spec_depth_texture(self.width, self.height)),
            ResizeStep::CreateSceneTarget(spec_color_target(self.width, self.height)),
            ResizeStep::CreatePostProcessTarget(spec_color_target(self.width, self.height)),
            ResizeStep::RebuildBloom,
            ResizeStep::RebuildColorCorrection,
        ]
    }
}

/// The model of a new orchestrator for a window of the given size.
pub open spec fn spec_initial(width: u32, height: u32) -> WgpuCtxModel {
    let width = spec_clamp_extent(width);
    let height = spec_clamp_extent(height);
    WgpuCtxModel {
        width,
        height,
        generation: 0,
        bloom: BloomModel {
            max_level: MAX_LEVEL,
            full_width: width,
            full_height: height,
            generation: 0,
            settings: crate::bloom::spec_default_settings(),
        },
        color_correction: ColorCorrectionModel {
            input: ViewRef { source: ViewSource::PostProcess, generation: 0 },
            uniform: spec_identity_uniform(),
        },
        model_count: 0,
    }
}

/// The frame orchestrator. It owns the bloom effect and the colour
/// correction, knows the size and generation of the full-resolution
/// targets, and lays out each frame and each resize as an ordered list of
/// steps.
pub struct WgpuCtx {
    width: u32,
    height: u32,
    generation: u64,
    bloom_effect: BloomEffect,
    color_correction_effect: ColorCorrectionEffect,
    model_count: usize,
}

impl View for WgpuCtx {
    type V = WgpuCtxModel;

    closed spec fn view(&self) -> WgpuCtxModel {
        WgpuCtxModel {
            width: self.width,
            height: self.height,
            generation: self.generation,
            bloom: self.bloom_effect@,
            color_correction: self.color_correction_effect@,
            model_count: self.model_count,
        }
    }
}

fn clamp_extent(extent: u32) -> (clamped: u32)
    ensures
        clamped == spec_clamp_extent(extent),
{
    if extent < 1 {
        1
    } else {
        extent
    }
}

impl WgpuCtx {
    #[verifier::type_invariant]
    spec fn well_formed(&self) -> bool {
        self@.consistent()
    }

    /// An orchestrator for a window of `width` by `height`; an empty extent
    /// counts as one.
    pub fn new(width: u32, height: u32) -> (ctx: WgpuCtx)
        ensures
            ctx@ == spec_initial(width, height),
            ctx@.consistent(),
    {
        let width: u32 = clamp_extent(width);
        let height: u32 = clamp_extent(height);
        let bloom_effect = BloomEffect::new(width, height);
        let color_correction_effect = ColorCorrectionEffect::new(
            ViewRef { source: ViewSource::PostProcess, generation: 0 },
        );
        WgpuCtx {
            width,
            height,
            generation: 0,
            bloom_effect,
            color_correction_effect,
            model_count: 0,
        }
    }

    /// Rebuilds everything that depends on the surface size and returns the
    /// steps to carry out on the device, in order. The new state is built
    /// whole and then put in place at once, so the rebuild is complete when
    /// this returns: the next frame sees only the new targets.
    pub fn resize(&mut self, new_size: (u32, u32)) -> (steps: Vec<ResizeStep>)
        ensures
            final(self)@ == old(self)@.resized(new_size),
            final(self)@.consistent(),
            steps@ == final(self)@.resize_steps(),
    {
        proof {
            use_type_invariant(&*self);
        }
        let width: u32 = clamp_extent(new_size.0);
        let height: u32 = clamp_extent(new_size.1);
        let generation: u64 = next_generation(self.generation);

        let mut steps: Vec<ResizeStep> = Vec::new();
        steps.push(ResizeStep::ConfigureSurface { width, height });
        steps.push(ResizeStep::CreateDepthTarget(create_depth_texture(width, height)));
        steps.push(ResizeStep::CreateSceneTarget(create_color_target(width, height)));
        steps.push(ResizeStep::CreatePostProcessTarget(create_color_target(width, height)));
        let bloom_effect = self.bloom_effect.resized(width, height);
        steps.push(ResizeStep::RebuildBloom);
        let color_correction_effect = self.color_correction_effect.resized(
            ViewRef { source: ViewSource::PostProcess, generation },
        );
        steps.push(ResizeStep::RebuildColorCorrection);

        let rebuilt = WgpuCtx {
            width,
            height,
            generation,
            bloom_effect,
            color_correction_effect,
            model_count: self.model_count,
        };
        assert(steps@ =~= rebuilt@.resize_steps());
        *self = rebuilt;
        steps
    }

    /// The scene pass of a frame.
    pub fn scene_pass(&self) -> (pass: RenderPass)
        ensures
            pass@ == self@.scene_pass(),
    {
        let mut terrain: Vec<BindGroupEntry> = Vec::new();
        terrain.push(
            BindGroupEntry { binding: 0, resource: BindResource::Sampled(asset_view(AssetTexture::Noise0)) },
        );
        terrain.push(
            BindGroupEntry { binding: 1, resource: BindResource::Sampled(asset_view(AssetTexture::Noise1)) },
        );
        terrain.push(
            BindGroupEntry { binding: 2, resource: BindResource::Sampled(asset_view(AssetTexture::Grain)) },
        );
        terrain.push(
            BindGroupEntry { binding: 3, resource: BindResource::Sampled(asset_view(AssetTexture::Dirt)) },
        );
        terrain.push(BindGroupEntry { binding: 4, resource: BindResource::Sampler(SamplerRef::Repeat) });
        assert(terrain@ =~= spec_terrain_group().entries);
        let mut groups: Vec<BindGroup> = Vec::new();
        groups.push(BindGroup::uniform(GroupLayout::Camera, BufferRef::Camera));
        groups.push(BindGroup { layout: GroupLayout::Terrain, entries: terrain });
        groups.push(BindGroup::uniform(GroupLayout::VoxelSettings, BufferRef::VoxelSettings));
        assert(group_views(groups@) =~= self@.scene_pass().groups);
        RenderPass {
            kind: RenderPassKind::Scene,
            target: ViewRef { source: ViewSource::Scene, generation: self.generation },
            color_load: LoadOp::ClearBlack,
            color_store: StoreOp::Store,
            depth: Some(
                DepthAttachment {
                    view: ViewRef { source: ViewSource::Depth, generation: self.generation },
                    clear_depth: CLEAR_DEPTH_FAR,
                    store: StoreOp::Store,
                },
            ),
            groups,
            draw: DrawCall::Indexed {
                index_count: QUAD_INDEX_COUNT,
                instance_count: 1,
                format: IndexFormat::Uint16,
            },
        }
    }

    /// The user-interface pass of a frame.
    pub fn ui_pass(&self) -> (pass: RenderPass)
        ensures
            pass@ == self@.ui_pass(),
    {
        let groups: Vec<BindGroup> = Vec::new();
        assert(group_views(groups@) =~= Seq::<BindGroupView>::empty());
        RenderPass {
            kind: RenderPassKind::Ui,
            target: ViewRef { source: ViewSource::Surface, generation: self.generation },
            color_load: LoadOp::Load,
            color_store: StoreOp::Store,
            depth: None,
            groups,
            draw: DrawCall::UiDrawData,
        }
    }

    /// Lays out one frame: resets the colour-correction factors to identity
    /// and returns every step of the frame, from acquiring the surface to
    /// presenting it, in the order in which they must be carried out.
    pub fn draw(&mut self) -> (steps: Vec<FrameStep>)
        ensures
            final(self)@ == old(self)@.drawn(),
            final(self)@.consistent(),
            step_views(steps@) == final(self)@.frame(),
    {
        proof {
            use_type_invariant(&*self);
        }
        let scene = ViewRef { source: ViewSource::Scene, generation: self.generation };
        let post_process = ViewRef { source: ViewSource::PostProcess, generation: self.generation };
        let surface = ViewRef { source: ViewSource::Surface, generation: self.generation };

        let mut steps: Vec<FrameStep> = Vec::new();
        steps.push(FrameStep::AcquireSurface);
        steps.push(FrameStep::ScenePass(self.scene_pass()));
        steps.push(FrameStep::BloomRender(self.bloom_effect.render(scene)));
        steps.push(FrameStep::BloomApply(self.bloom_effect.apply(post_process, scene)));
        let corrected = self.color_correction_effect.with_uniform(
            ColorCorrectionUniform::default(),
        );
        steps.push(FrameStep::WriteUniform(corrected.uniform_write()));
        self.color_correction_effect = corrected;
        steps.push(FrameStep::ColorCorrection(self.color_correction_effect.apply(surface)));
        steps.push(FrameStep::UiOverlay(self.ui_pass()));
        steps.push(FrameStep::Submit);
        steps.push(FrameStep::Present);
        assert(step_views(steps@) =~= self@.frame());
        steps
    }

    /// Registers a model that was read from a file, or takes note that
    /// reading failed. A model that was read has the textures and bind
    /// groups of its materials built and is handed back with its index in
    /// the registry; indices are given out in order, from zero.
    pub fn load_model(&mut self, loaded: Option<Model>) -> (registered: Option<(usize, Model)>)
        requires
            old(self)@.model_count < usize::MAX,
        ensures
            loaded is None ==> registered is None && final(self)@ == old(self)@,
            loaded is Some ==> {
                &&& registered is Some
                &&& registered.unwrap().0 == old(self)@.model_count
                &&& final(self)@ == (WgpuCtxModel {
                    model_count: (old(self)@.model_count + 1) as usize,
                    ..old(self)@
                })
                &&& registered.unwrap().1@.meshes == loaded.unwrap()@.meshes
                &&& registered.unwrap().1@.materials.len() == loaded.unwrap()@.materials.len()
                &&& forall|i: int|
                    0 <= i < loaded.unwrap()@.materials.len() ==> (
                    #[trigger] registered.unwrap().1@.materials[i]) == spec_built_material(
                        loaded.unwrap()@.materials[i],
                        i as usize,
                    )
            },
            final(self)@.consistent(),
    {
        proof {
            use_type_invariant(&*self);
        }
        match loaded {
            Some(mut model) => {
                model.create_bind_groups();
                let index: usize = self.model_count;
                self.model_count = index + 1;
                Some((index, model))
            },
            None => None,
        }
    }

    /// Number of models registered so far.
    pub fn model_count(&self) -> (count: usize)
        ensures
            count == self@.model_count,
    {
        self.model_count
    }

    /// Width of the surface.
    pub fn width(&self) -> (width: u32)
        ensures
            width == self@.width,
            width >= 1,
    {
        proof {
            use_type_invariant(self);
        }
        self.width
    }

    /// Height of the surface.
    pub fn height(&self) -> (height: u32)
        ensures
            height == self@.height,
            height >= 1,
    {
        proof {
            use_type_invariant(self);
        }
        self.height
    }

    /// Generation of the full-resolution targets.
    pub fn generation(&self) -> (generation: u64)
        ensures
            generation == self@.generation,
    {
        self.generation
    }

    /// The bloom effect.
    pub fn bloom_effect(&self) -> (effect: &BloomEffect)
        ensures
            effect@ == self@.bloom,
    {
        &self.bloom_effect
    }

    /// The colour correction.
    pub fn color_correction_effect(&self) -> (effect: &ColorCorrectionEffect)
        ensures
            effect@ == self@.color_correction,
    {
        &self.color_correction_effect
    }

    /// The buffer of the camera uniform.
    pub fn camera_buffer(&self) -> (desc: BufferDesc)
        ensures
            desc == spec_buffer(BufferRef::Camera),
    {
        buffer_desc(BufferRef::Camera)
    }

    /// The buffer of the voxel settings uniform.
    pub fn voxel_settings_buffer(&self) -> (desc: BufferDesc)
        ensures
            desc == spec_buffer(BufferRef::VoxelSettings),
    {
        buffer_desc(BufferRef::VoxelSettings)
    }

    /// The vertex buffer of the quad the scene pass draws.
    pub fn vertex_buffer(&self) -> (desc: BufferDesc)
        ensures
            desc == spec_vertex_buffer(SQUARE_VERTEX_BYTES),
    {
        square_vertex_buffer()
    }

    /// The index buffer of the quad the scene pass draws.
    pub fn vertex_index_buffer(&self) -> (desc: BufferDesc)
        ensures
            desc == spec_index_buffer(SQUARE_INDEX_BYTES),
    {
        square_index_buffer()
    }

    /// The pipeline of the scene pass.
    pub fn render_pipeline(&self) -> (pipeline: RenderPipelineDesc)
        ensures
            pipeline@ == spec_scene_pipeline(),
    {
        create_pipeline()
    }

    /// What to allocate for the depth target.
    pub fn depth_texture(&self) -> (texture: TextureDesc)
        ensures
            texture == spec_depth_texture(self@.width, self@.height),
    {
        proof {
            use_type_invariant(self);
        }
        create_depth_texture(self.width, self.height)
    }

    /// What to allocate for the scene target.
    pub fn render_texture(&self) -> (texture: TextureDesc)
        ensures
            texture == spec_color_target(self@.width, self@.height),
    {
        proof {
            use_type_invariant(self);
        }
        create_color_target(self.width, self.height)
    }

    /// What to allocate for the post-process target.
    pub fn post_process_texture(&self) -> (texture: TextureDesc)
        ensures
            texture == spec_color_target(self@.width, self@.height),
    {
        proof {
            use_type_invariant(self);
        }
        create_color_target(self.width, self.height)
    }
}

/// The view of a start-up texture.
pub fn asset_view(asset: AssetTexture) -> (view: ViewRef)
    ensures
        view == spec_asset_view(asset),
{
    ViewRef { source: ViewSource::Asset(asset), generation: 0 }
}

/// The scene pass reads the four start-up textures and nothing else, and
/// draws into the scene target and the depth target.
pub proof fn lemma_scene_pass_access(model: WgpuCtxModel, view: ViewRef)
    ensures
        model.scene_pass().reads(view) <==> (view.source is Asset && view.generation == 0),
        model.scene_pass().writes(view) <==> (view == model.scene_view() || view
            == model.depth_view()),
        forall|g: int| 0 <= g < 3 ==> (#[trigger] model.scene_pass().groups[g]).fills_layout(),
        model.scene_pass().stores_all(),
        model.scene_pass().depth == Some(spec_depth_attachment(model.depth_view())),
        !model.scene_pass().preserves_target(),
{
    let pass = model.scene_pass();
    let terrain = spec_terrain_group();
    crate::bind::lemma_uniform_group(GroupLayout::Camera, BufferRef::Camera, view);
    crate::bind::lemma_uniform_group(GroupLayout::VoxelSettings, BufferRef::VoxelSettings, view);
    assert(pass.groups[0] == spec_uniform_group(GroupLayout::Camera, BufferRef::Camera));
    assert(pass.groups[1] == terrain);
    assert(pass.groups[2] == spec_uniform_group(
        GroupLayout::VoxelSettings,
        BufferRef::VoxelSettings,
    ));
    assert(terrain.fills_layout());
    if view.source is Asset && view.generation == 0 {
        let slot: int = match view.source->Asset_0 {
            AssetTexture::Noise0 => 0,
            AssetTexture::Noise1 => 1,
            AssetTexture::Grain => 2,
            AssetTexture::Dirt => 3,
        };
        assert(terrain.entries[slot].resource == BindResource::Sampled(view));
        assert(pass.groups[1].reads(view));
    }
    if pass.reads(view) {
        let g = choose|g: int| 0 <= g < pass.groups.len() && (#[trigger] pass.groups[g]).reads(view);
        assert(g == 0 || g == 1 || g == 2);
        let i = choose|i: int|
            0 <= i < terrain.entries.len() && (#[trigger] terrain.entries[i]).resource
                == BindResource::Sampled(view);
        assert(0 <= i < 5);
    }
}

/// The passes of a frame come in one fixed order, every pass is recorded
/// before the one submission, and presenting comes last. A frame acquires
/// the surface once, submits once and presents once.
pub proof fn lemma_frame_order(model: WgpuCtxModel)
    ensures
        model.frame().len() == 9,
        model.frame()[0] is AcquireSurface,
        model.frame()[1] == FrameStepView::ScenePass(model.scene_pass()),
        model.frame()[2] == FrameStepView::BloomRender(model.bloom.schedule(model.scene_view())),
        model.frame()[3] == FrameStepView::BloomApply(
            model.bloom.composite_pass(model.scene_view(), model.post_process_view()),
        ),
        model.frame()[4] is WriteUniform,
        model.frame()[5] == FrameStepView::ColorCorrection(
            model.color_correction.pass(model.surface_view()),
        ),
        model.frame()[6] == FrameStepView::UiOverlay(model.ui_pass()),
        model.frame()[7] is Submit,
        model.frame()[8] is Present,
        forall|k: int| 0 <= k < 9 ==> ((#[trigger] model.frame()[k]).records() ==> 0 < k < 7),
        forall|k: int| 0 <= k < 9 ==> ((#[trigger] model.frame()[k]) is Submit <==> k == 7),
        forall|k: int| 0 <= k < 9 ==> ((#[trigger] model.frame()[k]) is WriteUniform ==> k < 5),
        forall|k: int| 0 <= k < 9 ==> ((#[trigger] model.frame()[k]) is AcquireSurface <==> k == 0),
        forall|k: int| 0 <= k < 9 ==> ((#[trigger] model.frame()[k]) is Present <==> k == 8),
{
}

/// The user interface is drawn over the corrected image: its pass targets
/// the surface that the colour correction has just cleared and filled,
/// keeps what is there, and nothing is recorded in between.
pub proof fn lemma_ui_overlay_keeps_image(model: WgpuCtxModel)
    ensures
        model.ui_pass().preserves_target(),
        model.ui_pass().target == model.surface_view(),
        model.color_correction.pass(model.surface_view()).target == model.surface_view(),
        !model.color_correction.pass(model.surface_view()).preserves_target(),
        model.frame()[5] is ColorCorrection,
        model.frame()[6] is UiOverlay,
        forall|view: ViewRef| !model.ui_pass().reads(view),
        model.ui_pass().stores_all(),
        model.ui_pass().depth is None,
{
    assert forall|view: ViewRef| !model.ui_pass().reads(view) by {
        if model.ui_pass().reads(view) {
            let g = choose|g: int|
                0 <= g < model.ui_pass().groups.len() && (#[trigger] model.ui_pass().groups[g]).reads(
                    view,
                );
            assert(false);
        }
    }
}

/// What a bloom pass writes, the bloom step of the frame writes.
proof fn lemma_bloom_step_writes(model: WgpuCtxModel, j: int, view: ViewRef)
    requires
        0 <= j < model.bloom.schedule_len(),
        model.bloom.schedule(model.scene_view())[j].writes(view),
    ensures
        model.frame()[2].writes(view),
{
    let schedule = model.bloom.schedule(model.scene_view());
    let step = model.frame()[2];
    assert(step == FrameStepView::BloomRender(schedule));
    let passes = step->BloomRender_0;
    assert(0 <= j < passes.len() && passes[j].writes(view));
    assert(step.writes(view));
}

/// Every step of a frame reads only what an earlier step of the same frame
/// wrote, the start-up textures apart. Within the bloom passes, which are
/// one step, the same holds pass by pass.
pub proof fn lemma_frame_reads_follow_writes(model: WgpuCtxModel, k: int, view: ViewRef)
    requires
        model.consistent(),
        0 <= k < 9,
        model.frame()[k].reads(view),
        !(view.source is Asset),
    ensures
        exists|j: int| 0 <= j <= k && (#[trigger] model.frame()[j]).writes(view) && (j < k || k == 2),
        k == 2 && view != model.scene_view() ==> exists|i: int, j: int|
            0 <= j < i < model.bloom.schedule_len() && (#[trigger] model.bloom.schedule(
                model.scene_view(),
            )[i]).reads(view) && (#[trigger] model.bloom.schedule(model.scene_view())[j]).writes(
                view,
            ),
{
    let frame = model.frame();
    let scene = model.scene_view();
    let post = model.post_process_view();
    lemma_scene_pass_access(model, view);
    lemma_ui_overlay_keeps_image(model);
    if k == 2 {
        let schedule = model.bloom.schedule(scene);
        let i = choose|i: int| 0 <= i < schedule.len() && (#[trigger] schedule[i]).reads(view);
        if view == scene {
            assert(frame[1].writes(view));
        } else {
            crate::schedule::lemma_reads_follow_writes(model.bloom, scene, i, view);
            let j = choose|j: int| 0 <= j < i && (#[trigger] schedule[j]).writes(view);
            assert(frame[2].writes(view));
        }
    } else if k == 3 {
        if view == scene {
            assert(frame[1].writes(view));
        } else {
            crate::wiring::lemma_composite_reads_blurred(model.bloom, scene, post, view);
            let schedule = model.bloom.schedule(scene);
            let j = choose|j: int|
                0 <= j < model.bloom.schedule_len() && (#[trigger] schedule[j]).writes(view);
            lemma_bloom_step_writes(model, j, view);
        }
    } else if k == 5 {
        crate::color_correction::lemma_color_correction_access(
            model.color_correction,
            model.surface_view(),
            view,
        );
        crate::wiring::lemma_composite_access(model.bloom, scene, post, view);
        assert(frame[3].writes(view));
    }
}

/// Nothing in a frame is stale: every view a step reads or writes, the
/// start-up textures apart, belongs to the current generation.
pub proof fn lemma_frame_views_current(model: WgpuCtxModel, k: int, view: ViewRef)
    requires
        model.consistent(),
        0 <= k < 9,
        model.frame()[k].reads(view) || model.frame()[k].writes(view),
        !(view.source is Asset),
    ensures
        view.generation == model.generation,
{
    let frame = model.frame();
    let scene = model.scene_view();
    let post = model.post_process_view();
    lemma_scene_pass_access(model, view);
    lemma_ui_overlay_keeps_image(model);
    if k == 2 {
        let schedule = model.bloom.schedule(scene);
        if frame[k].reads(view) {
            let i = choose|i: int| 0 <= i < schedule.len() && (#[trigger] schedule[i]).reads(view);
            crate::schedule::lemma_scheduled_pass_access(model.bloom, scene, i, view);
        } else {
            let i = choose|i: int| 0 <= i < schedule.len() && (#[trigger] schedule[i]).writes(view);
            crate::schedule::lemma_scheduled_pass_access(model.bloom, scene, i, view);
        }
    } else if k == 3 {
        crate::wiring::lemma_composite_access(model.bloom, scene, post, view);
    } else if k == 5 {
        crate::color_correction::lemma_color_correction_access(
            model.color_correction,
            model.surface_view(),
            view,
        );
    }
}

/// A resize leaves the orchestrator consistent at the clamped size, moves
/// every target to a new generation, and carries out its steps in the
/// order surface, depth, scene, post-process, bloom, colour correction.
/// Resizing again to the same size changes nothing but the generation.
pub proof fn lemma_resize_protocol(model: WgpuCtxModel, new_size: (u32, u32))
    requires
        model.consistent(),
    ensures
        ({
            let once = model.resized(new_size);
            let twice = once.resized(new_size);
            &&& once.consistent()
            &&& once.width == spec_clamp_extent(new_size.0)
            &&& once.height == spec_clamp_extent(new_size.1)
            &&& once.generation != model.generation
            &&& once.bloom.half_width() == once.width / 2
            &&& once.bloom.half_height() == once.height / 2
            &&& once.resize_steps().len() == 6
            &&& once.resize_steps()[0] is ConfigureSurface
            &&& once.resize_steps()[1] is CreateDepthTarget
            &&& once.resize_steps()[2] is CreateSceneTarget
            &&& once.resize_steps()[3] is CreatePostProcessTarget
            &&& once.resize_steps()[4] is RebuildBloom
            &&& once.resize_steps()[5] is RebuildColorCorrection
            &&& twice.width == once.width
            &&& twice.height == once.height
            &&& twice.resize_steps() == once.resize_steps()
            &&& twice.generation != once.generation
        }),
{
}

/// Every frame is corrected with the identity: the uniform written ahead
/// of the colour-correction pass holds `1.0` for brightness, contrast and
/// saturation, so the pass hands on the composite as it is.
pub proof fn lemma_frame_corrects_with_identity(model: WgpuCtxModel)
    ensures
        model.frame()[4] == FrameStepView::WriteUniform(
            UniformWriteView {
                buffer: BufferRef::ColorCorrection,
                offset: 0,
                words: seq![crate::bloom::F32_ONE, crate::bloom::F32_ONE, crate::bloom::F32_ONE],
            },
        ),
        model.drawn().color_correction.uniform == spec_identity_uniform(),
        model.drawn().drawn() == model.drawn(),
        model.drawn().frame() == model.frame(),
{
    assert(spec_identity_uniform().spec_words() =~= seq![
        crate::bloom::F32_ONE,
        crate::bloom::F32_ONE,
        crate::bloom::F32_ONE,
    ]);
}

} // verus!
