//! The bloom effect: three mip chains, the bind groups that wire them
//! together, and the ordered compute passes of one frame.

use crate::bind::{
    group_views, spec_texture_pair, spec_uniform_group, BindGroup, BindGroupEntry, BindGroupView,
    BindResource, BufferRef, GroupLayout, SamplerRef, COMPOSITE_SLOTS,
};
use crate::mip::{
    dispatch_count, mip_dim, spec_dispatch_count, spec_mip_dim, spec_mip_ref, MipChain,
    MipChainModel,
};
use crate::buffer::{buffer_desc, spec_buffer, spec_uniform_buffer, BufferDesc};
use crate::pipeline::{
    create_compute_pipelines, pipeline_views, spec_compute_pipeline, spec_compute_pipelines,
    spec_pass_kinds, ComputePipelineDesc, ComputePipelineView,
};
use crate::texture::{next_generation, spec_next_generation, ChainKind, ViewRef};
use vstd::prelude::*;

verus! {

/// Depth of the mip chains unless the caller asks for another.
pub const MAX_LEVEL: u32 = 8;

/// Largest chain depth accepted: a 32-bit extent has no more distinct levels.
pub const MAX_MIP_LEVELS: u32 = 32;

/// Bit pattern of the single-precision float `1.0`.
pub const F32_ONE: u32 = 0x3F80_0000;

/// Bit pattern of the single-precision float nearest to `0.9`.
pub const F32_NINE_TENTHS: u32 = 0x3F66_6666;

/// `blur_type` value that selects the Gaussian kernel.
pub const BLUR_GAUSSIAN: u32 = 0;

/// `blur_type` value that selects the box kernel.
pub const BLUR_BOX: u32 = 1;

/// The uniform block of the bloom shaders. The three thresholds are
/// single-precision floats, held as their bit patterns so that the block is
/// exactly the sixteen bytes the shader reads.
#[derive(Clone, Copy, Debug, PartialEq, Eq, Structural)]
pub struct BloomSettings {
    /// Brightness below which a texel contributes nothing.
    pub min_brightness: u32,
    /// Brightness from which a texel contributes fully.
    pub max_brightness: u32,
    /// Blur radius, in texels of the level being blurred.
    pub blur_radius: u32,
    /// Kernel selector: [`BLUR_GAUSSIAN`] or [`BLUR_BOX`].
    pub blur_type: u32,
}

/// Thresholds 0.9 and 1.0, radius 1.0, Gaussian kernel.
pub open spec fn spec_default_settings() -> BloomSettings {
    BloomSettings {
        min_brightness: F32_NINE_TENTHS,
        max_brightness: F32_ONE,
        blur_radius: F32_ONE,
        blur_type: BLUR_GAUSSIAN,
    }
}

impl Default for BloomSettings {
    fn default() -> (settings: Self)
        ensures
            settings == spec_default_settings(),
    {
        BloomSettings {
            min_brightness: F32_NINE_TENTHS,
            max_brightness: F32_ONE,
            blur_radius: F32_ONE,
            blur_type: BLUR_GAUSSIAN,
        }
    }
}

impl BloomSettings {
    /// The block as the four 32-bit words the shader reads, in field order.
    pub open spec fn spec_words(self) -> Seq<u32> {
        seq![self.min_brightness, self.max_brightness, self.blur_radius, self.blur_type]
    }

    /// The block as the four 32-bit words the shader reads, in field order.
    pub fn words(&self) -> (words: Vec<u32>)
        ensures
            words@ == self.spec_words(),
    {
        let mut words: Vec<u32> = Vec::new();
        words.push(self.min_brightness);
        words.push(self.max_brightness);
        words.push(self.blur_radius);
        words.push(self.blur_type);
        assert(words@ =~= self.spec_words());
        words
    }
}

/// The five compute kernels of the effect.
#[derive(Clone, Copy, Debug, PartialEq, Eq, Structural)]
pub enum PassKind {
    /// Bright-pass filter of the scene into downsample level 0.
    Prefilter,
    /// Halves downsample level `i - 1` into level `i`.
    Downsample,
    /// Blurs a downsample level along x.
    HorizontalBlur,
    /// Blurs a horizontally blurred level along y.
    VerticalBlur,
    /// Adds the blurred levels to the scene.
    Composite,
}

/// One compute pass to record: its kernel, the bind groups in the order of
/// their group index, and the workgroup grid to dispatch.
#[derive(Debug, PartialEq, Eq)]
pub struct ComputePass {
    pub kind: PassKind,
    /// The mip level the pass writes; zero for the prefilter and the composite.
    pub level: u32,
    /// `groups[g]` is bound at group index `g`.
    pub groups: Vec<BindGroup>,
    pub dispatch_x: u32,
    pub dispatch_y: u32,
    pub dispatch_z: u32,
}

/// A compute pass as a mathematical value.
pub struct ComputePassView {
    pub kind: PassKind,
    pub level: u32,
    pub groups: Seq<BindGroupView>,
    pub dispatch_x: u32,
    pub dispatch_y: u32,
    pub dispatch_z: u32,
}

impl View for ComputePass {
    type V = ComputePassView;

    open spec fn view(&self) -> ComputePassView {
        ComputePassView {
            kind: self.kind,
            level: self.level,
            groups: group_views(self.groups@),
            dispatch_x: self.dispatch_x,
            dispatch_y: self.dispatch_y,
            dispatch_z: self.dispatch_z,
        }
    }
}

/// The mathematical values of a list of passes, in order.
pub open spec fn pass_views(passes: Seq<ComputePass>) -> Seq<ComputePassView> {
    passes.map_values(|p: ComputePass| p@)
}

impl ComputePassView {
    /// The two passes run the same kernel over the same grid with
    /// identically wired bind groups.
    pub open spec fn same_wiring(self, other: ComputePassView) -> bool {
        &&& self.kind == other.kind
        &&& self.level == other.level
        &&& self.dispatch_x == other.dispatch_x
        &&& self.dispatch_y == other.dispatch_y
        &&& self.dispatch_z == other.dispatch_z
        &&& self.groups.len() == other.groups.len()
        &&& forall|g: int|
            0 <= g < self.groups.len() ==> (#[trigger] self.groups[g]).same_wiring(other.groups[g])
    }

    /// Some bind group of the pass binds `view` for reading.
    pub open spec fn reads(self, view: ViewRef) -> bool {
        exists|g: int| 0 <= g < self.groups.len() && (#[trigger] self.groups[g]).reads(view)
    }

    /// Some bind group of the pass binds `view` for writing.
    pub open spec fn writes(self, view: ViewRef) -> bool {
        exists|g: int| 0 <= g < self.groups.len() && (#[trigger] self.groups[g]).writes(view)
    }
}

/// The two directions of the separable blur.
#[derive(Clone, Copy, Debug, PartialEq, Eq, Structural)]
pub enum BlurAxis {
    Horizontal,
    Vertical,
}

/// What a bloom effect is, as plain values. Chains, bind groups and passes
/// are all functions of these.
pub struct BloomModel {
    /// Number of levels of each chain, from 1 to [`MAX_MIP_LEVELS`].
    pub max_level: u32,
    /// Width of the scene and of the composite target.
    pub full_width: u32,
    /// Height of the scene and of the composite target.
    pub full_height: u32,
    /// Generation of the chains; a resize moves to the next one.
    pub generation: u64,
    pub settings: BloomSettings,
}

/// The smaller of the chain depth and the number of composite slots.
pub open spec fn spec_composite_levels(max_level: u32) -> u32 {
    if max_level < COMPOSITE_SLOTS {
        max_level
    } else {
        COMPOSITE_SLOTS
    }
}

impl BloomModel {
    /// Half the full width, rounded down: the chains run at half resolution.
    pub open spec fn half_width(self) -> u32 {
        self.full_width / 2
    }

    /// Half the full height, rounded down.
    pub open spec fn half_height(self) -> u32 {
        self.full_height / 2
    }

    /// Width of the base level of the chains: the half width, at least one.
    pub open spec fn base_width(self) -> u32 {
        if self.half_width() < 1 {
            1
        } else {
            self.half_width()
        }
    }

    /// Height of the base level of the chains: the half height, at least one.
    pub open spec fn base_height(self) -> u32 {
        if self.half_height() < 1 {
            1
        } else {
            self.half_height()
        }
    }

    /// Width of level `level`: `max(1, half_width >> level)`.
    pub open spec fn level_width(self, level: u32) -> nat {
        spec_mip_dim(self.half_width() as nat, level as nat)
    }

    /// Height of level `level`: `max(1, half_height >> level)`.
    pub open spec fn level_height(self, level: u32) -> nat {
        spec_mip_dim(self.half_height() as nat, level as nat)
    }

    /// The chain of the given kind. All three have the same size and depth.
    pub open spec fn chain(self, kind: ChainKind) -> MipChainModel {
        MipChainModel {
            kind,
            generation: self.generation,
            width: self.base_width(),
            height: self.base_height(),
            levels: self.max_level,
        }
    }

    /// The reference to level `level` of the chain of the given kind.
    pub open spec fn mip_ref(self, kind: ChainKind, level: u32) -> ViewRef {
        spec_mip_ref(kind, self.generation, level)
    }

    /// The settings uniform, bound at group 0 of every pass.
    pub open spec fn settings_group(self) -> BindGroupView {
        spec_uniform_group(GroupLayout::Settings, BufferRef::BloomSettings)
    }

    /// Wiring of the prefilter: scene in, downsample level 0 out.
    pub open spec fn prefilter_group(self, scene: ViewRef) -> BindGroupView {
        spec_texture_pair(scene, self.mip_ref(ChainKind::Downsample, 0))
    }

    /// Wiring of the downsample into `level`, for `level` from 1: the level
    /// above in, this level out.
    pub open spec fn downsample_group(self, level: u32) -> BindGroupView {
        spec_texture_pair(
            self.mip_ref(ChainKind::Downsample, (level - 1) as u32),
            self.mip_ref(ChainKind::Downsample, level),
        )
    }

    /// Wiring of the horizontal blur of `level`: downsample level in,
    /// horizontal level out.
    pub open spec fn horizontal_group(self, level: u32) -> BindGroupView {
        spec_texture_pair(
            self.mip_ref(ChainKind::Downsample, level),
            self.mip_ref(ChainKind::HorizontalBlur, level),
        )
    }

    /// Wiring of the vertical blur of `level`: horizontal level in, vertical
    /// level out.
    pub open spec fn vertical_group(self, level: u32) -> BindGroupView {
        spec_texture_pair(
            self.mip_ref(ChainKind::HorizontalBlur, level),
            self.mip_ref(ChainKind::VerticalBlur, level),
        )
    }

    /// The persistent downsample groups: index `i` wires level `i + 1`.
    pub open spec fn downsample_groups(self) -> Seq<BindGroupView> {
        Seq::new((self.max_level - 1) as nat, |i: int| self.downsample_group((i + 1) as u32))
    }

    /// The persistent horizontal-blur groups, one per level.
    pub open spec fn horizontal_groups(self) -> Seq<BindGroupView> {
        Seq::new(self.max_level as nat, |i: int| self.horizontal_group(i as u32))
    }

    /// The persistent vertical-blur groups, one per level.
    pub open spec fn vertical_groups(self) -> Seq<BindGroupView> {
        Seq::new(self.max_level as nat, |i: int| self.vertical_group(i as u32))
    }

    /// Number of blurred levels the composite reads: `min(max_level, 8)`.
    pub open spec fn composite_levels(self) -> u32 {
        spec_composite_levels(self.max_level)
    }

    /// Wiring of the composite's inputs: vertical-blur level `i` in slot `i`
    /// for each level read, then the clamping sampler in slot 8.
    pub open spec fn composite_inputs(self) -> BindGroupView {
        BindGroupView {
            layout: GroupLayout::CompositeInputs,
            entries: Seq::new(
                (self.composite_levels() + 1) as nat,
                |i: int|
                    if i < self.composite_levels() {
                        BindGroupEntry {
                            binding: i as u32,
                            resource: BindResource::Sampled(
                                self.mip_ref(ChainKind::VerticalBlur, i as u32),
                            ),
                        }
                    } else {
                        BindGroupEntry {
                            binding: COMPOSITE_SLOTS,
                            resource: BindResource::Sampler(SamplerRef::Clamp),
                        }
                    },
            ),
        }
    }

    /// Wiring of the composite's targets: scene in, `target` out.
    pub open spec fn composite_targets(self, scene: ViewRef, target: ViewRef) -> BindGroupView {
        spec_texture_pair(scene, target)
    }

    /// A pass over level `level` of the chains with the given wiring.
    pub open spec fn level_pass(self, kind: PassKind, level: u32, wiring: BindGroupView)
        -> ComputePassView {
        ComputePassView {
            kind,
            level,
            groups: seq![self.settings_group(), wiring],
            dispatch_x: spec_dispatch_count(self.level_width(level)) as u32,
            dispatch_y: spec_dispatch_count(self.level_height(level)) as u32,
            dispatch_z: 1,
        }
    }

    /// The prefilter pass: one dispatch over level 0.
    pub open spec fn prefilter_pass(self, scene: ViewRef) -> ComputePassView {
        self.level_pass(PassKind::Prefilter, 0, self.prefilter_group(scene))
    }

    /// The downsample pass into `level`.
    pub open spec fn downsample_pass(self, level: u32) -> ComputePassView {
        self.level_pass(PassKind::Downsample, level, self.downsample_group(level))
    }

    /// The blur pass of `level` along `axis`.
    pub open spec fn blur_pass(self, axis: BlurAxis, level: u32) -> ComputePassView {
        match axis {
            BlurAxis::Horizontal => self.level_pass(
                PassKind::HorizontalBlur,
                level,
                self.horizontal_group(level),
            ),
            BlurAxis::Vertical => self.level_pass(
                PassKind::VerticalBlur,
                level,
                self.vertical_group(level),
            ),
        }
    }

    /// The composite pass: one dispatch over the full resolution.
    pub open spec fn composite_pass(self, scene: ViewRef, target: ViewRef) -> ComputePassView {
        ComputePassView {
            kind: PassKind::Composite,
            level: 0,
            groups: seq![
                self.settings_group(),
                self.composite_targets(scene, target),
                self.composite_inputs(),
            ],
            dispatch_x: spec_dispatch_count(self.full_width as nat) as u32,
            dispatch_y: spec_dispatch_count(self.full_height as nat) as u32,
            dispatch_z: 1,
        }
    }

    /// The buffer of the settings uniform: one word for each word of the
    /// settings.
    pub open spec fn settings_buffer(self) -> BufferDesc {
        spec_uniform_buffer(self.settings.spec_words().len())
    }

    /// The compute pipelines of the effect: one for each kind of pass.
    pub open spec fn pipelines(self) -> Seq<ComputePipelineView> {
        spec_compute_pipelines()
    }

    /// Number of passes that precede the composite: the prefilter, one
    /// downsample for each level but the first, two blurs for each level.
    pub open spec fn schedule_len(self) -> nat {
        (3 * self.max_level) as nat
    }

    /// The pass at position `k` of the schedule. Position 0 is the
    /// prefilter; positions `1 .. max_level` are the downsamples into levels
    /// `1 .. max_level`; after them come, level by level, the horizontal and
    /// then the vertical blur.
    pub open spec fn scheduled_pass(self, scene: ViewRef, k: int) -> ComputePassView {
        if k == 0 {
            self.prefilter_pass(scene)
        } else if k < self.max_level {
            self.downsample_pass(k as u32)
        } else if (k - self.max_level) % 2 == 0 {
            self.blur_pass(BlurAxis::Horizontal, ((k - self.max_level) / 2) as u32)
        } else {
            self.blur_pass(BlurAxis::Vertical, ((k - self.max_level) / 2) as u32)
        }
    }

    /// Every pass that precedes the composite, in recording order.
    pub open spec fn schedule(self, scene: ViewRef) -> Seq<ComputePassView> {
        Seq::new(self.schedule_len(), |k: int| self.scheduled_pass(scene, k))
    }

    /// The model after a resize to `width` by `height`: new sizes, the next
    /// generation, everything else kept.
    pub open spec fn resized(self, width: u32, height: u32) -> BloomModel {
        BloomModel {
            max_level: self.max_level,
            full_width: width,
            full_height: height,
            generation: spec_next_generation(self.generation),
            settings: self.settings,
        }
    }
}

/// The bloom effect of a renderer: three half-resolution mip chains that
/// are always allocated together, the bind groups that wire their levels,
/// and the passes that fill them. A resize replaces all of it as a unit.
pub struct BloomEffect {
    max_level: u32,
    full_width: u32,
    full_height: u32,
    half_width: u32,
    half_height: u32,
    generation: u64,
    settings: BloomSettings,
    downsample: MipChain,
    horizontal_blur: MipChain,
    vertical_blur: MipChain,
    settings_bind_group: BindGroup,
    downsample_bind_groups: Vec<BindGroup>,
    horizontal_blur_bind_groups: Vec<BindGroup>,
    vertical_blur_bind_groups: Vec<BindGroup>,
}

impl View for BloomEffect {
    type V = BloomModel;

    closed spec fn view(&self) -> BloomModel {
        BloomModel {
            max_level: self.max_level,
            full_width: self.full_width,
            full_height: self.full_height,
            generation: self.generation,
            settings: self.settings,
        }
    }
}

impl BloomEffect {
    #[verifier::type_invariant]
    spec fn well_formed(&self) -> bool {
        &&& 1 <= self.max_level <= MAX_MIP_LEVELS
        &&& self.half_width == self@.half_width()
        &&& self.half_height == self@.half_height()
        &&& self.downsample@ == self@.chain(ChainKind::Downsample)
        &&& self.horizontal_blur@ == self@.chain(ChainKind::HorizontalBlur)
        &&& self.vertical_blur@ == self@.chain(ChainKind::VerticalBlur)
        &&& self.settings_bind_group@ == self@.settings_group()
        &&& group_views(self.downsample_bind_groups@) == self@.downsample_groups()
        &&& group_views(self.horizontal_blur_bind_groups@) == self@.horizontal_groups()
        &&& group_views(self.vertical_blur_bind_groups@) == self@.vertical_groups()
    }

    /// Builds the whole bundle for the given model: chains first, then the
    /// bind groups over their views.
    fn build(
        max_level: u32,
        width: u32,
        height: u32,
        generation: u64,
        settings: BloomSettings,
    ) -> (effect: BloomEffect)
        requires
            1 <= max_level <= MAX_MIP_LEVELS,
        ensures
            effect@ == (BloomModel {
                max_level,
                full_width: width,
                full_height: height,
                generation,
                settings,
            }),
    {
        let ghost model = BloomModel {
            max_level,
            full_width: width,
            full_height: height,
            generation,
            settings,
        };
        let half_width: u32 = width / 2;
        let half_height: u32 = height / 2;
        let base_width: u32 = if half_width < 1 {
            1
        } else {
            half_width
        };
        let base_height: u32 = if half_height < 1 {
            1
        } else {
            half_height
        };
        let downsample = MipChain::allocate(
            ChainKind::Downsample,
            generation,
            base_width,
            base_height,
            max_level,
        );
        let horizontal_blur = MipChain::allocate(
            ChainKind::HorizontalBlur,
            generation,
            base_width,
            base_height,
            max_level,
        );
        let vertical_blur = MipChain::allocate(
            ChainKind::VerticalBlur,
            generation,
            base_width,
            base_height,
            max_level,
        );
        let settings_bind_group = BindGroup::uniform(
            GroupLayout::Settings,
            BufferRef::BloomSettings,
        );

        let mut downsample_bind_groups: Vec<BindGroup> = Vec::new();
        let mut level: u32 = 1;
        while level < max_level
            invariant
                1 <= level <= max_level,
                downsample@ == model.chain(ChainKind::Downsample),
                model.max_level == max_level,
                downsample_bind_groups@.len() == level - 1,
                forall|i: int|
                    0 <= i < level - 1 ==> (#[trigger] downsample_bind_groups@[i])@
                        == model.downsample_group((i + 1) as u32),
            decreases max_level - level,
        {
            let group = BindGroup::texture_pair(
                downsample.view_ref(level - 1),
                downsample.view_ref(level),
            );
            downsample_bind_groups.push(group);
            level = level + 1;
        }
        assert(group_views(downsample_bind_groups@) =~= model.downsample_groups());

        let mut horizontal_blur_bind_groups: Vec<BindGroup> = Vec::new();
        let mut level: u32 = 0;
        while level < max_level
            invariant
                level <= max_level,
                downsample@ == model.chain(ChainKind::Downsample),
                horizontal_blur@ == model.chain(ChainKind::HorizontalBlur),
                model.max_level == max_level,
                horizontal_blur_bind_groups@.len() == level,
                forall|i: int|
                    0 <= i < level ==> (#[trigger] horizontal_blur_bind_groups@[i])@
                        == model.horizontal_group(i as u32),
            decreases max_level - level,
        {
            let group = BindGroup::texture_pair(
                downsample.view_ref(level),
                horizontal_blur.view_ref(level),
            );
            horizontal_blur_bind_groups.push(group);
            level = level + 1;
        }
        assert(group_views(horizontal_blur_bind_groups@) =~= model.horizontal_groups());

        let mut vertical_blur_bind_groups: Vec<BindGroup> = Vec::new();
        let mut level: u32 = 0;
        while level < max_level
            invariant
                level <= max_level,
                horizontal_blur@ == model.chain(ChainKind::HorizontalBlur),
                vertical_blur@ == model.chain(ChainKind::VerticalBlur),
                model.max_level == max_level,
                vertical_blur_bind_groups@.len() == level,
                forall|i: int|
                    0 <= i < level ==> (#[trigger] vertical_blur_bind_groups@[i])@
                        == model.vertical_group(i as u32),
            decreases max_level - level,
        {
            let group = BindGroup::texture_pair(
                horizontal_blur.view_ref(level),
                vertical_blur.view_ref(level),
            );
            vertical_blur_bind_groups.push(group);
            level = level + 1;
        }
        assert(group_views(vertical_blur_bind_groups@) =~= model.vertical_groups());

        BloomEffect {
            max_level,
            full_width: width,
            full_height: height,
            half_width,
            half_height,
            generation,
            settings,
            downsample,
            horizontal_blur,
            vertical_blur,
            settings_bind_group,
            downsample_bind_groups,
            horizontal_blur_bind_groups,
            vertical_blur_bind_groups,
        }
    }

    /// A bloom effect for a scene of `width` by `height` texels, with chains
    /// of [`MAX_LEVEL`] levels at half that resolution and default settings.
    pub fn new(width: u32, height: u32) -> (effect: BloomEffect)
        ensures
            effect@ == (BloomModel {
                max_level: MAX_LEVEL,
                full_width: width,
                full_height: height,
                generation: 0,
                settings: spec_default_settings(),
            }),
    {
        Self::build(MAX_LEVEL, width, height, 0, BloomSettings::default())
    }

    /// As [`BloomEffect::new`], with chains of `max_level` levels and the
    /// given settings.
    pub fn with_max_level(width: u32, height: u32, max_level: u32, settings: BloomSettings) -> (effect:
        BloomEffect)
        requires
            1 <= max_level <= MAX_MIP_LEVELS,
        ensures
            effect@ == (BloomModel {
                max_level,
                full_width: width,
                full_height: height,
                generation: 0,
                settings,
            }),
    {
        Self::build(max_level, width, height, 0, settings)
    }

    /// As [`BloomEffect::with_max_level`], for any `max_level`: `None` if
    /// the depth is zero or more than [`MAX_MIP_LEVELS`].
    pub fn try_with_max_level(
        width: u32,
        height: u32,
        max_level: u32,
        settings: BloomSettings,
    ) -> (effect: Option<BloomEffect>)
        ensures
            1 <= max_level <= MAX_MIP_LEVELS ==> effect is Some && effect.unwrap()@ == (BloomModel {
                max_level,
                full_width: width,
                full_height: height,
                generation: 0,
                settings,
            }),
            !(1 <= max_level <= MAX_MIP_LEVELS) ==> effect is None,
    {
        if 1 <= max_level && max_level <= MAX_MIP_LEVELS {
            Some(Self::build(max_level, width, height, 0, settings))
        } else {
            None
        }
    }

    /// Rebuilds the effect for a scene of `width` by `height` texels. The
    /// chains and every bind group are replaced together and belong to the
    /// next generation; depth and settings are kept.
    pub fn resize(&mut self, width: u32, height: u32)
        ensures
            final(self)@ == old(self)@.resized(width, height),
    {
        let rebuilt = self.resized(width, height);
        *self = rebuilt;
    }

    /// The effect that a resize to `width` by `height` puts in place of
    /// this one, built whole before anything is replaced.
    pub fn resized(&self, width: u32, height: u32) -> (rebuilt: BloomEffect)
        ensures
            rebuilt@ == self@.resized(width, height),
    {
        proof {
            use_type_invariant(self);
        }
        Self::build(
            self.max_level,
            width,
            height,
            next_generation(self.generation),
            self.settings,
        )
    }

    /// Number of levels of each chain.
    pub fn max_level(&self) -> (max_level: u32)
        ensures
            max_level == self@.max_level,
            1 <= max_level <= MAX_MIP_LEVELS,
    {
        proof {
            use_type_invariant(self);
        }
        self.max_level
    }

    /// Width of the scene.
    pub fn full_width(&self) -> (width: u32)
        ensures
            width == self@.full_width,
    {
        self.full_width
    }

    /// Height of the scene.
    pub fn full_height(&self) -> (height: u32)
        ensures
            height == self@.full_height,
    {
        self.full_height
    }

    /// Half the scene width, rounded down.
    pub fn half_width(&self) -> (width: u32)
        ensures
            width == self@.full_width / 2,
    {
        proof {
            use_type_invariant(self);
        }
        self.half_width
    }

    /// Half the scene height, rounded down.
    pub fn half_height(&self) -> (height: u32)
        ensures
            height == self@.full_height / 2,
    {
        proof {
            use_type_invariant(self);
        }
        self.half_height
    }

    /// Generation of the current chains.
    pub fn generation(&self) -> (generation: u64)
        ensures
            generation == self@.generation,
    {
        self.generation
    }

    /// The settings uploaded at construction.
    pub fn settings(&self) -> (settings: BloomSettings)
        ensures
            settings == self@.settings,
    {
        self.settings
    }

    /// The chain of the given kind.
    pub fn chain(&self, kind: ChainKind) -> (chain: &MipChain)
        ensures
            chain@ == self@.chain(kind),
    {
        proof {
            use_type_invariant(self);
        }
        match kind {
            ChainKind::Downsample => &self.downsample,
            ChainKind::HorizontalBlur => &self.horizontal_blur,
            ChainKind::VerticalBlur => &self.vertical_blur,
        }
    }

    /// Width and height of level `level` of the chains:
    /// `max(1, half_width >> level)` by `max(1, half_height >> level)`.
    pub fn level_size(&self, level: u32) -> (size: (u32, u32))
        ensures
            size.0 == self@.level_width(level),
            size.1 == self@.level_height(level),
    {
        proof {
            use_type_invariant(self);
        }
        (mip_dim(self.half_width, level), mip_dim(self.half_height, level))
    }

    /// The buffer of the settings uniform: the four words of the settings,
    /// bound as a uniform block and writable from the CPU.
    pub fn settings_buffer(&self) -> (desc: BufferDesc)
        ensures
            desc == self@.settings_buffer(),
            desc == spec_uniform_buffer(4),
            desc == spec_buffer(BufferRef::BloomSettings),
            desc.size == 4 * self@.settings.spec_words().len(),
    {
        buffer_desc(BufferRef::BloomSettings)
    }

    /// The compute pipelines of the effect, all built from one shader: one
    /// for each kind of pass, in the order prefilter, downsample,
    /// horizontal blur, vertical blur, composite, each with the kernel and
    /// the bind-group layouts of its kind.
    pub fn pipelines(&self) -> (pipelines: Vec<ComputePipelineDesc>)
        ensures
            pipelines@.len() == 5,
            forall|i: int|
                0 <= i < 5 ==> (#[trigger] pipelines@[i])@ == spec_compute_pipeline(
                    spec_pass_kinds()[i],
                ),
            pipeline_views(pipelines@) == self@.pipelines(),
    {
        let pipelines = create_compute_pipelines();
        assert(pipeline_views(pipelines@).len() == pipelines@.len());
        assert(spec_compute_pipelines().len() == 5);
        assert forall|i: int| 0 <= i < 5 implies (#[trigger] pipelines@[i])@
            == spec_compute_pipeline(spec_pass_kinds()[i]) by {
            assert(pipeline_views(pipelines@)[i] == pipelines@[i]@);
        }
        pipelines
    }

    /// The bind group of the settings uniform.
    pub fn settings_bind_group(&self) -> (group: &BindGroup)
        ensures
            group@ == self@.settings_group(),
    {
        proof {
            use_type_invariant(self);
        }
        &self.settings_bind_group
    }

    /// The downsample bind groups: index `i` wires level `i + 1`.
    pub fn downsample_bind_groups(&self) -> (groups: &Vec<BindGroup>)
        ensures
            group_views(groups@) == self@.downsample_groups(),
    {
        proof {
            use_type_invariant(self);
        }
        &self.downsample_bind_groups
    }

    /// The horizontal-blur bind groups, one per level.
    pub fn horizontal_blur_bind_groups(&self) -> (groups: &Vec<BindGroup>)
        ensures
            group_views(groups@) == self@.horizontal_groups(),
    {
        proof {
            use_type_invariant(self);
        }
        &self.horizontal_blur_bind_groups
    }

    /// The vertical-blur bind groups, one per level.
    pub fn vertical_blur_bind_groups(&self) -> (groups: &Vec<BindGroup>)
        ensures
            group_views(groups@) == self@.vertical_groups(),
    {
        proof {
            use_type_invariant(self);
        }
        &self.vertical_blur_bind_groups
    }
}

impl BloomEffect {
    /// A pass over level `level` with the settings at group 0 and `wiring`
    /// at group 1.
    fn level_pass(&self, kind: PassKind, level: u32, wiring: BindGroup) -> (pass: ComputePass)
        ensures
            pass@ == self@.level_pass(kind, level, wiring@),
    {
        proof {
            use_type_invariant(self);
        }
        let mut groups: Vec<BindGroup> = Vec::new();
        groups.push(self.settings_bind_group.clone());
        groups.push(wiring);
        assert(group_views(groups@) =~= seq![self@.settings_group(), wiring@]);
        ComputePass {
            kind,
            level,
            groups,
            dispatch_x: dispatch_count(mip_dim(self.half_width, level)),
            dispatch_y: dispatch_count(mip_dim(self.half_height, level)),
            dispatch_z: 1,
        }
    }

    /// The prefilter pass. Its bind group is built afresh, since the scene
    /// view may change from frame to frame.
    pub fn prefilter_pass(&self, scene: ViewRef) -> (pass: ComputePass)
        ensures
            pass@ == self@.prefilter_pass(scene),
    {
        proof {
            use_type_invariant(self);
        }
        let wiring = BindGroup::texture_pair(scene, self.downsample.view_ref(0));
        self.level_pass(PassKind::Prefilter, 0, wiring)
    }

    /// The downsample pass into `level`.
    pub fn downsample_pass(&self, level: u32) -> (pass: ComputePass)
        requires
            1 <= level < self@.max_level,
        ensures
            pass@ == self@.downsample_pass(level),
    {
        proof {
            use_type_invariant(self);
            assert(group_views(self.downsample_bind_groups@).len()
                == self.downsample_bind_groups@.len());
        }
        let wiring = self.downsample_bind_groups[(level - 1) as usize].clone();
        assert(wiring@ == group_views(self.downsample_bind_groups@)[level - 1]);
        self.level_pass(PassKind::Downsample, level, wiring)
    }

    /// The blur pass of `level` along `axis`.
    pub fn blur_pass(&self, axis: BlurAxis, level: u32) -> (pass: ComputePass)
        requires
            level < self@.max_level,
        ensures
            pass@ == self@.blur_pass(axis, level),
    {
        proof {
            use_type_invariant(self);
            assert(group_views(self.horizontal_blur_bind_groups@).len()
                == self.horizontal_blur_bind_groups@.len());
            assert(group_views(self.vertical_blur_bind_groups@).len()
                == self.vertical_blur_bind_groups@.len());
        }
        match axis {
            BlurAxis::Horizontal => {
                let wiring = self.horizontal_blur_bind_groups[level as usize].clone();
                assert(wiring@ == group_views(self.horizontal_blur_bind_groups@)[level as int]);
                self.level_pass(PassKind::HorizontalBlur, level, wiring)
            },
            BlurAxis::Vertical => {
                let wiring = self.vertical_blur_bind_groups[level as usize].clone();
                assert(wiring@ == group_views(self.vertical_blur_bind_groups@)[level as int]);
                self.level_pass(PassKind::VerticalBlur, level, wiring)
            },
        }
    }

    /// Every pass that fills the chains from the scene, in the order in which
    /// they must be recorded: the prefilter, the downsamples from level 1
    /// down the chain, then for each level its horizontal and its vertical
    /// blur.
    pub fn render(&self, scene: ViewRef) -> (passes: Vec<ComputePass>)
        ensures
            pass_views(passes@) == self@.schedule(scene),
    {
        proof {
            use_type_invariant(self);
        }
        let max_level: u32 = self.max_level;
        let mut passes: Vec<ComputePass> = Vec::new();
        passes.push(self.prefilter_pass(scene));
        let mut level: u32 = 1;
        while level < max_level
            invariant
                1 <= level <= max_level,
                max_level == self@.max_level,
                passes@.len() == level,
                forall|k: int|
                    0 <= k < level ==> (#[trigger] passes@[k])@ == self@.scheduled_pass(scene, k),
            decreases max_level - level,
        {
            passes.push(self.downsample_pass(level));
            level = level + 1;
        }
        let mut level: u32 = 0;
        while level < max_level
            invariant
                level <= max_level,
                1 <= max_level <= MAX_MIP_LEVELS,
                max_level == self@.max_level,
                passes@.len() == max_level + 2 * level,
                forall|k: int|
                    0 <= k < max_level + 2 * level ==> (#[trigger] passes@[k])@
                        == self@.scheduled_pass(scene, k),
            decreases max_level - level,
        {
            passes.push(self.blur_pass(BlurAxis::Horizontal, level));
            passes.push(self.blur_pass(BlurAxis::Vertical, level));
            level = level + 1;
        }
        assert(pass_views(passes@) =~= self@.schedule(scene));
        passes
    }

    /// The bind group of the composite's inputs: the first
    /// `min(max_level, 8)` vertical-blur levels, then the sampler.
    pub fn composite_inputs(&self) -> (group: BindGroup)
        ensures
            group@ == self@.composite_inputs(),
    {
        proof {
            use_type_invariant(self);
        }
        let count: u32 = if self.max_level < COMPOSITE_SLOTS {
            self.max_level
        } else {
            COMPOSITE_SLOTS
        };
        let mut entries: Vec<BindGroupEntry> = Vec::new();
        let mut level: u32 = 0;
        while level < count
            invariant
                level <= count,
                count == self@.composite_levels(),
                count <= self@.max_level,
                self.vertical_blur@ == self@.chain(ChainKind::VerticalBlur),
                entries@.len() == level,
                forall|i: int|
                    0 <= i < level ==> (#[trigger] entries@[i]) == self@.composite_inputs().entries[i],
            decreases count - level,
        {
            entries.push(
                BindGroupEntry {
                    binding: level,
                    resource: BindResource::Sampled(self.vertical_blur.view_ref(level)),
                },
            );
            level = level + 1;
        }
        entries.push(
            BindGroupEntry {
                binding: COMPOSITE_SLOTS,
                resource: BindResource::Sampler(SamplerRef::Clamp),
            },
        );
        assert(entries@ =~= self@.composite_inputs().entries);
        BindGroup { layout: GroupLayout::CompositeInputs, entries }
    }

    /// The composite pass, to be recorded after every pass of
    /// [`BloomEffect::render`]: it reads the scene and the blurred levels and
    /// writes `target`, with one workgroup per 8 by 8 tile of the full
    /// resolution.
    pub fn apply(&self, target: ViewRef, scene: ViewRef) -> (pass: ComputePass)
        ensures
            pass@ == self@.composite_pass(scene, target),
    {
        proof {
            use_type_invariant(self);
        }
        let mut groups: Vec<BindGroup> = Vec::new();
        groups.push(self.settings_bind_group.clone());
        groups.push(BindGroup::texture_pair(scene, target));
        groups.push(self.composite_inputs());
        assert(group_views(groups@) =~= self@.composite_pass(scene, target).groups);
        ComputePass {
            kind: PassKind::Composite,
            level: 0,
            groups,
            dispatch_x: dispatch_count(self.full_width),
            dispatch_y: dispatch_count(self.full_height),
            dispatch_z: 1,
        }
    }
}

} // verus!
