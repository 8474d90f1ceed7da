//! Colour correction: one full-screen draw that scales brightness, contrast
//! and saturation of its input.

use crate::bind::{
    group_views, BindGroup, BindGroupEntry, BindGroupView, BindResource, BufferRef, GroupLayout,
    SamplerRef,
};
use crate::bloom::F32_ONE;
use crate::buffer::{buffer_desc, spec_buffer, spec_uniform_buffer, BufferDesc};
use crate::pipeline::{
    create_color_correction_pipeline, spec_color_correction_pipeline, RenderPipelineDesc,
    RenderPipelineView,
};
use crate::render_pass::{
    DrawCall, LoadOp, RenderPass, RenderPassKind, RenderPassView, StoreOp,
};
use crate::texture::ViewRef;
use vstd::prelude::*;

verus! {

/// Number of vertices of the full-screen strip.
pub const FULL_SCREEN_VERTICES: u32 = 4;

/// The uniform block of the colour-correction shader. Each factor is a
/// single-precision float, held as its bit pattern; each multiplies, so
/// `1.0` leaves the image as it is.
#[derive(Clone, Copy, Debug, PartialEq, Eq, Structural)]
pub struct ColorCorrectionUniform {
    pub brightness: u32,
    pub contrast: u32,
    pub saturation: u32,
}

/// All three factors `1.0`: the correction that changes nothing.
pub open spec fn spec_identity_uniform() -> ColorCorrectionUniform {
    ColorCorrectionUniform { brightness: F32_ONE, contrast: F32_ONE, saturation: F32_ONE }
}

impl Default for ColorCorrectionUniform {
    fn default() -> (uniform: Self)
        ensures
            uniform == spec_identity_uniform(),
    {
        ColorCorrectionUniform { brightness: F32_ONE, contrast: F32_ONE, saturation: F32_ONE }
    }
}

impl ColorCorrectionUniform {
    /// The block as the three 32-bit words the shader reads, in field order.
    pub open spec fn spec_words(self) -> Seq<u32> {
        seq![self.brightness, self.contrast, self.saturation]
    }

    /// The block as the three 32-bit words the shader reads, in field order.
    pub fn words(&self) -> (words: Vec<u32>)
        ensures
            words@ == self.spec_words(),
    {
        let mut words: Vec<u32> = Vec::new();
        words.push(self.brightness);
        words.push(self.contrast);
        words.push(self.saturation);
        assert(words@ =~= self.spec_words());
        words
    }

    /// Whether every factor is `1.0`.
    pub fn is_identity(&self) -> (identity: bool)
        ensures
            identity == (*self == spec_identity_uniform()),
    {
        self.brightness == F32_ONE && self.contrast == F32_ONE && self.saturation == F32_ONE
    }
}

/// A write of a whole uniform block, queued ahead of the passes that read it.
#[derive(Debug, PartialEq, Eq)]
pub struct UniformWrite {
    pub buffer: BufferRef,
    /// Byte offset into the buffer.
    pub offset: u64,
    /// The words to write, in order.
    pub words: Vec<u32>,
}

/// A uniform write as a mathematical value.
pub struct UniformWriteView {
    pub buffer: BufferRef,
    pub offset: u64,
    pub words: Seq<u32>,
}

impl View for UniformWrite {
    type V = UniformWriteView;

    open spec fn view(&self) -> UniformWriteView {
        UniformWriteView { buffer: self.buffer, offset: self.offset, words: self.words@ }
    }
}

/// What a colour-correction effect is, as plain values.
pub struct ColorCorrectionModel {
    /// The view the effect reads.
    pub input: ViewRef,
    /// What its uniform buffer holds.
    pub uniform: ColorCorrectionUniform,
}

impl ColorCorrectionModel {
    /// The effect's one bind group: input in slot 0, the clamping sampler in
    /// slot 1, the uniform in slot 2.
    pub open spec fn bind_group(self) -> BindGroupView {
        BindGroupView {
            layout: GroupLayout::ColorCorrection,
            entries: seq![
                BindGroupEntry { binding: 0, resource: BindResource::Sampled(self.input) },
                BindGroupEntry { binding: 1, resource: BindResource::Sampler(SamplerRef::Clamp) },
                BindGroupEntry {
                    binding: 2,
                    resource: BindResource::Buffer(BufferRef::ColorCorrection),
                },
            ],
        }
    }

    /// The effect's pass into `target`: the target is cleared, then one
    /// instance of a four-vertex strip covers it, and the result is stored.
    pub open spec fn pass(self, target: ViewRef) -> RenderPassView {
        RenderPassView {
            kind: RenderPassKind::ColorCorrection,
            target,
            color_load: LoadOp::ClearBlack,
            color_store: StoreOp::Store,
            depth: None,
            groups: seq![self.bind_group()],
            draw: DrawCall::Vertices { vertex_count: FULL_SCREEN_VERTICES, instance_count: 1 },
        }
    }

    /// The effect's uniform buffer: one word for each factor.
    pub open spec fn uniform_buffer(self) -> BufferDesc {
        spec_uniform_buffer(self.uniform.spec_words().len())
    }

    /// The effect's pipeline.
    pub open spec fn pipeline(self) -> RenderPipelineView {
        spec_color_correction_pipeline()
    }

    /// The write that brings the uniform buffer up to date.
    pub open spec fn uniform_write(self) -> UniformWriteView {
        UniformWriteView {
            buffer: BufferRef::ColorCorrection,
            offset: 0,
            words: self.uniform.spec_words(),
        }
    }
}

/// The colour-correction stage of a renderer.
pub struct ColorCorrectionEffect {
    input: ViewRef,
    uniform: ColorCorrectionUniform,
    bind_group: BindGroup,
}

impl View for ColorCorrectionEffect {
    type V = ColorCorrectionModel;

    closed spec fn view(&self) -> ColorCorrectionModel {
        ColorCorrectionModel { input: self.input, uniform: self.uniform }
    }
}

impl ColorCorrectionEffect {
    #[verifier::type_invariant]
    spec fn well_formed(&self) -> bool {
        self.bind_group@ == self@.bind_group()
    }

    fn build_bind_group(input: ViewRef) -> (group: BindGroup)
        ensures
            forall|uniform: ColorCorrectionUniform|
                group@ == (#[trigger] ColorCorrectionModel { input, uniform }.bind_group()),
    {
        let mut entries: Vec<BindGroupEntry> = Vec::new();
        entries.push(BindGroupEntry { binding: 0, resource: BindResource::Sampled(input) });
        entries.push(
            BindGroupEntry { binding: 1, resource: BindResource::Sampler(SamplerRef::Clamp) },
        );
        entries.push(
            BindGroupEntry { binding: 2, resource: BindResource::Buffer(BufferRef::ColorCorrection) },
        );
        let group = BindGroup { layout: GroupLayout::ColorCorrection, entries };
        assert forall|uniform: ColorCorrectionUniform|
            group@ == (#[trigger] ColorCorrectionModel { input, uniform }.bind_group()) by {
            assert(group@.entries =~= ColorCorrectionModel { input, uniform }.bind_group().entries);
        }
        group
    }

    /// An effect that reads `input`, with every factor at `1.0`.
    pub fn new(input: ViewRef) -> (effect: ColorCorrectionEffect)
        ensures
            effect@ == (ColorCorrectionModel { input, uniform: spec_identity_uniform() }),
    {
        let uniform = ColorCorrectionUniform::default();
        let bind_group = Self::build_bind_group(input);
        ColorCorrectionEffect { input, uniform, bind_group }
    }

    /// Rebuilds the bind group to read `input`; the uniform is kept.
    pub fn resize(&mut self, input: ViewRef)
        ensures
            final(self)@ == (ColorCorrectionModel { input, uniform: old(self)@.uniform }),
    {
        let rebuilt = self.resized(input);
        *self = rebuilt;
    }

    /// The effect that a resize puts in place of this one: it reads `input`
    /// and keeps the uniform.
    pub fn resized(&self, input: ViewRef) -> (rebuilt: ColorCorrectionEffect)
        ensures
            rebuilt@ == (ColorCorrectionModel { input, uniform: self@.uniform }),
    {
        ColorCorrectionEffect {
            input,
            uniform: self.uniform,
            bind_group: Self::build_bind_group(input),
        }
    }

    /// The pass that draws the corrected input into `target`. It depends on
    /// nothing but the effect and `target`, so asking twice gives the same
    /// pass.
    pub fn apply(&self, target: ViewRef) -> (pass: RenderPass)
        ensures
            pass@ == self@.pass(target),
    {
        proof {
            use_type_invariant(self);
        }
        let mut groups: Vec<BindGroup> = Vec::new();
        groups.push(self.bind_group.clone());
        assert(group_views(groups@) =~= seq![self@.bind_group()]);
        RenderPass {
            kind: RenderPassKind::ColorCorrection,
            target,
            color_load: LoadOp::ClearBlack,
            color_store: StoreOp::Store,
            depth: None,
            groups,
            draw: DrawCall::Vertices { vertex_count: FULL_SCREEN_VERTICES, instance_count: 1 },
        }
    }

    /// Sets the factors and returns the write that uploads them. The write
    /// must be queued before the pass of the same frame is submitted.
    pub fn update_uniform(&mut self, uniform: ColorCorrectionUniform) -> (write: UniformWrite)
        ensures
            final(self)@ == (ColorCorrectionModel { input: old(self)@.input, uniform }),
            write@ == final(self)@.uniform_write(),
    {
        let updated = self.with_uniform(uniform);
        let write = updated.uniform_write();
        *self = updated;
        write
    }

    /// This effect with its factors set to `uniform`.
    pub fn with_uniform(&self, uniform: ColorCorrectionUniform) -> (updated: ColorCorrectionEffect)
        ensures
            updated@ == (ColorCorrectionModel { input: self@.input, uniform }),
    {
        proof {
            use_type_invariant(self);
        }
        ColorCorrectionEffect { input: self.input, uniform, bind_group: self.bind_group.clone() }
    }

    /// The write that brings the uniform buffer up to date with the factors.
    pub fn uniform_write(&self) -> (write: UniformWrite)
        ensures
            write@ == self@.uniform_write(),
    {
        UniformWrite { buffer: BufferRef::ColorCorrection, offset: 0, words: self.uniform.words() }
    }

    /// The effect's uniform buffer: the three words of the factors, bound
    /// as a uniform block and writable from the CPU.
    pub fn uniform_buffer(&self) -> (desc: BufferDesc)
        ensures
            desc == self@.uniform_buffer(),
            desc == spec_uniform_buffer(3),
            desc == spec_buffer(BufferRef::ColorCorrection),
            desc.size == 4 * self@.uniform.spec_words().len(),
    {
        buffer_desc(BufferRef::ColorCorrection)
    }

    /// The effect's pipeline: its one bind-group layout, and one colour
    /// target in the format of the surface.
    pub fn pipeline(&self) -> (pipeline: RenderPipelineDesc)
        ensures
            pipeline@ == self@.pipeline(),
            pipeline@ == spec_color_correction_pipeline(),
    {
        create_color_correction_pipeline()
    }

    /// The view the effect reads.
    pub fn input(&self) -> (input: ViewRef)
        ensures
            input == self@.input,
    {
        self.input
    }

    /// What the uniform buffer holds.
    pub fn uniform(&self) -> (uniform: ColorCorrectionUniform)
        ensures
            uniform == self@.uniform,
    {
        self.uniform
    }

    /// The effect's bind group.
    pub fn bind_group(&self) -> (group: &BindGroup)
        ensures
            group@ == self@.bind_group(),
    {
        proof {
            use_type_invariant(self);
        }
        &self.bind_group
    }
}

/// The effect's bind group fills its layout, reads exactly the input and
/// writes nothing; its pass draws into exactly the target.
pub proof fn lemma_color_correction_access(model: ColorCorrectionModel, target: ViewRef, view: ViewRef)
    ensures
        model.bind_group().fills_layout(),
        model.bind_group().reads(view) <==> view == model.input,
        !model.bind_group().writes(view),
        model.pass(target).reads(view) <==> view == model.input,
        model.pass(target).writes(view) <==> view == target,
        !model.pass(target).preserves_target(),
        model.pass(target).stores_all(),
        model.pass(target).depth is None,
{
    let group = model.bind_group();
    let pass = model.pass(target);
    assert(group.entries[0].resource == BindResource::Sampled(model.input));
    assert(pass.groups[0] == group);
    if pass.reads(view) {
        let g = choose|g: int| 0 <= g < pass.groups.len() && (#[trigger] pass.groups[g]).reads(view);
        assert(g == 0);
    }
}

/// The pass of an effect does not depend on when it is asked for: equal
/// effects and equal targets give equal passes, and the factors do not
/// enter the pass at all, only the uniform buffer.
pub proof fn lemma_apply_is_repeatable(
    a: ColorCorrectionModel,
    b: ColorCorrectionModel,
    target: ViewRef,
)
    requires
        a.input == b.input,
    ensures
        a.pass(target) == b.pass(target),
        a.uniform == b.uniform ==> a.uniform_write() == b.uniform_write(),
{
}

} // verus!
