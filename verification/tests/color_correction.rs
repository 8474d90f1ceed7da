use voxel_frame::bind::{BindGroup, BindGroupEntry, BindResource, BufferRef, GroupLayout, SamplerRef};
use voxel_frame::color_correction::{
    ColorCorrectionEffect, ColorCorrectionUniform, UniformWrite, FULL_SCREEN_VERTICES,
};
use voxel_frame::buffer::{BufferDesc, BufferUsages};
use voxel_frame::pipeline::{CullMode, PrimitiveTopology, TargetFormat};
use voxel_frame::render_pass::{DrawCall, LoadOp, RenderPassKind, StoreOp};
use voxel_frame::texture::{ViewRef, ViewSource};

fn post(generation: u64) -> ViewRef {
    ViewRef { source: ViewSource::PostProcess, generation }
}

fn surface() -> ViewRef {
    ViewRef { source: ViewSource::Surface, generation: 0 }
}

fn group(input: ViewRef) -> BindGroup {
    BindGroup {
        layout: GroupLayout::ColorCorrection,
        entries: vec![
            BindGroupEntry { binding: 0, resource: BindResource::Sampled(input) },
            BindGroupEntry { binding: 1, resource: BindResource::Sampler(SamplerRef::Clamp) },
            BindGroupEntry { binding: 2, resource: BindResource::Buffer(BufferRef::ColorCorrection) },
        ],
    }
}

#[test]
fn default_uniform_is_the_identity() {
    let uniform = ColorCorrectionUniform::default();
    assert_eq!(f32::from_bits(uniform.brightness), 1.0);
    assert_eq!(f32::from_bits(uniform.contrast), 1.0);
    assert_eq!(f32::from_bits(uniform.saturation), 1.0);
    assert!(uniform.is_identity());
    assert_eq!(uniform.words(), vec![1.0f32.to_bits(); 3]);
    let brighter = ColorCorrectionUniform { brightness: 1.5f32.to_bits(), ..uniform };
    assert!(!brighter.is_identity());
    assert!(!ColorCorrectionUniform { contrast: 0, ..uniform }.is_identity());
    assert!(!ColorCorrectionUniform { saturation: 2.0f32.to_bits(), ..uniform }.is_identity());
}

#[test]
fn new_effect_reads_its_input_with_identity_factors() {
    let effect = ColorCorrectionEffect::new(post(0));
    assert_eq!(effect.input(), post(0));
    assert!(effect.uniform().is_identity());
    assert_eq!(*effect.bind_group(), group(post(0)));
}

#[test]
fn apply_clears_the_target_and_draws_a_strip() {
    let effect = ColorCorrectionEffect::new(post(0));
    let pass = effect.apply(surface());
    assert_eq!(pass.kind, RenderPassKind::ColorCorrection);
    assert_eq!(pass.target, surface());
    assert_eq!(pass.color_load, LoadOp::ClearBlack);
    assert_eq!(pass.depth, None);
    assert_eq!(pass.groups, vec![group(post(0))]);
    assert_eq!(pass.color_store, StoreOp::Store);
    assert_eq!(pass.draw, DrawCall::Vertices { vertex_count: 4, instance_count: 1 });
    assert_eq!(FULL_SCREEN_VERTICES, 4);
}

#[test]
fn apply_twice_gives_the_same_pass() {
    let effect = ColorCorrectionEffect::new(post(7));
    assert_eq!(effect.apply(surface()), effect.apply(surface()));
}

#[test]
fn resize_rewires_the_input_and_keeps_the_uniform() {
    let mut effect = ColorCorrectionEffect::new(post(0));
    let uniform = ColorCorrectionUniform {
        brightness: 1.25f32.to_bits(),
        contrast: 0.75f32.to_bits(),
        saturation: 0.5f32.to_bits(),
    };
    effect.update_uniform(uniform);
    effect.resize(post(1));
    assert_eq!(effect.input(), post(1));
    assert_eq!(effect.uniform(), uniform);
    assert_eq!(*effect.bind_group(), group(post(1)));
    assert_eq!(effect.apply(surface()).groups, vec![group(post(1))]);
    let rebuilt = effect.resized(post(2));
    assert_eq!(effect.input(), post(1));
    assert_eq!(rebuilt.input(), post(2));
    assert_eq!(rebuilt.uniform(), uniform);
}

#[test]
fn update_uniform_returns_the_upload() {
    let mut effect = ColorCorrectionEffect::new(post(0));
    let uniform = ColorCorrectionUniform {
        brightness: 2.0f32.to_bits(),
        contrast: 3.0f32.to_bits(),
        saturation: 4.0f32.to_bits(),
    };
    let write = effect.update_uniform(uniform);
    assert_eq!(
        write,
        UniformWrite {
            buffer: BufferRef::ColorCorrection,
            offset: 0,
            words: vec![2.0f32.to_bits(), 3.0f32.to_bits(), 4.0f32.to_bits()],
        }
    );
    assert_eq!(effect.uniform(), uniform);
    assert_eq!(effect.input(), post(0));
    assert_eq!(effect.uniform_write(), write);
    assert_eq!(*effect.bind_group(), group(post(0)));
    let other = effect.with_uniform(ColorCorrectionUniform::default());
    assert!(other.uniform().is_identity());
    assert_eq!(effect.uniform(), uniform);
    assert_eq!(other.apply(surface()), effect.apply(surface()));
}

#[test]
fn new_effect_describes_its_buffer_and_pipeline() {
    let effect = ColorCorrectionEffect::new(post(0));
    assert_eq!(
        effect.uniform_buffer(),
        BufferDesc {
            size: 12,
            usage: BufferUsages { uniform: true, copy_dst: true, vertex: false, index: false },
        }
    );
    assert_eq!(effect.uniform_buffer().size, 4 * effect.uniform().words().len() as u64);
    assert_eq!(effect.uniform().words(), vec![1.0f32.to_bits(); 3]);
    let pipeline = effect.pipeline();
    assert_eq!(pipeline.kind, RenderPassKind::ColorCorrection);
    assert_eq!(pipeline.vertex_entry_point, "vs_main");
    assert_eq!(pipeline.fragment_entry_point, "fs_main");
    assert_eq!(pipeline.layouts, vec![GroupLayout::ColorCorrection]);
    assert_eq!(pipeline.target, TargetFormat::Surface);
    assert_eq!(pipeline.topology, PrimitiveTopology::TriangleStrip);
    assert_eq!(pipeline.cull_mode, CullMode::Off);
    assert_eq!(pipeline.depth, None);
    assert!(!pipeline.vertex_buffer);
    assert_eq!(pipeline, voxel_frame::pipeline::create_color_correction_pipeline());
    let mut resized = ColorCorrectionEffect::new(post(0));
    resized.resize(post(1));
    assert_eq!(resized.uniform_buffer(), effect.uniform_buffer());
    assert_eq!(resized.pipeline(), effect.pipeline());
}
