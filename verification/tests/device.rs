//! The plans of the library, carried out on a device that validates every
//! call and does nothing else.

use voxel_frame::bind::{
    layout_entries, BindGroup, BindGroupEntry, BindResource, BindingType, BufferRef, GroupLayout,
    SamplerRef,
};
use voxel_frame::bloom::{BloomEffect, ComputePass};
use voxel_frame::buffer::{buffer_desc, BufferDesc};
use voxel_frame::color_correction::ColorCorrectionEffect;
use voxel_frame::pipeline::{
    pipeline_index, sampler_desc, AddressMode, CompareFunction, CullMode, FrontFace,
    PrimitiveTopology, RenderPipelineDesc, TargetFormat,
};
use voxel_frame::render_pass::{
    DrawCall, IndexFormat, LoadOp, RenderPass, RenderPassKind, StoreOp,
};
use voxel_frame::vertex::{
    create_vertex_buffer_layout, square_index_bytes, VertexFormat, VertexStepMode,
};
use voxel_frame::pod::words_to_bytes;
use voxel_frame::texture::{
    create_color_target, create_image_texture, ChainKind, TextureDesc, TextureDimension,
    TextureFormat, ViewRef, ViewSource,
};
use voxel_frame::wgpu_ctx::{FrameStep, ResizeStep, WgpuCtx};
use wgpu::util::DeviceExt;

const KERNELS: &str = r#"
struct Settings {
    min_brightness: f32,
    max_brightness: f32,
    blur_radius: f32,
    blur_type: u32,
}

@group(0) @binding(0) var<uniform> settings: Settings;
@group(1) @binding(0) var source: texture_2d<f32>;
@group(1) @binding(1) var destination: texture_storage_2d<rgba32float, write>;
@group(2) @binding(0) var level0: texture_2d<f32>;
@group(2) @binding(1) var level1: texture_2d<f32>;
@group(2) @binding(2) var level2: texture_2d<f32>;
@group(2) @binding(3) var level3: texture_2d<f32>;
@group(2) @binding(4) var level4: texture_2d<f32>;
@group(2) @binding(5) var level5: texture_2d<f32>;
@group(2) @binding(6) var level6: texture_2d<f32>;
@group(2) @binding(7) var level7: texture_2d<f32>;
@group(2) @binding(8) var level_sampler: sampler;

fn copy(id: vec3<u32>, scale: f32) {
    let at = vec2<i32>(id.xy);
    textureStore(destination, at, textureLoad(source, at, 0) * scale);
}

@compute @workgroup_size(8, 8)
fn prefilter_main(@builtin(global_invocation_id) id: vec3<u32>) {
    copy(id, settings.min_brightness);
}

@compute @workgroup_size(8, 8)
fn downsample_main(@builtin(global_invocation_id) id: vec3<u32>) {
    copy(id, settings.max_brightness);
}

@compute @workgroup_size(8, 8)
fn horizontal_blur_main(@builtin(global_invocation_id) id: vec3<u32>) {
    copy(id, settings.blur_radius);
}

@compute @workgroup_size(8, 8)
fn vertical_blur_main(@builtin(global_invocation_id) id: vec3<u32>) {
    copy(id, f32(settings.blur_type));
}

@compute @workgroup_size(8, 8)
fn composite_main(@builtin(global_invocation_id) id: vec3<u32>) {
    let at = vec2<i32>(id.xy);
    let uv = vec2<f32>(0.5, 0.5);
    var sum = textureLoad(source, at, 0);
    sum += textureSampleLevel(level0, level_sampler, uv, 0.0);
    sum += textureSampleLevel(level1, level_sampler, uv, 0.0);
    sum += textureSampleLevel(level2, level_sampler, uv, 0.0);
    sum += textureSampleLevel(level3, level_sampler, uv, 0.0);
    sum += textureSampleLevel(level4, level_sampler, uv, 0.0);
    sum += textureSampleLevel(level5, level_sampler, uv, 0.0);
    sum += textureSampleLevel(level6, level_sampler, uv, 0.0);
    sum += textureSampleLevel(level7, level_sampler, uv, 0.0);
    textureStore(destination, at, sum * settings.min_brightness);
}
"#;

const SCENE_KERNELS: &str = r#"
struct Camera {
    view_proj: mat4x4<f32>,
    inv_view_proj: mat4x4<f32>,
    view: mat4x4<f32>,
    position: vec3<f32>,
    time: f32,
}

struct Voxel {
    values: array<vec4<f32>, 7>,
}

@group(0) @binding(0) var<uniform> camera: Camera;
@group(1) @binding(0) var noise0: texture_2d<f32>;
@group(1) @binding(1) var noise1: texture_3d<f32>;
@group(1) @binding(2) var grain: texture_2d<f32>;
@group(1) @binding(3) var dirt: texture_2d<f32>;
@group(1) @binding(4) var terrain_sampler: sampler;
@group(2) @binding(0) var<uniform> voxel: Voxel;

struct VertexOutput {
    @builtin(position) position: vec4<f32>,
    @location(0) uv: vec2<f32>,
    @location(1) normal: vec3<f32>,
}

@vertex
fn vs_main(
    @location(0) position: vec3<f32>,
    @location(1) uv: vec2<f32>,
    @location(2) normal: vec3<f32>,
) -> VertexOutput {
    var out: VertexOutput;
    out.position = camera.view_proj * vec4<f32>(position, 1.0);
    out.uv = uv;
    out.normal = normal;
    return out;
}

@fragment
fn fs_main(in: VertexOutput) -> @location(0) vec4<f32> {
    var color = textureSample(noise0, terrain_sampler, in.uv);
    color += textureSample(noise1, terrain_sampler, vec3<f32>(in.uv, camera.time));
    color += textureSample(grain, terrain_sampler, in.uv);
    color += textureSample(dirt, terrain_sampler, in.uv);
    return color * voxel.values[0] + vec4<f32>(in.normal, 0.0);
}
"#;

const CORRECTION_KERNELS: &str = r#"
struct Correction {
    brightness: f32,
    contrast: f32,
    saturation: f32,
}

@group(0) @binding(0) var input_texture: texture_2d<f32>;
@group(0) @binding(1) var input_sampler: sampler;
@group(0) @binding(2) var<uniform> correction: Correction;

struct VertexOutput {
    @builtin(position) position: vec4<f32>,
    @location(0) uv: vec2<f32>,
}

@vertex
fn vs_main(@builtin(vertex_index) index: u32) -> VertexOutput {
    var out: VertexOutput;
    let x = f32(index & 1u);
    let y = f32(index >> 1u);
    out.position = vec4<f32>(x * 2.0 - 1.0, y * 2.0 - 1.0, 0.0, 1.0);
    out.uv = vec2<f32>(x, 1.0 - y);
    return out;
}

@fragment
fn fs_main(in: VertexOutput) -> @location(0) vec4<f32> {
    let color = textureSample(input_texture, input_sampler, in.uv);
    return color * correction.brightness * correction.contrast * correction.saturation;
}
"#;

const SURFACE_FORMAT: wgpu::TextureFormat = wgpu::TextureFormat::Bgra8UnormSrgb;

const LAYOUTS: [GroupLayout; 8] = [
    GroupLayout::Settings,
    GroupLayout::TexturePair,
    GroupLayout::CompositeInputs,
    GroupLayout::ColorCorrection,
    GroupLayout::Camera,
    GroupLayout::Terrain,
    GroupLayout::VoxelSettings,
    GroupLayout::Material,
];

struct Gpu {
    device: wgpu::Device,
    queue: wgpu::Queue,
    layouts: Vec<wgpu::BindGroupLayout>,
    views: Vec<(ViewRef, wgpu::TextureView)>,
    buffers: Vec<(BufferRef, wgpu::Buffer)>,
    samplers: Vec<(SamplerRef, wgpu::Sampler)>,
}

fn texture_format(format: TextureFormat) -> wgpu::TextureFormat {
    match format {
        TextureFormat::Rgba32Float => wgpu::TextureFormat::Rgba32Float,
        TextureFormat::Depth32Float => wgpu::TextureFormat::Depth32Float,
        TextureFormat::Rgba8UnormSrgb => wgpu::TextureFormat::Rgba8UnormSrgb,
        TextureFormat::R8Unorm => wgpu::TextureFormat::R8Unorm,
    }
}

fn texture(device: &wgpu::Device, desc: &TextureDesc) -> wgpu::Texture {
    let mut usage = wgpu::TextureUsages::empty();
    usage.set(wgpu::TextureUsages::TEXTURE_BINDING, desc.usage.texture_binding);
    usage.set(wgpu::TextureUsages::STORAGE_BINDING, desc.usage.storage_binding);
    usage.set(wgpu::TextureUsages::RENDER_ATTACHMENT, desc.usage.render_attachment);
    usage.set(wgpu::TextureUsages::COPY_DST, desc.usage.copy_dst);
    device.create_texture(&wgpu::TextureDescriptor {
        label: None,
        size: wgpu::Extent3d {
            width: desc.width,
            height: desc.height,
            depth_or_array_layers: desc.depth_or_array_layers,
        },
        mip_level_count: desc.mip_level_count,
        sample_count: desc.sample_count,
        dimension: match desc.dimension {
            TextureDimension::D2 => wgpu::TextureDimension::D2,
            TextureDimension::D3 => wgpu::TextureDimension::D3,
        },
        format: texture_format(desc.format),
        usage,
        view_formats: &[],
    })
}

fn buffer(device: &wgpu::Device, desc: &BufferDesc, contents: &[u8]) -> wgpu::Buffer {
    assert_eq!(contents.len() as u64, desc.size);
    let mut usage = wgpu::BufferUsages::empty();
    usage.set(wgpu::BufferUsages::UNIFORM, desc.usage.uniform);
    usage.set(wgpu::BufferUsages::COPY_DST, desc.usage.copy_dst);
    usage.set(wgpu::BufferUsages::VERTEX, desc.usage.vertex);
    usage.set(wgpu::BufferUsages::INDEX, desc.usage.index);
    device.create_buffer_init(&wgpu::util::BufferInitDescriptor { label: None, contents, usage })
}

fn store(op: StoreOp) -> wgpu::StoreOp {
    match op {
        StoreOp::Store => wgpu::StoreOp::Store,
        StoreOp::Discard => wgpu::StoreOp::Discard,
    }
}

fn layout(device: &wgpu::Device, layout: GroupLayout) -> wgpu::BindGroupLayout {
    let entries: Vec<wgpu::BindGroupLayoutEntry> = layout_entries(layout)
        .iter()
        .map(|entry| {
            let mut visibility = wgpu::ShaderStages::empty();
            visibility.set(wgpu::ShaderStages::VERTEX, entry.visibility.vertex);
            visibility.set(wgpu::ShaderStages::FRAGMENT, entry.visibility.fragment);
            visibility.set(wgpu::ShaderStages::COMPUTE, entry.visibility.compute);
            wgpu::BindGroupLayoutEntry {
                binding: entry.binding,
                visibility,
                ty: match entry.ty {
                    BindingType::UniformBuffer { dynamic_offset } => wgpu::BindingType::Buffer {
                        ty: wgpu::BufferBindingType::Uniform,
                        has_dynamic_offset: dynamic_offset,
                        min_binding_size: None,
                    },
                    BindingType::SampledTexture { dimension, filterable } => {
                        wgpu::BindingType::Texture {
                            multisampled: false,
                            view_dimension: match dimension {
                                TextureDimension::D2 => wgpu::TextureViewDimension::D2,
                                TextureDimension::D3 => wgpu::TextureViewDimension::D3,
                            },
                            sample_type: wgpu::TextureSampleType::Float { filterable },
                        }
                    }
                    BindingType::StorageTexture { format, write_only } => {
                        assert!(write_only);
                        wgpu::BindingType::StorageTexture {
                            access: wgpu::StorageTextureAccess::WriteOnly,
                            format: texture_format(format),
                            view_dimension: wgpu::TextureViewDimension::D2,
                        }
                    }
                    BindingType::Sampler { filtering } => {
                        assert!(filtering);
                        wgpu::BindingType::Sampler(wgpu::SamplerBindingType::Filtering)
                    }
                },
                count: None,
            }
        })
        .collect();
    device.create_bind_group_layout(&wgpu::BindGroupLayoutDescriptor { label: None, entries: &entries })
}

impl Gpu {
    /// A device that validates and does nothing, with the layouts, samplers and uniform
    /// buffers of the renderer.
    fn new() -> Gpu {
        let instance = wgpu::Instance::new(&wgpu::InstanceDescriptor {
            backends: wgpu::Backends::NOOP,
            backend_options: wgpu::BackendOptions {
                noop: wgpu::NoopBackendOptions { enable: true },
                ..Default::default()
            },
            ..Default::default()
        });
        let adapter =
            pollster::block_on(instance.request_adapter(&wgpu::RequestAdapterOptions::default()))
                .expect("the validating device is there");
        let (device, queue) = pollster::block_on(adapter.request_device(&wgpu::DeviceDescriptor {
            required_features: wgpu::Features::FLOAT32_FILTERABLE,
            ..Default::default()
        }))
        .expect("the validating device can be opened");
        device.push_error_scope(wgpu::ErrorFilter::Validation);

        let layouts = LAYOUTS.iter().map(|l| layout(&device, *l)).collect();
        let samplers = [SamplerRef::Clamp, SamplerRef::Repeat]
            .into_iter()
            .map(|sampler| {
                let desc = sampler_desc(sampler);
                let address_mode = match desc.address_mode {
                    AddressMode::ClampToEdge => wgpu::AddressMode::ClampToEdge,
                    AddressMode::Repeat => wgpu::AddressMode::Repeat,
                };
                assert!(desc.linear);
                (
                    sampler,
                    device.create_sampler(&wgpu::SamplerDescriptor {
                        address_mode_u: address_mode,
                        address_mode_v: address_mode,
                        address_mode_w: address_mode,
                        mag_filter: wgpu::FilterMode::Linear,
                        min_filter: wgpu::FilterMode::Linear,
                        mipmap_filter: wgpu::FilterMode::Linear,
                        ..Default::default()
                    }),
                )
            })
            .collect();
        let uniform = |named: BufferRef, contents: Vec<u8>| {
            (named, buffer(&device, &buffer_desc(named), &contents))
        };
        let buffers = vec![
            uniform(
                BufferRef::BloomSettings,
                words_to_bytes(&voxel_frame::bloom::BloomSettings::default().words()),
            ),
            uniform(
                BufferRef::ColorCorrection,
                words_to_bytes(
                    &voxel_frame::color_correction::ColorCorrectionUniform::default().words(),
                ),
            ),
            uniform(BufferRef::Camera, vec![0; 208]),
            uniform(BufferRef::VoxelSettings, vec![0; 112]),
        ];
        Gpu { device, queue, layouts, views: Vec::new(), buffers, samplers }
    }

    fn add_target(&mut self, source: ViewSource, generation: u64, desc: &TextureDesc) {
        let view = texture(&self.device, desc).create_view(&wgpu::TextureViewDescriptor::default());
        self.views.push((ViewRef { source, generation }, view));
    }

    fn add_chains(&mut self, effect: &BloomEffect) {
        for kind in [ChainKind::Downsample, ChainKind::HorizontalBlur, ChainKind::VerticalBlur] {
            let chain = effect.chain(kind);
            let texture = texture(&self.device, &chain.texture());
            for view in chain.views().iter() {
                self.views.push((
                    view.view_ref(),
                    texture.create_view(&wgpu::TextureViewDescriptor {
                        base_mip_level: view.base_mip_level,
                        mip_level_count: Some(view.mip_level_count),
                        ..Default::default()
                    }),
                ));
            }
        }
    }

    fn view(&self, view: ViewRef) -> &wgpu::TextureView {
        &self.views.iter().find(|(named, _)| *named == view).expect("the view exists").1
    }

    fn layout(&self, layout: GroupLayout) -> &wgpu::BindGroupLayout {
        &self.layouts[LAYOUTS.iter().position(|l| *l == layout).unwrap()]
    }

    fn bind_group(&self, group: &BindGroup) -> wgpu::BindGroup {
        let entries: Vec<wgpu::BindGroupEntry> = group
            .entries
            .iter()
            .map(|entry| wgpu::BindGroupEntry {
                binding: entry.binding,
                resource: match entry.resource {
                    BindResource::Buffer(buffer) => self
                        .buffers
                        .iter()
                        .find(|(named, _)| *named == buffer)
                        .unwrap()
                        .1
                        .as_entire_binding(),
                    BindResource::Sampled(view) | BindResource::Storage(view) => {
                        wgpu::BindingResource::TextureView(self.view(view))
                    }
                    BindResource::Sampler(sampler) => wgpu::BindingResource::Sampler(
                        &self.samplers.iter().find(|(named, _)| *named == sampler).unwrap().1,
                    ),
                },
            })
            .collect();
        self.device.create_bind_group(&wgpu::BindGroupDescriptor {
            label: None,
            layout: self.layout(group.layout),
            entries: &entries,
        })
    }

    fn compute_pipelines(&self, effect: &BloomEffect) -> Vec<wgpu::ComputePipeline> {
        let module = self.device.create_shader_module(wgpu::ShaderModuleDescriptor {
            label: None,
            source: wgpu::ShaderSource::Wgsl(KERNELS.into()),
        });
        effect
            .pipelines()
            .iter()
            .map(|pipeline| {
                let layouts: Vec<&wgpu::BindGroupLayout> =
                    pipeline.layouts.iter().map(|layout| self.layout(*layout)).collect();
                let layout = self.device.create_pipeline_layout(&wgpu::PipelineLayoutDescriptor {
                    label: None,
                    bind_group_layouts: &layouts,
                    push_constant_ranges: &[],
                });
                self.device.create_compute_pipeline(&wgpu::ComputePipelineDescriptor {
                    label: None,
                    layout: Some(&layout),
                    module: &module,
                    entry_point: Some(pipeline.entry_point),
                    compilation_options: Default::default(),
                    cache: None,
                })
            })
            .collect()
    }

    fn record(&self, pipelines: &[wgpu::ComputePipeline], passes: &[ComputePass]) {
        let mut encoder =
            self.device.create_command_encoder(&wgpu::CommandEncoderDescriptor { label: None });
        self.record_compute(&mut encoder, pipelines, passes);
        self.queue.submit(Some(encoder.finish()));
    }

    fn render_pipeline(&self, desc: &RenderPipelineDesc, kernels: &str) -> wgpu::RenderPipeline {
        let module = self.device.create_shader_module(wgpu::ShaderModuleDescriptor {
            label: None,
            source: wgpu::ShaderSource::Wgsl(kernels.into()),
        });
        let layouts: Vec<&wgpu::BindGroupLayout> =
            desc.layouts.iter().map(|layout| self.layout(*layout)).collect();
        let layout = self.device.create_pipeline_layout(&wgpu::PipelineLayoutDescriptor {
            label: None,
            bind_group_layouts: &layouts,
            push_constant_ranges: &[],
        });
        let plan = create_vertex_buffer_layout();
        let attributes: Vec<wgpu::VertexAttribute> = plan
            .attributes
            .iter()
            .map(|a| wgpu::VertexAttribute {
                offset: a.offset,
                shader_location: a.shader_location,
                format: match a.format {
                    VertexFormat::Float32x2 => wgpu::VertexFormat::Float32x2,
                    VertexFormat::Float32x3 => wgpu::VertexFormat::Float32x3,
                },
            })
            .collect();
        let buffers = if desc.vertex_buffer {
            vec![wgpu::VertexBufferLayout {
                array_stride: plan.array_stride,
                step_mode: match plan.step_mode {
                    VertexStepMode::Vertex => wgpu::VertexStepMode::Vertex,
                    VertexStepMode::Instance => wgpu::VertexStepMode::Instance,
                },
                attributes: &attributes,
            }]
        } else {
            Vec::new()
        };
        let format = match desc.target {
            TargetFormat::Rgba32Float => wgpu::TextureFormat::Rgba32Float,
            TargetFormat::Surface => SURFACE_FORMAT,
        };
        self.device.create_render_pipeline(&wgpu::RenderPipelineDescriptor {
            label: None,
            layout: Some(&layout),
            vertex: wgpu::VertexState {
                module: &module,
                entry_point: Some(desc.vertex_entry_point),
                buffers: &buffers,
                compilation_options: Default::default(),
            },
            fragment: Some(wgpu::FragmentState {
                module: &module,
                entry_point: Some(desc.fragment_entry_point),
                compilation_options: Default::default(),
                targets: &[Some(format.into())],
            }),
            primitive: wgpu::PrimitiveState {
                topology: match desc.topology {
                    PrimitiveTopology::TriangleList => wgpu::PrimitiveTopology::TriangleList,
                    PrimitiveTopology::TriangleStrip => wgpu::PrimitiveTopology::TriangleStrip,
                },
                strip_index_format: None,
                front_face: match desc.front_face {
                    FrontFace::Ccw => wgpu::FrontFace::Ccw,
                    FrontFace::Cw => wgpu::FrontFace::Cw,
                },
                cull_mode: match desc.cull_mode {
                    CullMode::Off => None,
                    CullMode::Back => Some(wgpu::Face::Back),
                },
                unclipped_depth: false,
                polygon_mode: wgpu::PolygonMode::Fill,
                conservative: false,
            },
            depth_stencil: desc.depth.map(|depth| wgpu::DepthStencilState {
                format: texture_format(depth.format),
                depth_write_enabled: depth.write_enabled,
                depth_compare: match depth.compare {
                    CompareFunction::Less => wgpu::CompareFunction::Less,
                    CompareFunction::LessEqual => wgpu::CompareFunction::LessEqual,
                    CompareFunction::Always => wgpu::CompareFunction::Always,
                },
                stencil: wgpu::StencilState::default(),
                bias: wgpu::DepthBiasState::default(),
            }),
            multisample: wgpu::MultisampleState::default(),
            multiview: None,
            cache: None,
        })
    }

    fn record_render(
        &self,
        encoder: &mut wgpu::CommandEncoder,
        pipeline: Option<&wgpu::RenderPipeline>,
        quad: &(wgpu::Buffer, wgpu::Buffer),
        pass: &RenderPass,
    ) {
        let groups: Vec<wgpu::BindGroup> =
            pass.groups.iter().map(|group| self.bind_group(group)).collect();
        let mut rpass = encoder.begin_render_pass(&wgpu::RenderPassDescriptor {
            label: None,
            color_attachments: &[Some(wgpu::RenderPassColorAttachment {
                view: self.view(pass.target),
                resolve_target: None,
                ops: wgpu::Operations {
                    load: match pass.color_load {
                        LoadOp::ClearBlack => wgpu::LoadOp::Clear(wgpu::Color::BLACK),
                        LoadOp::Load => wgpu::LoadOp::Load,
                    },
                    store: store(pass.color_store),
                },
            })],
            depth_stencil_attachment: pass.depth.map(|depth| {
                wgpu::RenderPassDepthStencilAttachment {
                    view: self.view(depth.view),
                    depth_ops: Some(wgpu::Operations {
                        load: wgpu::LoadOp::Clear(f32::from_bits(depth.clear_depth)),
                        store: store(depth.store),
                    }),
                    stencil_ops: None,
                }
            }),
            timestamp_writes: None,
            occlusion_query_set: None,
        });
        if let Some(pipeline) = pipeline {
            rpass.set_pipeline(pipeline);
        }
        for (index, group) in groups.iter().enumerate() {
            rpass.set_bind_group(index as u32, group, &[]);
        }
        match pass.draw {
            DrawCall::Indexed { index_count, instance_count, format } => {
                rpass.set_vertex_buffer(0, quad.0.slice(..));
                rpass.set_index_buffer(
                    quad.1.slice(..),
                    match format {
                        IndexFormat::Uint16 => wgpu::IndexFormat::Uint16,
                        IndexFormat::Uint32 => wgpu::IndexFormat::Uint32,
                    },
                );
                rpass.draw_indexed(0..index_count, 0, 0..instance_count);
            }
            DrawCall::Vertices { vertex_count, instance_count } => {
                rpass.draw(0..vertex_count, 0..instance_count)
            }
            DrawCall::UiDrawData => {}
        }
    }

    /// Allocates everything a frame of `ctx` refers to.
    fn add_frame_targets(&mut self, ctx: &WgpuCtx) {
        let generation = ctx.generation();
        self.add_target(ViewSource::Scene, generation, &ctx.render_texture());
        self.add_target(ViewSource::PostProcess, generation, &ctx.post_process_texture());
        self.add_target(ViewSource::Depth, generation, &ctx.depth_texture());
        self.add_chains(ctx.bloom_effect());
        let surface = self
            .device
            .create_texture(&wgpu::TextureDescriptor {
                label: None,
                size: wgpu::Extent3d {
                    width: ctx.width(),
                    height: ctx.height(),
                    depth_or_array_layers: 1,
                },
                mip_level_count: 1,
                sample_count: 1,
                dimension: wgpu::TextureDimension::D2,
                format: SURFACE_FORMAT,
                usage: wgpu::TextureUsages::RENDER_ATTACHMENT,
                view_formats: &[],
            })
            .create_view(&wgpu::TextureViewDescriptor::default());
        self.views.push((ViewRef { source: ViewSource::Surface, generation }, surface));
    }

    /// Carries out the steps of a frame. The surface is a texture of its own, and the user
    /// interface draws nothing.
    fn frame(
        &self,
        compute: &[wgpu::ComputePipeline],
        scene: &wgpu::RenderPipeline,
        correction: &wgpu::RenderPipeline,
        steps: &[FrameStep],
    ) {
        let quad = (
            buffer(&self.device, &voxel_frame::vertex::square_vertex_buffer(), &[0u8; 128]),
            buffer(
                &self.device,
                &voxel_frame::vertex::square_index_buffer(),
                &square_index_bytes(),
            ),
        );
        let mut encoder = Some(
            self.device.create_command_encoder(&wgpu::CommandEncoderDescriptor { label: None }),
        );
        let mut acquired = false;
        let mut presented = false;
        for step in steps {
            match step {
                FrameStep::AcquireSurface => acquired = true,
                FrameStep::ScenePass(pass) => {
                    assert_eq!(pass.kind, RenderPassKind::Scene);
                    self.record_render(encoder.as_mut().unwrap(), Some(scene), &quad, pass);
                }
                FrameStep::ColorCorrection(pass) => {
                    assert!(acquired);
                    assert_eq!(pass.kind, RenderPassKind::ColorCorrection);
                    self.record_render(encoder.as_mut().unwrap(), Some(correction), &quad, pass);
                }
                FrameStep::UiOverlay(pass) => {
                    assert!(acquired);
                    self.record_render(encoder.as_mut().unwrap(), None, &quad, pass);
                }
                FrameStep::BloomRender(passes) => {
                    self.record_compute(encoder.as_mut().unwrap(), compute, passes);
                }
                FrameStep::BloomApply(pass) => {
                    self.record_compute(
                        encoder.as_mut().unwrap(),
                        compute,
                        std::slice::from_ref(pass),
                    );
                }
                FrameStep::WriteUniform(write) => {
                    let buffer =
                        &self.buffers.iter().find(|(named, _)| *named == write.buffer).unwrap().1;
                    self.queue.write_buffer(buffer, write.offset, &words_to_bytes(&write.words));
                }
                FrameStep::Submit => {
                    self.queue.submit(Some(encoder.take().unwrap().finish()));
                }
                FrameStep::Present => {
                    assert!(acquired && encoder.is_none());
                    presented = true;
                }
            }
        }
        assert!(presented);
    }

    fn record_compute(
        &self,
        encoder: &mut wgpu::CommandEncoder,
        pipelines: &[wgpu::ComputePipeline],
        passes: &[ComputePass],
    ) {
        for pass in passes {
            let groups: Vec<wgpu::BindGroup> =
                pass.groups.iter().map(|group| self.bind_group(group)).collect();
            let mut cpass = encoder.begin_compute_pass(&wgpu::ComputePassDescriptor {
                label: None,
                timestamp_writes: None,
            });
            cpass.set_pipeline(&pipelines[pipeline_index(pass.kind)]);
            for (index, group) in groups.iter().enumerate() {
                cpass.set_bind_group(index as u32, group, &[]);
            }
            cpass.dispatch_workgroups(pass.dispatch_x, pass.dispatch_y, pass.dispatch_z);
        }
    }

    /// What the device objected to since it was opened, if anything.
    fn objection(&self) -> Option<String> {
        pollster::block_on(self.device.pop_error_scope()).map(|error| error.to_string())
    }
}

#[test]
fn device_accepts_the_bloom_passes() {
    let effect = BloomEffect::new(800, 600);
    let scene = ViewRef { source: ViewSource::Scene, generation: 0 };
    let target = ViewRef { source: ViewSource::PostProcess, generation: 0 };
    let mut gpu = Gpu::new();
    gpu.add_target(ViewSource::Scene, 0, &create_color_target(800, 600));
    gpu.add_target(ViewSource::PostProcess, 0, &create_color_target(800, 600));
    gpu.add_chains(&effect);
    let pipelines = gpu.compute_pipelines(&effect);
    let mut passes = effect.render(scene);
    passes.push(effect.apply(target, scene));
    gpu.record(&pipelines, &passes);
    assert_eq!(gpu.objection(), None);
}

#[test]
fn device_accepts_the_bloom_passes_after_a_resize() {
    let mut effect = BloomEffect::new(800, 600);
    effect.resize(1024, 512);
    let scene = ViewRef { source: ViewSource::Scene, generation: 1 };
    let target = ViewRef { source: ViewSource::PostProcess, generation: 1 };
    let mut gpu = Gpu::new();
    gpu.add_target(ViewSource::Scene, 1, &create_color_target(1024, 512));
    gpu.add_target(ViewSource::PostProcess, 1, &create_color_target(1024, 512));
    gpu.add_chains(&effect);
    let pipelines = gpu.compute_pipelines(&effect);
    let mut passes = effect.render(scene);
    passes.push(effect.apply(target, scene));
    gpu.record(&pipelines, &passes);
    assert_eq!(gpu.objection(), None);
}

#[test]
fn device_accepts_the_persistent_bind_groups() {
    let effect = BloomEffect::new(800, 600);
    let mut gpu = Gpu::new();
    gpu.add_chains(&effect);
    gpu.bind_group(effect.settings_bind_group());
    for group in effect
        .downsample_bind_groups()
        .iter()
        .chain(effect.horizontal_blur_bind_groups().iter())
        .chain(effect.vertical_blur_bind_groups().iter())
    {
        gpu.bind_group(group);
    }
    gpu.bind_group(&effect.composite_inputs());
    assert_eq!(gpu.objection(), None);
}

#[test]
fn device_accepts_the_render_pass_bind_groups() {
    let ctx = WgpuCtx::new(640, 480);
    let mut gpu = Gpu::new();
    gpu.add_target(ViewSource::PostProcess, 0, &ctx.post_process_texture());
    gpu.add_target(ViewSource::Scene, 0, &ctx.render_texture());
    gpu.add_target(ViewSource::Depth, 0, &ctx.depth_texture());
    add_assets(&mut gpu);
    for group in &ctx.scene_pass().groups {
        gpu.bind_group(group);
    }
    gpu.bind_group(ctx.color_correction_effect().bind_group());
    let effect = ColorCorrectionEffect::new(ViewRef { source: ViewSource::PostProcess, generation: 0 });
    for group in &effect.apply(ViewRef { source: ViewSource::Surface, generation: 0 }).groups {
        gpu.bind_group(group);
    }
    assert_eq!(gpu.objection(), None);
}

#[test]
fn device_objects_to_a_miswired_bind_group() {
    let effect = BloomEffect::new(800, 600);
    let mut gpu = Gpu::new();
    gpu.add_chains(&effect);
    gpu.add_target(ViewSource::Material(0), 0, &create_image_texture(16, 16));
    // An image texture can be sampled, but not written as storage.
    let image = ViewRef { source: ViewSource::Material(0), generation: 0 };
    let level = effect.chain(ChainKind::Downsample).view_ref(0);
    gpu.bind_group(&BindGroup {
        layout: GroupLayout::TexturePair,
        entries: vec![
            BindGroupEntry { binding: 0, resource: BindResource::Sampled(level) },
            BindGroupEntry { binding: 1, resource: BindResource::Storage(image) },
        ],
    });
    assert!(gpu.objection().is_some());
}

fn add_assets(gpu: &mut Gpu) {
    for asset in [
        voxel_frame::texture::AssetTexture::Noise0,
        voxel_frame::texture::AssetTexture::Noise1,
        voxel_frame::texture::AssetTexture::Grain,
        voxel_frame::texture::AssetTexture::Dirt,
    ] {
        gpu.add_target(
            ViewSource::Asset(asset),
            0,
            &voxel_frame::assets::asset_texture(asset, 64, 64),
        );
    }
}

#[test]
fn device_accepts_a_whole_frame() {
    let mut ctx = WgpuCtx::new(800, 600);
    let mut gpu = Gpu::new();
    add_assets(&mut gpu);
    gpu.add_frame_targets(&ctx);
    let compute = gpu.compute_pipelines(ctx.bloom_effect());
    let scene = gpu.render_pipeline(&ctx.render_pipeline(), SCENE_KERNELS);
    let correction =
        gpu.render_pipeline(&ctx.color_correction_effect().pipeline(), CORRECTION_KERNELS);
    gpu.frame(&compute, &scene, &correction, &ctx.draw());
    gpu.frame(&compute, &scene, &correction, &ctx.draw());
    assert_eq!(gpu.objection(), None);
}

#[test]
fn device_accepts_a_frame_after_a_resize() {
    let mut ctx = WgpuCtx::new(800, 600);
    let steps = ctx.resize((1920, 1080));
    assert_eq!(steps[0], ResizeStep::ConfigureSurface { width: 1920, height: 1080 });
    let mut gpu = Gpu::new();
    add_assets(&mut gpu);
    gpu.add_frame_targets(&ctx);
    let compute = gpu.compute_pipelines(ctx.bloom_effect());
    let scene = gpu.render_pipeline(&ctx.render_pipeline(), SCENE_KERNELS);
    let correction =
        gpu.render_pipeline(&ctx.color_correction_effect().pipeline(), CORRECTION_KERNELS);
    gpu.frame(&compute, &scene, &correction, &ctx.draw());
    assert_eq!(gpu.objection(), None);
}

#[test]
fn device_objects_to_writing_a_buffer_that_is_no_copy_destination() {
    let gpu = Gpu::new();
    // A vertex buffer is filled when it is created and cannot be written afterwards.
    let vertices =
        buffer(&gpu.device, &voxel_frame::vertex::square_vertex_buffer(), &[0u8; 128]);
    gpu.queue.write_buffer(&vertices, 0, &[0u8; 16]);
    assert!(gpu.objection().is_some());
}
