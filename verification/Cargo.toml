[package]
name = "voxel_frame"
version = "0.1.0"
edition = "2021"
publish = false

[dependencies]
bytemuck = { version = "=1.25.2", features = ["derive"] }
cgmath = "=0.18.0"
gltf = { version = "=1.4.1", default-features = false, features = ["utils", "names"] }
hecs = "=0.10.5"
image = { version = "=0.25.10", default-features = false, features = ["png"] }
imgui = "=0.12.0"
imgui-wgpu = "=0.25.0"
imgui-winit-support = "=0.13.0"
pollster = "=0.4.0"
wgpu = { version = "=25.0.2", default-features = false, features = ["wgsl", "vulkan", "gles", "noop"] }
winit = { version = "=0.30.13", default-features = false, features = ["x11", "rwh_06"] }
