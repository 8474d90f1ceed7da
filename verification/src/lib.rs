//! Verified planning for a real-time renderer with a bloom and
//! colour-correction post-processing chain.
//!
//! The crate decides *what* a renderer has to create and record: the sizes
//! of mip chains, the wiring of bind groups, the order of compute
//! dispatches, the passes of a frame and the steps of a resize. Every
//! decision is a plain value with a proved contract. Handing those values
//! to a graphics device, a window system or a user interface is left to the
//! caller.
//!
//! * [`mip`] and [`texture`]: level sizes, dispatch grids, texture
//!   descriptions, generations of allocations.
//! * [`bind`], [`buffer`]: bind-group layouts and bind groups; buffer
//!   descriptions.
//! * [`bloom`], [`schedule`], [`wiring`]: the bloom effect, its pass
//!   scheduler and what holds of both.
//! * [`color_correction`], [`render_pass`], [`pipeline`]: the colour
//!   correction, render passes and pipelines.
//! * [`wgpu_ctx`]: the frame orchestrator.
//! * [`events`], [`input`]: reactions to window events; key and button
//!   state.
//! * [`assets`], [`model`], [`vertex`], [`components`], [`pod`]: start-up
//!   textures, loaded models, vertex layout, scene components, buffer
//!   contents as bytes.

pub mod assets;
pub mod bind;
pub mod bloom;
pub mod buffer;
pub mod color_correction;
pub mod components;
pub mod events;
pub mod input;
pub mod mip;
pub mod model;
pub mod pipeline;
pub mod pod;
pub mod render_pass;
pub mod schedule;
pub mod texture;
pub mod vertex;
pub mod wgpu_ctx;
pub mod wiring;

pub use bloom::{BloomEffect, BloomSettings};
pub use color_correction::{ColorCorrectionEffect, ColorCorrectionUniform};
pub use components::ModelInstance;
pub use events::App;
pub use input::Input;
pub use mip::{dispatch_count, mip_dim, MipChain, TILE};
pub use model::{Material, Mesh, Model};
pub use vertex::create_vertex_buffer_layout;
pub use wgpu_ctx::WgpuCtx;
