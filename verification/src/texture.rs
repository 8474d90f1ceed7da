//! Descriptions of textures and references to views of them.
//!
//! Nothing here touches a device: a [`TextureDesc`] says what to allocate and
//! a [`ViewRef`] names a view by what it shows and by the generation of the
//! allocation it belongs to.

use vstd::prelude::*;

verus! {

/// Texel formats used by the renderer.
#[derive(Clone, Copy, Debug, PartialEq, Eq, Structural)]
pub enum TextureFormat {
    /// Four 32-bit float channels: every off-screen colour target.
    Rgba32Float,
    /// One 32-bit float depth channel.
    Depth32Float,
    /// Four 8-bit sRGB channels: images loaded from disk.
    Rgba8UnormSrgb,
    /// One 8-bit channel: the volume noise.
    R8Unorm,
}

/// Dimensionality of a texture.
#[derive(Clone, Copy, Debug, PartialEq, Eq, Structural)]
pub enum TextureDimension {
    D2,
    D3,
}

/// The ways a texture may be used, one flag each.
#[derive(Clone, Copy, Debug, PartialEq, Eq, Structural)]
pub struct TextureUsages {
    /// Sampled in a shader.
    pub texture_binding: bool,
    /// Written as a storage texture from a compute shader.
    pub storage_binding: bool,
    /// Drawn into as a colour or depth attachment.
    pub render_attachment: bool,
    /// Filled by a copy from the CPU.
    pub copy_dst: bool,
}

/// Everything needed to allocate one texture.
#[derive(Clone, Copy, Debug, PartialEq, Eq, Structural)]
pub struct TextureDesc {
    pub width: u32,
    pub height: u32,
    pub depth_or_array_layers: u32,
    pub mip_level_count: u32,
    pub sample_count: u32,
    pub dimension: TextureDimension,
    pub format: TextureFormat,
    pub usage: TextureUsages,
}

/// The three mip chains of a bloom effect.
#[derive(Clone, Copy, Debug, PartialEq, Eq, Structural)]
pub enum ChainKind {
    /// Bright-pass output at level 0, each further level half the one before.
    Downsample,
    /// The downsample chain blurred along x.
    HorizontalBlur,
    /// The horizontal-blur chain blurred along y.
    VerticalBlur,
}

/// The textures that are loaded once at start-up and never resized.
#[derive(Clone, Copy, Debug, PartialEq, Eq, Structural)]
pub enum AssetTexture {
    /// Two-dimensional colour noise.
    Noise0,
    /// Three-dimensional grey noise, 32 texels along each axis.
    Noise1,
    /// Surface grain.
    Grain,
    /// Surface dirt.
    Dirt,
}

/// What a texture view shows.
#[derive(Clone, Copy, Debug, PartialEq, Eq, Structural)]
pub enum ViewSource {
    /// The colour target the scene is rendered into.
    Scene,
    /// The target that receives the scene combined with its bloom.
    PostProcess,
    /// The depth target of the scene pass.
    Depth,
    /// The texture acquired from the presentation surface for this frame.
    Surface,
    /// One level of one mip chain.
    Mip { chain: ChainKind, level: u32 },
    /// A texture loaded at start-up.
    Asset(AssetTexture),
    /// The diffuse texture of a material of a loaded model, by the
    /// material's index within its model.
    Material(usize),
}

/// A reference to a texture view: what it shows, and the generation of the
/// allocation behind it. Two references with different generations never
/// denote the same device resource, so a reference whose generation is not
/// the current one of its owner is stale.
#[derive(Clone, Copy, Debug, PartialEq, Eq, Structural)]
pub struct ViewRef {
    pub source: ViewSource,
    pub generation: u64,
}

/// The generation that follows `generation`. It wraps, and is never equal to
/// its argument.
pub open spec fn spec_next_generation(generation: u64) -> u64 {
    if generation == u64::MAX {
        0
    } else {
        (generation + 1) as u64
    }
}

/// The generation that follows `generation`.
pub fn next_generation(generation: u64) -> (next: u64)
    ensures
        next == spec_next_generation(generation),
        next != generation,
{
    if generation == u64::MAX {
        0
    } else {
        generation + 1
    }
}

/// Usage of a mip texture: sampled by one pass, written as storage by another.
pub open spec fn spec_mip_usage() -> TextureUsages {
    TextureUsages {
        texture_binding: true,
        storage_binding: true,
        render_attachment: false,
        copy_dst: false,
    }
}

/// Usage of a full-resolution colour target: drawn into, sampled, and written
/// as storage.
pub open spec fn spec_color_target_usage() -> TextureUsages {
    TextureUsages {
        texture_binding: true,
        storage_binding: true,
        render_attachment: true,
        copy_dst: false,
    }
}

/// Usage of the depth target.
pub open spec fn spec_depth_usage() -> TextureUsages {
    TextureUsages {
        texture_binding: true,
        storage_binding: false,
        render_attachment: true,
        copy_dst: false,
    }
}

/// Usage of a texture that is filled once from the CPU and then sampled.
pub open spec fn spec_upload_usage() -> TextureUsages {
    TextureUsages {
        texture_binding: true,
        storage_binding: false,
        render_attachment: false,
        copy_dst: true,
    }
}

/// The 2D float texture with `mip_count` levels that backs one mip chain.
pub open spec fn spec_mip_texture(width: u32, height: u32, mip_count: u32) -> TextureDesc {
    TextureDesc {
        width,
        height,
        depth_or_array_layers: 1,
        mip_level_count: mip_count,
        sample_count: 1,
        dimension: TextureDimension::D2,
        format: TextureFormat::Rgba32Float,
        usage: spec_mip_usage(),
    }
}

/// A single-level 2D float colour target.
pub open spec fn spec_color_target(width: u32, height: u32) -> TextureDesc {
    TextureDesc {
        width,
        height,
        depth_or_array_layers: 1,
        mip_level_count: 1,
        sample_count: 1,
        dimension: TextureDimension::D2,
        format: TextureFormat::Rgba32Float,
        usage: spec_color_target_usage(),
    }
}

/// The depth target that goes with a colour target of the same size.
pub open spec fn spec_depth_texture(width: u32, height: u32) -> TextureDesc {
    TextureDesc {
        width,
        height,
        depth_or_array_layers: 1,
        mip_level_count: 1,
        sample_count: 1,
        dimension: TextureDimension::D2,
        format: TextureFormat::Depth32Float,
        usage: spec_depth_usage(),
    }
}

/// Describes the texture behind one mip chain.
pub fn create_mip_texture(width: u32, height: u32, mip_count: u32) -> (texture: TextureDesc)
    requires
        width >= 1,
        height >= 1,
        mip_count >= 1,
    ensures
        texture == spec_mip_texture(width, height, mip_count),
{
    TextureDesc {
        width,
        height,
        depth_or_array_layers: 1,
        mip_level_count: mip_count,
        sample_count: 1,
        dimension: TextureDimension::D2,
        format: TextureFormat::Rgba32Float,
        usage: TextureUsages {
            texture_binding: true,
            storage_binding: true,
            render_attachment: false,
            copy_dst: false,
        },
    }
}

/// Describes a full-resolution colour target (the scene target and the
/// post-process target have this shape).
pub fn create_color_target(width: u32, height: u32) -> (texture: TextureDesc)
    requires
        width >= 1,
        height >= 1,
    ensures
        texture == spec_color_target(width, height),
{
    TextureDesc {
        width,
        height,
        depth_or_array_layers: 1,
        mip_level_count: 1,
        sample_count: 1,
        dimension: TextureDimension::D2,
        format: TextureFormat::Rgba32Float,
        usage: TextureUsages {
            texture_binding: true,
            storage_binding: true,
            render_attachment: true,
            copy_dst: false,
        },
    }
}

/// Describes the depth target for a surface of the given size.
pub fn create_depth_texture(width: u32, height: u32) -> (texture: TextureDesc)
    requires
        width >= 1,
        height >= 1,
    ensures
        texture == spec_depth_texture(width, height),
{
    TextureDesc {
        width,
        height,
        depth_or_array_layers: 1,
        mip_level_count: 1,
        sample_count: 1,
        dimension: TextureDimension::D2,
        format: TextureFormat::Depth32Float,
        usage: TextureUsages {
            texture_binding: true,
            storage_binding: false,
            render_attachment: true,
            copy_dst: false,
        },
    }
}

/// A 2D sRGB texture that is filled once from a decoded image.
pub open spec fn spec_image_texture(width: u32, height: u32) -> TextureDesc {
    TextureDesc {
        width,
        height,
        depth_or_array_layers: 1,
        mip_level_count: 1,
        sample_count: 1,
        dimension: TextureDimension::D2,
        format: TextureFormat::Rgba8UnormSrgb,
        usage: spec_upload_usage(),
    }
}

/// Describes the texture for a decoded image of the given size.
pub fn create_image_texture(width: u32, height: u32) -> (texture: TextureDesc)
    ensures
        texture == spec_image_texture(width, height),
{
    TextureDesc {
        width,
        height,
        depth_or_array_layers: 1,
        mip_level_count: 1,
        sample_count: 1,
        dimension: TextureDimension::D2,
        format: TextureFormat::Rgba8UnormSrgb,
        usage: TextureUsages {
            texture_binding: true,
            storage_binding: false,
            render_attachment: false,
            copy_dst: true,
        },
    }
}

/// Size in bytes of one texel of the given format.
pub open spec fn spec_texel_size(format: TextureFormat) -> u32 {
    match format {
        TextureFormat::Rgba32Float => 16,
        TextureFormat::Depth32Float => 4,
        TextureFormat::Rgba8UnormSrgb => 4,
        TextureFormat::R8Unorm => 1,
    }
}

/// Size in bytes of one texel of the given format.
pub fn texel_size(format: TextureFormat) -> (size: u32)
    ensures
        size == spec_texel_size(format),
{
    match format {
        TextureFormat::Rgba32Float => 16,
        TextureFormat::Depth32Float => 4,
        TextureFormat::Rgba8UnormSrgb => 4,
        TextureFormat::R8Unorm => 1,
    }
}

/// How the bytes of a tightly packed image are laid out for a copy into the
/// whole of level 0 of a texture.
#[derive(Clone, Copy, Debug, PartialEq, Eq, Structural)]
pub struct TextureUpload {
    /// Offset of the first texel in the data.
    pub offset: u64,
    /// Bytes from one row to the next.
    pub bytes_per_row: u32,
    /// Rows from one layer to the next.
    pub rows_per_image: u32,
    /// Extent of the copy.
    pub width: u32,
    pub height: u32,
    pub depth_or_array_layers: u32,
}

/// The upload that fills `texture` from tightly packed data.
pub open spec fn spec_texture_upload(texture: TextureDesc) -> TextureUpload {
    TextureUpload {
        offset: 0,
        bytes_per_row: (spec_texel_size(texture.format) * texture.width) as u32,
        rows_per_image: texture.height,
        width: texture.width,
        height: texture.height,
        depth_or_array_layers: texture.depth_or_array_layers,
    }
}

/// Number of bytes the upload for `texture` reads.
pub open spec fn spec_upload_len(texture: TextureDesc) -> nat {
    (spec_texel_size(texture.format) * texture.width * texture.height
        * texture.depth_or_array_layers) as nat
}

/// The upload that fills `texture` from tightly packed data, or `None` if
/// the length of a row does not fit in 32 bits.
pub fn texture_upload(texture: &TextureDesc) -> (upload: Option<TextureUpload>)
    ensures
        spec_texel_size(texture.format) * texture.width <= u32::MAX ==> upload == Some(
            spec_texture_upload(*texture),
        ),
        spec_texel_size(texture.format) * texture.width > u32::MAX ==> upload is None,
{
    let texel: u32 = texel_size(texture.format);
    match texel.checked_mul(texture.width) {
        Some(bytes_per_row) => Some(
            TextureUpload {
                offset: 0,
                bytes_per_row,
                rows_per_image: texture.height,
                width: texture.width,
                height: texture.height,
                depth_or_array_layers: texture.depth_or_array_layers,
            },
        ),
        None => None,
    }
}

} // verus!
