//! The textures that are loaded once at start-up.

use crate::texture::{
    create_image_texture, spec_image_texture, spec_upload_usage, AssetTexture, TextureDesc,
    TextureDimension, TextureFormat, TextureUsages,
};
use vstd::prelude::*;

verus! {

/// Edge length of the volume noise, in texels.
pub const NOISE_VOLUME_EDGE: u32 = 32;

/// Bytes that precede the texels in the file of the volume noise.
pub const NOISE_VOLUME_HEADER: usize = 20;

/// Number of texels, and of bytes, of the volume noise.
pub const NOISE_VOLUME_LEN: usize = 32768;

/// The volume noise: 32 texels along each axis, one byte each.
pub open spec fn spec_noise_volume_texture() -> TextureDesc {
    TextureDesc {
        width: NOISE_VOLUME_EDGE,
        height: NOISE_VOLUME_EDGE,
        depth_or_array_layers: NOISE_VOLUME_EDGE,
        mip_level_count: 1,
        sample_count: 1,
        dimension: TextureDimension::D3,
        format: TextureFormat::R8Unorm,
        usage: spec_upload_usage(),
    }
}

/// The texture to allocate for a start-up texture. The three images take
/// the size of the decoded image; the volume noise has its fixed size,
/// whatever `width` and `height` are.
pub open spec fn spec_asset_texture(asset: AssetTexture, width: u32, height: u32) -> TextureDesc {
    match asset {
        AssetTexture::Noise1 => spec_noise_volume_texture(),
        _ => spec_image_texture(width, height),
    }
}

/// The texture to allocate for a start-up texture.
pub fn asset_texture(asset: AssetTexture, width: u32, height: u32) -> (texture: TextureDesc)
    ensures
        texture == spec_asset_texture(asset, width, height),
{
    match asset {
        AssetTexture::Noise1 => TextureDesc {
            width: NOISE_VOLUME_EDGE,
            height: NOISE_VOLUME_EDGE,
            depth_or_array_layers: NOISE_VOLUME_EDGE,
            mip_level_count: 1,
            sample_count: 1,
            dimension: TextureDimension::D3,
            format: TextureFormat::R8Unorm,
            usage: TextureUsages {
                texture_binding: true,
                storage_binding: false,
                render_attachment: false,
                copy_dst: true,
            },
        },
        _ => create_image_texture(width, height),
    }
}

/// Where the texels of the volume noise lie in a file of `file_len` bytes:
/// right after the header, as a half-open byte range. `None` if the file is
/// too short to hold them.
pub fn noise_volume_range(file_len: usize) -> (range: Option<(usize, usize)>)
    ensures
        file_len >= NOISE_VOLUME_HEADER + NOISE_VOLUME_LEN ==> range == Some(
            (NOISE_VOLUME_HEADER, (NOISE_VOLUME_HEADER + NOISE_VOLUME_LEN) as usize),
        ),
        file_len < NOISE_VOLUME_HEADER + NOISE_VOLUME_LEN ==> range is None,
{
    if file_len >= NOISE_VOLUME_HEADER + NOISE_VOLUME_LEN {
        Some((NOISE_VOLUME_HEADER, NOISE_VOLUME_HEADER + NOISE_VOLUME_LEN))
    } else {
        None
    }
}

/// The volume noise holds one byte for each of its texels, and its upload
/// reads exactly the range after the header.
pub proof fn lemma_noise_volume_len()
    ensures
        NOISE_VOLUME_LEN == NOISE_VOLUME_EDGE * NOISE_VOLUME_EDGE * NOISE_VOLUME_EDGE,
        crate::texture::spec_upload_len(spec_noise_volume_texture()) == NOISE_VOLUME_LEN,
        crate::texture::spec_texture_upload(spec_noise_volume_texture()).bytes_per_row == 32,
        crate::texture::spec_texture_upload(spec_noise_volume_texture()).rows_per_image == 32,
{
    assert(32 * 32 * 32 == 32768) by (nonlinear_arith);
    assert(1 * 32 * 32 * 32 == 32768) by (nonlinear_arith);
}

} // verus!
