//! Descriptions of buffers: how large each is and how it may be used.

use crate::bind::BufferRef;
use vstd::prelude::*;

verus! {

/// The ways a buffer may be used, one flag each.
#[derive(Clone, Copy, Debug, PartialEq, Eq, Structural)]
pub struct BufferUsages {
    /// Bound as a uniform block.
    pub uniform: bool,
    /// Written from the CPU after it was created.
    pub copy_dst: bool,
    /// Read as vertices.
    pub vertex: bool,
    /// Read as indices.
    pub index: bool,
}

/// Everything needed to allocate one buffer.
#[derive(Clone, Copy, Debug, PartialEq, Eq, Structural)]
pub struct BufferDesc {
    /// Size in bytes.
    pub size: u64,
    pub usage: BufferUsages,
}

/// Number of 32-bit words of the bloom settings block.
pub const BLOOM_SETTINGS_WORDS: u32 = 4;

/// Number of 32-bit words of the colour-correction block.
pub const COLOR_CORRECTION_WORDS: u32 = 3;

/// Number of 32-bit words of the camera block: three 4 by 4 matrices, a
/// position and the time.
pub const CAMERA_WORDS: u32 = 52;

/// Number of 32-bit words of the voxel settings block.
pub const VOXEL_SETTINGS_WORDS: u32 = 28;

/// Usage of a uniform buffer: bound as a uniform block, and written from
/// the CPU.
pub open spec fn spec_uniform_usage() -> BufferUsages {
    BufferUsages { uniform: true, copy_dst: true, vertex: false, index: false }
}

/// A uniform buffer of `words` 32-bit words: four bytes to the word.
pub open spec fn spec_uniform_buffer(words: nat) -> BufferDesc {
    BufferDesc { size: (4 * words) as u64, usage: spec_uniform_usage() }
}

/// A vertex buffer of `size` bytes, filled when it is created.
pub open spec fn spec_vertex_buffer(size: u64) -> BufferDesc {
    BufferDesc {
        size,
        usage: BufferUsages { uniform: false, copy_dst: false, vertex: true, index: false },
    }
}

/// An index buffer of `size` bytes, filled when it is created.
pub open spec fn spec_index_buffer(size: u64) -> BufferDesc {
    BufferDesc {
        size,
        usage: BufferUsages { uniform: false, copy_dst: false, vertex: false, index: true },
    }
}

/// Number of 32-bit words of each uniform block.
pub open spec fn spec_buffer_words(buffer: BufferRef) -> u32 {
    match buffer {
        BufferRef::BloomSettings => BLOOM_SETTINGS_WORDS,
        BufferRef::ColorCorrection => COLOR_CORRECTION_WORDS,
        BufferRef::Camera => CAMERA_WORDS,
        BufferRef::VoxelSettings => VOXEL_SETTINGS_WORDS,
    }
}

/// The buffer behind each uniform block that bind groups refer to.
pub open spec fn spec_buffer(buffer: BufferRef) -> BufferDesc {
    spec_uniform_buffer(spec_buffer_words(buffer) as nat)
}

/// Describes a uniform buffer of `words` 32-bit words.
pub fn uniform_buffer(words: u32) -> (desc: BufferDesc)
    ensures
        desc == spec_uniform_buffer(words as nat),
        desc.size == 4 * words,
{
    let words: u64 = words as u64;
    BufferDesc {
        size: 4 * words,
        usage: BufferUsages { uniform: true, copy_dst: true, vertex: false, index: false },
    }
}

/// Describes a vertex buffer of `size` bytes.
pub fn vertex_buffer(size: u64) -> (desc: BufferDesc)
    ensures
        desc == spec_vertex_buffer(size),
{
    BufferDesc {
        size,
        usage: BufferUsages { uniform: false, copy_dst: false, vertex: true, index: false },
    }
}

/// Describes an index buffer of `size` bytes.
pub fn index_buffer(size: u64) -> (desc: BufferDesc)
    ensures
        desc == spec_index_buffer(size),
{
    BufferDesc {
        size,
        usage: BufferUsages { uniform: false, copy_dst: false, vertex: false, index: true },
    }
}

/// Describes the buffer behind a uniform block.
pub fn buffer_desc(buffer: BufferRef) -> (desc: BufferDesc)
    ensures
        desc == spec_buffer(buffer),
{
    let words: u32 = match buffer {
        BufferRef::BloomSettings => BLOOM_SETTINGS_WORDS,
        BufferRef::ColorCorrection => COLOR_CORRECTION_WORDS,
        BufferRef::Camera => CAMERA_WORDS,
        BufferRef::VoxelSettings => VOXEL_SETTINGS_WORDS,
    };
    uniform_buffer(words)
}

/// Every uniform buffer is a whole number of words, can be bound as a
/// uniform block and written from the CPU, and is never read as vertices or
/// indices.
pub proof fn lemma_uniform_buffers(buffer: BufferRef)
    ensures
        spec_buffer(buffer).size == 4 * spec_buffer_words(buffer),
        spec_buffer(buffer).usage.uniform,
        spec_buffer(buffer).usage.copy_dst,
        !spec_buffer(buffer).usage.vertex,
        !spec_buffer(buffer).usage.index,
        spec_buffer(BufferRef::BloomSettings) == spec_uniform_buffer(4),
        spec_buffer(BufferRef::ColorCorrection) == spec_uniform_buffer(3),
        spec_buffer(BufferRef::BloomSettings).size == 16,
        spec_buffer(BufferRef::ColorCorrection).size == 12,
        spec_buffer(BufferRef::Camera).size == 208,
        spec_buffer(BufferRef::VoxelSettings).size == 112,
{
}

} // verus!
