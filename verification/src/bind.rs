//! Bind-group layouts and the bind groups built against them.
//!
//! A layout lists, slot by slot, what kind of resource a shader expects. A
//! bind group names the resource put into each slot. Both are plain data
//! here; the contracts say which resource sits in which slot.

use crate::texture::{TextureDimension, TextureFormat, ViewRef};
use vstd::prelude::*;

verus! {

/// The shader stages that can see a binding.
#[derive(Clone, Copy, Debug, PartialEq, Eq, Structural)]
pub struct ShaderStages {
    pub vertex: bool,
    pub fragment: bool,
    pub compute: bool,
}

/// What a layout slot accepts.
#[derive(Clone, Copy, Debug, PartialEq, Eq, Structural)]
pub enum BindingType {
    /// A uniform buffer, bound whole.
    UniformBuffer {
        /// Whether the offset into the buffer is given anew with each draw.
        dynamic_offset: bool,
    },
    /// A float texture that is not multisampled, read by sampling.
    SampledTexture {
        dimension: TextureDimension,
        /// Whether a filtering sampler may read it.
        filterable: bool,
    },
    /// A 2D storage texture.
    StorageTexture {
        format: TextureFormat,
        /// Whether shaders may only write it.
        write_only: bool,
    },
    /// A sampler.
    Sampler {
        /// Whether it may filter.
        filtering: bool,
    },
}

/// One slot of a layout.
#[derive(Clone, Copy, Debug, PartialEq, Eq, Structural)]
pub struct LayoutEntry {
    pub binding: u32,
    pub visibility: ShaderStages,
    pub ty: BindingType,
}

/// The bind-group layouts the renderer uses.
#[derive(Clone, Copy, Debug, PartialEq, Eq, Structural)]
pub enum GroupLayout {
    /// Bloom group 0: the settings uniform.
    Settings,
    /// Bloom group 1: a texture to read and a storage texture to write.
    TexturePair,
    /// Bloom group 2: eight blurred levels to read, then a sampler.
    CompositeInputs,
    /// Colour correction: input texture, sampler, uniform.
    ColorCorrection,
    /// Scene group 0: the camera uniform.
    Camera,
    /// Scene group 1: the four start-up textures, then a sampler.
    Terrain,
    /// Scene group 2: the voxel settings uniform.
    VoxelSettings,
    /// A material of a loaded model: texture, then sampler.
    Material,
}

/// The uniform buffers that bind groups refer to.
#[derive(Clone, Copy, Debug, PartialEq, Eq, Structural)]
pub enum BufferRef {
    BloomSettings,
    ColorCorrection,
    Camera,
    VoxelSettings,
}

/// The samplers that bind groups refer to. Both filter linearly.
#[derive(Clone, Copy, Debug, PartialEq, Eq, Structural)]
pub enum SamplerRef {
    /// Clamps to the edge: for render targets.
    Clamp,
    /// Repeats: for tiling textures.
    Repeat,
}

/// A resource put into a slot, tagged with how the shader uses it.
#[derive(Clone, Copy, Debug, PartialEq, Eq, Structural)]
pub enum BindResource {
    /// A whole uniform buffer.
    Buffer(BufferRef),
    /// A texture view that is read.
    Sampled(ViewRef),
    /// A texture view that is written as storage.
    Storage(ViewRef),
    /// A sampler.
    Sampler(SamplerRef),
}

/// One filled slot of a bind group.
#[derive(Clone, Copy, Debug, PartialEq, Eq, Structural)]
pub struct BindGroupEntry {
    pub binding: u32,
    pub resource: BindResource,
}

/// A bind group: a layout and the resources bound against it.
#[derive(Debug, PartialEq, Eq)]
pub struct BindGroup {
    pub layout: GroupLayout,
    pub entries: Vec<BindGroupEntry>,
}

/// A bind group as a mathematical value.
pub struct BindGroupView {
    pub layout: GroupLayout,
    pub entries: Seq<BindGroupEntry>,
}

impl View for BindGroup {
    type V = BindGroupView;

    open spec fn view(&self) -> BindGroupView {
        BindGroupView { layout: self.layout, entries: self.entries@ }
    }
}

/// The mathematical values of a list of bind groups, in order.
pub open spec fn group_views(groups: Seq<BindGroup>) -> Seq<BindGroupView> {
    groups.map_values(|g: BindGroup| g@)
}

pub open spec fn spec_compute_only() -> ShaderStages {
    ShaderStages { vertex: false, fragment: false, compute: true }
}

pub open spec fn spec_fragment_only() -> ShaderStages {
    ShaderStages { vertex: false, fragment: true, compute: false }
}

pub open spec fn spec_vertex_fragment() -> ShaderStages {
    ShaderStages { vertex: true, fragment: true, compute: false }
}

/// Number of blurred levels the composite shader has slots for.
pub const COMPOSITE_SLOTS: u32 = 8;

/// Number of slots of a layout.
pub open spec fn spec_layout_len(layout: GroupLayout) -> nat {
    match layout {
        GroupLayout::Settings => 1,
        GroupLayout::TexturePair => 2,
        GroupLayout::CompositeInputs => 9,
        GroupLayout::ColorCorrection => 3,
        GroupLayout::Camera => 1,
        GroupLayout::Terrain => 5,
        GroupLayout::VoxelSettings => 1,
        GroupLayout::Material => 2,
    }
}

/// Which stages see the slots of a layout; all slots of one layout agree.
pub open spec fn spec_layout_visibility(layout: GroupLayout) -> ShaderStages {
    match layout {
        GroupLayout::Settings => spec_compute_only(),
        GroupLayout::TexturePair => spec_compute_only(),
        GroupLayout::CompositeInputs => spec_compute_only(),
        GroupLayout::ColorCorrection => spec_fragment_only(),
        GroupLayout::Camera => spec_vertex_fragment(),
        GroupLayout::Terrain => spec_fragment_only(),
        GroupLayout::VoxelSettings => spec_fragment_only(),
        GroupLayout::Material => spec_fragment_only(),
    }
}

/// What slot `binding` of a layout accepts, if the layout has that slot.
pub open spec fn spec_slot_type(layout: GroupLayout, binding: u32) -> Option<BindingType> {
    if binding >= spec_layout_len(layout) {
        None
    } else {
        Some(
            match layout {
                GroupLayout::Settings => BindingType::UniformBuffer { dynamic_offset: false },
                GroupLayout::TexturePair => if binding == 0 {
                    BindingType::SampledTexture { dimension: TextureDimension::D2, filterable: true }
                } else {
                    BindingType::StorageTexture { format: TextureFormat::Rgba32Float, write_only: true }
                },
                GroupLayout::CompositeInputs => if binding < 8 {
                    BindingType::SampledTexture { dimension: TextureDimension::D2, filterable: true }
                } else {
                    BindingType::Sampler { filtering: true }
                },
                GroupLayout::ColorCorrection => if binding == 0 {
                    BindingType::SampledTexture { dimension: TextureDimension::D2, filterable: true }
                } else if binding == 1 {
                    BindingType::Sampler { filtering: true }
                } else {
                    BindingType::UniformBuffer { dynamic_offset: false }
                },
                GroupLayout::Camera => BindingType::UniformBuffer { dynamic_offset: false },
                GroupLayout::Terrain => if binding == 1 {
                    BindingType::SampledTexture { dimension: TextureDimension::D3, filterable: true }
                } else if binding < 4 {
                    BindingType::SampledTexture { dimension: TextureDimension::D2, filterable: true }
                } else {
                    BindingType::Sampler { filtering: true }
                },
                GroupLayout::VoxelSettings => BindingType::UniformBuffer { dynamic_offset: false },
                GroupLayout::Material => if binding == 0 {
                    BindingType::SampledTexture { dimension: TextureDimension::D2, filterable: true }
                } else {
                    BindingType::Sampler { filtering: true }
                },
            },
        )
    }
}

/// Slot `binding` of a layout. Meaningful for `binding` below the layout's length.
pub open spec fn spec_layout_entry(layout: GroupLayout, binding: u32) -> LayoutEntry {
    LayoutEntry {
        binding,
        visibility: spec_layout_visibility(layout),
        ty: spec_slot_type(layout, binding).unwrap(),
    }
}

/// The slots of a layout in order; slot `i` has binding number `i`.
pub open spec fn spec_layout_entries(layout: GroupLayout) -> Seq<LayoutEntry> {
    Seq::new(spec_layout_len(layout), |i: int| spec_layout_entry(layout, i as u32))
}

/// Whether a resource may be bound to a slot of type `ty`. Any sampled view
/// fits a sampled slot: the dimensionality is a property of the texture.
pub open spec fn spec_resource_fits(resource: BindResource, ty: BindingType) -> bool {
    match resource {
        BindResource::Buffer(_) => ty is UniformBuffer,
        BindResource::Sampled(_) => ty is SampledTexture,
        BindResource::Storage(_) => ty is StorageTexture,
        BindResource::Sampler(_) => ty is Sampler,
    }
}

/// Two resources are the same up to the generation of a view: the same
/// buffer, the same sampler, or views of the same source used the same way.
pub open spec fn spec_same_source(a: BindResource, b: BindResource) -> bool {
    match (a, b) {
        (BindResource::Buffer(x), BindResource::Buffer(y)) => x == y,
        (BindResource::Sampled(x), BindResource::Sampled(y)) => x.source == y.source,
        (BindResource::Storage(x), BindResource::Storage(y)) => x.source == y.source,
        (BindResource::Sampler(x), BindResource::Sampler(y)) => x == y,
        _ => false,
    }
}

impl BindGroupView {
    /// The two groups are wired identically: same layout, same slots, and in
    /// each slot the same resource up to the generation of a view.
    pub open spec fn same_wiring(self, other: BindGroupView) -> bool {
        &&& self.layout == other.layout
        &&& self.entries.len() == other.entries.len()
        &&& forall|i: int|
            0 <= i < self.entries.len() ==> (#[trigger] self.entries[i]).binding
                == other.entries[i].binding && spec_same_source(
                self.entries[i].resource,
                other.entries[i].resource,
            )
    }

    /// Every entry goes into a slot that the layout has and that accepts it,
    /// and the entries come in strictly increasing slot order, so no slot is
    /// bound twice.
    pub open spec fn fits_layout(self) -> bool {
        &&& forall|i: int|
            0 <= i < self.entries.len() ==> (#[trigger] spec_slot_type(
                self.layout,
                self.entries[i].binding,
            )) is Some && spec_resource_fits(
                self.entries[i].resource,
                spec_slot_type(self.layout, self.entries[i].binding).unwrap(),
            )
        &&& forall|i: int, j: int|
            0 <= i < j < self.entries.len() ==> (#[trigger] self.entries[i]).binding < (
            #[trigger] self.entries[j]).binding
    }

    /// The group fits its layout and leaves no slot empty.
    pub open spec fn fills_layout(self) -> bool {
        &&& self.fits_layout()
        &&& self.entries.len() == spec_layout_len(self.layout)
    }

    /// The group binds `view` for reading.
    pub open spec fn reads(self, view: ViewRef) -> bool {
        exists|i: int|
            0 <= i < self.entries.len() && (#[trigger] self.entries[i]).resource
                == BindResource::Sampled(view)
    }

    /// The group binds `view` for writing.
    pub open spec fn writes(self, view: ViewRef) -> bool {
        exists|i: int|
            0 <= i < self.entries.len() && (#[trigger] self.entries[i]).resource
                == BindResource::Storage(view)
    }

    /// Every view the group binds, for reading or writing, has generation
    /// `generation`.
    pub open spec fn views_have_generation(self, generation: u64) -> bool {
        forall|i: int|
            0 <= i < self.entries.len() ==> match (#[trigger] self.entries[i]).resource {
                BindResource::Sampled(v) => v.generation == generation,
                BindResource::Storage(v) => v.generation == generation,
                _ => true,
            }
    }
}

/// A group with a single uniform buffer in slot 0.
pub open spec fn spec_uniform_group(layout: GroupLayout, buffer: BufferRef) -> BindGroupView {
    BindGroupView {
        layout,
        entries: seq![BindGroupEntry { binding: 0, resource: BindResource::Buffer(buffer) }],
    }
}

/// A texture-pair group: `read` sampled in slot 0, `write` as storage in slot 1.
pub open spec fn spec_texture_pair(read: ViewRef, write: ViewRef) -> BindGroupView {
    BindGroupView {
        layout: GroupLayout::TexturePair,
        entries: seq![
            BindGroupEntry { binding: 0, resource: BindResource::Sampled(read) },
            BindGroupEntry { binding: 1, resource: BindResource::Storage(write) },
        ],
    }
}

/// A texture with its sampler: `view` in slot 0, `sampler` in slot 1.
pub open spec fn spec_material_group(view: ViewRef, sampler: SamplerRef) -> BindGroupView {
    BindGroupView {
        layout: GroupLayout::Material,
        entries: seq![
            BindGroupEntry { binding: 0, resource: BindResource::Sampled(view) },
            BindGroupEntry { binding: 1, resource: BindResource::Sampler(sampler) },
        ],
    }
}

/// The slots of `layout`, in order.
pub fn layout_entries(layout: GroupLayout) -> (entries: Vec<LayoutEntry>)
    ensures
        entries@ == spec_layout_entries(layout),
{
    let len: u32 = layout_len(layout);
    let visibility = layout_visibility(layout);
    let mut entries: Vec<LayoutEntry> = Vec::new();
    let mut binding: u32 = 0;
    while binding < len
        invariant
            binding <= len,
            len == spec_layout_len(layout),
            visibility == spec_layout_visibility(layout),
            entries@ == Seq::new(binding as nat, |i: int| spec_layout_entry(layout, i as u32)),
        decreases len - binding,
    {
        let ty = slot_type(layout, binding);
        match ty {
            Some(ty) => {
                entries.push(LayoutEntry { binding, visibility, ty });
            },
            None => {
                assert(false);
            },
        }
        binding = binding + 1;
        assert(entries@ =~= Seq::new(
            binding as nat,
            |i: int| spec_layout_entry(layout, i as u32),
        ));
    }
    entries
}

/// Number of slots of `layout`.
pub fn layout_len(layout: GroupLayout) -> (len: u32)
    ensures
        len == spec_layout_len(layout),
{
    match layout {
        GroupLayout::Settings => 1,
        GroupLayout::TexturePair => 2,
        GroupLayout::CompositeInputs => 9,
        GroupLayout::ColorCorrection => 3,
        GroupLayout::Camera => 1,
        GroupLayout::Terrain => 5,
        GroupLayout::VoxelSettings => 1,
        GroupLayout::Material => 2,
    }
}

/// The stages that see the slots of `layout`.
pub fn layout_visibility(layout: GroupLayout) -> (stages: ShaderStages)
    ensures
        stages == spec_layout_visibility(layout),
{
    match layout {
        GroupLayout::Settings | GroupLayout::TexturePair | GroupLayout::CompositeInputs => {
            ShaderStages { vertex: false, fragment: false, compute: true }
        },
        GroupLayout::Camera => ShaderStages { vertex: true, fragment: true, compute: false },
        GroupLayout::ColorCorrection
        | GroupLayout::Terrain
        | GroupLayout::VoxelSettings
        | GroupLayout::Material => ShaderStages { vertex: false, fragment: true, compute: false },
    }
}

/// What slot `binding` of `layout` accepts, or `None` if there is no such slot.
pub fn slot_type(layout: GroupLayout, binding: u32) -> (ty: Option<BindingType>)
    ensures
        ty == spec_slot_type(layout, binding),
{
    if binding >= layout_len(layout) {
        return None;
    }
    let sampled = BindingType::SampledTexture { dimension: TextureDimension::D2, filterable: true };
    let ty = match layout {
        GroupLayout::Settings | GroupLayout::Camera | GroupLayout::VoxelSettings => {
            BindingType::UniformBuffer { dynamic_offset: false }
        },
        GroupLayout::TexturePair => if binding == 0 {
            sampled
        } else {
            BindingType::StorageTexture { format: TextureFormat::Rgba32Float, write_only: true }
        },
        GroupLayout::CompositeInputs => if binding < COMPOSITE_SLOTS {
            sampled
        } else {
            BindingType::Sampler { filtering: true }
        },
        GroupLayout::ColorCorrection => if binding == 0 {
            sampled
        } else if binding == 1 {
            BindingType::Sampler { filtering: true }
        } else {
            BindingType::UniformBuffer { dynamic_offset: false }
        },
        GroupLayout::Terrain => if binding == 1 {
            BindingType::SampledTexture { dimension: TextureDimension::D3, filterable: true }
        } else if binding < 4 {
            sampled
        } else {
            BindingType::Sampler { filtering: true }
        },
        GroupLayout::Material => if binding == 0 {
            sampled
        } else {
            BindingType::Sampler { filtering: true }
        },
    };
    Some(ty)
}

impl Clone for BindGroup {
    fn clone(&self) -> (copy: Self)
        ensures
            copy@ == self@,
    {
        let mut entries: Vec<BindGroupEntry> = Vec::new();
        let mut i: usize = 0;
        while i < self.entries.len()
            invariant
                i <= self.entries.len(),
                entries@ == self.entries@.take(i as int),
            decreases self.entries.len() - i,
        {
            entries.push(self.entries[i]);
            i = i + 1;
            assert(entries@ =~= self.entries@.take(i as int));
        }
        assert(entries@ =~= self.entries@);
        BindGroup { layout: self.layout, entries }
    }
}

impl BindGroup {
    /// A group for `layout` with one uniform buffer in slot 0.
    pub fn uniform(layout: GroupLayout, buffer: BufferRef) -> (group: BindGroup)
        ensures
            group@ == spec_uniform_group(layout, buffer),
    {
        let mut entries: Vec<BindGroupEntry> = Vec::new();
        entries.push(BindGroupEntry { binding: 0, resource: BindResource::Buffer(buffer) });
        assert(entries@ =~= spec_uniform_group(layout, buffer).entries);
        BindGroup { layout, entries }
    }

    /// A texture-pair group that reads `read` and writes `write`.
    pub fn texture_pair(read: ViewRef, write: ViewRef) -> (group: BindGroup)
        ensures
            group@ == spec_texture_pair(read, write),
            group@.fills_layout(),
    {
        let mut entries: Vec<BindGroupEntry> = Vec::new();
        entries.push(BindGroupEntry { binding: 0, resource: BindResource::Sampled(read) });
        entries.push(BindGroupEntry { binding: 1, resource: BindResource::Storage(write) });
        assert(entries@ =~= spec_texture_pair(read, write).entries);
        BindGroup { layout: GroupLayout::TexturePair, entries }
    }

    /// A material group: `view` with `sampler`.
    pub fn material(view: ViewRef, sampler: SamplerRef) -> (group: BindGroup)
        ensures
            group@ == spec_material_group(view, sampler),
            group@.fills_layout(),
    {
        let mut entries: Vec<BindGroupEntry> = Vec::new();
        entries.push(BindGroupEntry { binding: 0, resource: BindResource::Sampled(view) });
        entries.push(BindGroupEntry { binding: 1, resource: BindResource::Sampler(sampler) });
        assert(entries@ =~= spec_material_group(view, sampler).entries);
        BindGroup { layout: GroupLayout::Material, entries }
    }
}

/// A texture-pair group reads exactly its first view and writes exactly its second.
pub proof fn lemma_texture_pair_access(read: ViewRef, write: ViewRef, view: ViewRef)
    ensures
        spec_texture_pair(read, write).fills_layout(),
        spec_texture_pair(read, write).reads(view) <==> view == read,
        spec_texture_pair(read, write).writes(view) <==> view == write,
{
    let g = spec_texture_pair(read, write);
    assert(g.entries[0].resource == BindResource::Sampled(read));
    assert(g.entries[1].resource == BindResource::Storage(write));
}

/// A uniform-buffer group fills each of the single-slot uniform layouts, and
/// touches no texture view.
pub proof fn lemma_uniform_group(layout: GroupLayout, buffer: BufferRef, view: ViewRef)
    requires
        layout == GroupLayout::Settings || layout == GroupLayout::Camera || layout
            == GroupLayout::VoxelSettings,
    ensures
        spec_uniform_group(layout, buffer).fills_layout(),
        !spec_uniform_group(layout, buffer).reads(view),
        !spec_uniform_group(layout, buffer).writes(view),
{
}

/// Slot `i` of every layout carries binding number `i`, so the slot list and
/// the slot lookup agree.
pub proof fn lemma_layout_entries_agree(layout: GroupLayout, i: int)
    requires
        0 <= i < spec_layout_len(layout),
    ensures
        spec_layout_entries(layout).len() == spec_layout_len(layout),
        spec_layout_entries(layout)[i].binding == i,
        spec_slot_type(layout, i as u32) == Some(spec_layout_entries(layout)[i].ty),
{
}

} // verus!
