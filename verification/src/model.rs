//! Loaded models: what to build on the device for their meshes and
//! materials.
//!
//! Reading and decoding a model file is the caller's business. It hands
//! over what it found, as sizes and index lists, and gets back what to
//! allocate, bind and upload.

use crate::bind::{spec_material_group, BindGroup, BindGroupView, SamplerRef};
use crate::texture::{
    create_image_texture, spec_image_texture, spec_texture_upload, texture_upload, TextureDesc,
    TextureUpload, ViewRef, ViewSource,
};
use vstd::prelude::*;

verus! {

/// Where a material's base colour texture comes from, as the model file
/// states it.
#[derive(Clone, Copy, Debug, PartialEq, Eq, Structural)]
pub enum TextureSource {
    /// A file beside the model, named by a URI.
    Uri,
    /// A buffer embedded in the model.
    Embedded,
    /// The material names no base colour texture.
    Missing,
}

/// Which image a material is given.
#[derive(Clone, Copy, Debug, PartialEq, Eq, Structural)]
pub enum TextureChoice {
    /// The image its URI names.
    Own,
    /// The stock image.
    Fallback,
}

/// Which image to give a material: its own if it names one by URI and that
/// image could be loaded, the stock image in every other case.
pub fn choose_texture(source: TextureSource, own_loaded: bool) -> (choice: TextureChoice)
    ensures
        choice == TextureChoice::Own <==> (source == TextureSource::Uri && own_loaded),
        choice == TextureChoice::Fallback <==> !(source == TextureSource::Uri && own_loaded),
{
    match source {
        TextureSource::Uri => if own_loaded {
            TextureChoice::Own
        } else {
            TextureChoice::Fallback
        },
        _ => TextureChoice::Fallback,
    }
}

/// Size of a decoded image.
#[derive(Clone, Copy, Debug, PartialEq, Eq, Structural)]
pub struct ImageSize {
    pub width: u32,
    pub height: u32,
}

/// What was read of one primitive of a mesh: how many positions, normals
/// and texture coordinates it has, its indices if it has any, and the
/// material it names.
#[derive(Debug, PartialEq, Eq)]
pub struct Primitive {
    pub positions: Option<usize>,
    pub normals: Option<usize>,
    pub tex_coords: Option<usize>,
    pub indices: Option<Vec<u32>>,
    pub material_index: Option<usize>,
}

/// One mesh to draw.
#[derive(Debug, PartialEq, Eq)]
pub struct Mesh {
    /// Number of vertices in its vertex buffer.
    pub vertex_count: usize,
    /// The contents of its index buffer.
    pub indices: Vec<u32>,
    /// Number of indices to draw.
    pub num_elements: u32,
    pub material_index: Option<usize>,
}

/// A mesh as a mathematical value.
pub struct MeshView {
    pub vertex_count: usize,
    pub indices: Seq<u32>,
    pub num_elements: u32,
    pub material_index: Option<usize>,
}

impl View for Mesh {
    type V = MeshView;

    open spec fn view(&self) -> MeshView {
        MeshView {
            vertex_count: self.vertex_count,
            indices: self.indices@,
            num_elements: self.num_elements,
            material_index: self.material_index,
        }
    }
}

/// One material: the size of its diffuse image and, once built, its
/// texture and bind group.
#[derive(Debug, PartialEq, Eq)]
pub struct Material {
    pub diffuse_texture: ImageSize,
    pub texture: Option<TextureDesc>,
    pub bind_group: Option<BindGroup>,
}

/// A material as a mathematical value.
pub struct MaterialView {
    pub diffuse_texture: ImageSize,
    pub texture: Option<TextureDesc>,
    pub bind_group: Option<BindGroupView>,
}

impl View for Material {
    type V = MaterialView;

    open spec fn view(&self) -> MaterialView {
        MaterialView {
            diffuse_texture: self.diffuse_texture,
            texture: self.texture,
            bind_group: match self.bind_group {
                Some(group) => Some(group@),
                None => None,
            },
        }
    }
}

/// A loaded model.
#[derive(Debug, PartialEq, Eq)]
pub struct Model {
    pub meshes: Vec<Mesh>,
    pub materials: Vec<Material>,
}

/// A model as a mathematical value.
pub struct ModelView {
    pub meshes: Seq<MeshView>,
    pub materials: Seq<MaterialView>,
}

impl View for Model {
    type V = ModelView;

    open spec fn view(&self) -> ModelView {
        ModelView {
            meshes: self.meshes@.map_values(|m: Mesh| m@),
            materials: self.materials@.map_values(|m: Material| m@),
        }
    }
}

/// The smaller of two counts.
pub open spec fn spec_min(a: usize, b: usize) -> usize {
    if a < b {
        a
    } else {
        b
    }
}

/// Number of vertices of a primitive with `positions` positions: a missing
/// attribute is filled in for every position, a shorter one cuts the list.
pub open spec fn spec_vertex_count(
    positions: usize,
    tex_coords: Option<usize>,
    normals: Option<usize>,
) -> usize {
    let with_tex = match tex_coords {
        Some(n) => spec_min(positions, n),
        None => positions,
    };
    match normals {
        Some(n) => spec_min(with_tex, n),
        None => with_tex,
    }
}

/// The indices `0, 1, …, count - 1`.
pub open spec fn spec_sequential_indices(count: u32) -> Seq<u32> {
    Seq::new(count as nat, |i: int| i as u32)
}

/// A count cut to 32 bits, as an index count is.
pub open spec fn spec_truncate(count: usize) -> u32 {
    (count as nat % 0x1_0000_0000) as u32
}

/// A material that has been loaded but not built.
pub open spec fn spec_loaded_material(size: ImageSize) -> MaterialView {
    MaterialView { diffuse_texture: size, texture: None, bind_group: None }
}

/// The materials made of the first `n` images: one for each image that
/// could be loaded, in order; where none could, the material is left out.
pub open spec fn spec_loaded_materials(images: Seq<Option<ImageSize>>, n: nat) -> Seq<MaterialView>
    decreases n,
{
    if n == 0 {
        Seq::empty()
    } else {
        let before = spec_loaded_materials(images, (n - 1) as nat);
        match images[n - 1] {
            Some(size) => before.push(spec_loaded_material(size)),
            None => before,
        }
    }
}

/// The mesh made of a primitive that has positions.
pub open spec fn spec_loaded_mesh(
    positions: usize,
    normals: Option<usize>,
    tex_coords: Option<usize>,
    indices: Option<Seq<u32>>,
    material_index: Option<usize>,
) -> MeshView {
    let vertex_count = spec_vertex_count(positions, tex_coords, normals);
    let indices = match indices {
        Some(given) => given,
        None => spec_sequential_indices(spec_truncate(vertex_count)),
    };
    MeshView {
        vertex_count,
        indices,
        num_elements: spec_truncate(indices.len() as usize),
        material_index,
    }
}

/// A primitive's optional indices as a mathematical value.
pub open spec fn spec_indices_view(indices: Option<Vec<u32>>) -> Option<Seq<u32>> {
    match indices {
        Some(given) => Some(given@),
        None => None,
    }
}

/// The meshes made of the first `n` primitives: one for each primitive
/// that has positions, in order.
pub open spec fn spec_loaded_meshes(primitives: Seq<Primitive>, n: nat) -> Seq<MeshView>
    decreases n,
{
    if n == 0 {
        Seq::empty()
    } else {
        let before = spec_loaded_meshes(primitives, (n - 1) as nat);
        let p = primitives[n - 1];
        match p.positions {
            Some(positions) => before.push(
                spec_loaded_mesh(
                    positions,
                    p.normals,
                    p.tex_coords,
                    spec_indices_view(p.indices),
                    p.material_index,
                ),
            ),
            None => before,
        }
    }
}

/// The view of the diffuse texture of material `index` of a model.
pub open spec fn spec_material_view(index: usize) -> ViewRef {
    ViewRef { source: ViewSource::Material(index), generation: 0 }
}

/// A material once built: a texture of the size of its image, and a bind
/// group of that texture with the repeating sampler.
pub open spec fn spec_built_material(material: MaterialView, index: usize) -> MaterialView {
    MaterialView {
        diffuse_texture: material.diffuse_texture,
        texture: Some(
            spec_image_texture(material.diffuse_texture.width, material.diffuse_texture.height),
        ),
        bind_group: Some(spec_material_group(spec_material_view(index), SamplerRef::Repeat)),
    }
}

/// One upload of a material's image into its texture.
#[derive(Clone, Copy, Debug, PartialEq, Eq, Structural)]
pub struct MaterialUpload {
    /// Index of the material within its model.
    pub material: usize,
    pub layout: TextureUpload,
}

/// Whether a material is ready to be uploaded: it has its texture and its
/// bind group.
pub open spec fn spec_is_built(material: MaterialView) -> bool {
    material.texture is Some && material.bind_group is Some
}

/// Whether the bytes of one row of `texture` can be counted in 32 bits.
pub open spec fn spec_row_fits(texture: TextureDesc) -> bool {
    crate::texture::spec_texel_size(texture.format) * texture.width <= u32::MAX
}

/// The uploads for the first `n` materials: one for each built material, in
/// order.
pub open spec fn spec_uploads(materials: Seq<MaterialView>, n: nat) -> Seq<MaterialUpload>
    decreases n,
{
    if n == 0 {
        Seq::empty()
    } else {
        let before = spec_uploads(materials, (n - 1) as nat);
        let m = materials[n - 1];
        if spec_is_built(m) {
            before.push(
                MaterialUpload {
                    material: (n - 1) as usize,
                    layout: spec_texture_upload(m.texture.unwrap()),
                },
            )
        } else {
            before
        }
    }
}

/// The indices `0, 1, …, count - 1`.
pub fn sequential_indices(count: u32) -> (indices: Vec<u32>)
    ensures
        indices@ == spec_sequential_indices(count),
{
    let mut indices: Vec<u32> = Vec::new();
    let mut i: u32 = 0;
    while i < count
        invariant
            i <= count,
            indices@ == spec_sequential_indices(i),
        decreases count - i,
    {
        indices.push(i);
        i = i + 1;
        assert(indices@ =~= spec_sequential_indices(i));
    }
    indices
}

/// Number of vertices of a primitive.
pub fn vertex_count(positions: usize, tex_coords: Option<usize>, normals: Option<usize>) -> (count:
    usize)
    ensures
        count == spec_vertex_count(positions, tex_coords, normals),
{
    let with_tex: usize = match tex_coords {
        Some(n) => if positions < n {
            positions
        } else {
            n
        },
        None => positions,
    };
    match normals {
        Some(n) => if with_tex < n {
            with_tex
        } else {
            n
        },
        None => with_tex,
    }
}

/// A count cut to 32 bits.
fn truncate(count: usize) -> (cut: u32)
    ensures
        cut == spec_truncate(count),
{
    let wide: u64 = count as u64;
    (wide % 0x1_0000_0000) as u32
}

/// A copy of a list of indices.
fn copy_indices(indices: &Vec<u32>) -> (copy: Vec<u32>)
    ensures
        copy@ == indices@,
{
    let mut copy: Vec<u32> = Vec::new();
    let mut i: usize = 0;
    while i < indices.len()
        invariant
            i <= indices.len(),
            copy@ == indices@.take(i as int),
        decreases indices.len() - i,
    {
        copy.push(indices[i]);
        i = i + 1;
        assert(copy@ =~= indices@.take(i as int));
    }
    assert(copy@ =~= indices@);
    copy
}

impl Model {
    /// Assembles a model from what was read of its file. `images` holds,
    /// for each material of the file in order, the size of the image it was
    /// given, or `None` if no image could be loaded for it; such a material
    /// is left out. `primitives` holds the primitives of all meshes in
    /// order; one without positions is left out.
    pub fn load(images: &Vec<Option<ImageSize>>, primitives: &Vec<Primitive>) -> (model: Model)
        ensures
            model@.materials == spec_loaded_materials(images@, images@.len()),
            model@.meshes == spec_loaded_meshes(primitives@, primitives@.len()),
    {
        let mut materials: Vec<Material> = Vec::new();
        let mut i: usize = 0;
        while i < images.len()
            invariant
                i <= images.len(),
                materials@.map_values(|m: Material| m@) == spec_loaded_materials(
                    images@,
                    i as nat,
                ),
            decreases images.len() - i,
        {
            let ghost before = materials@.map_values(|m: Material| m@);
            match images[i] {
                Some(size) => {
                    materials.push(Material { diffuse_texture: size, texture: None, bind_group: None });
                    assert(materials@.map_values(|m: Material| m@) =~= before.push(
                        spec_loaded_material(size),
                    ));
                },
                None => {},
            }
            i = i + 1;
        }
        let mut meshes: Vec<Mesh> = Vec::new();
        let mut j: usize = 0;
        while j < primitives.len()
            invariant
                j <= primitives.len(),
                meshes@.map_values(|m: Mesh| m@) == spec_loaded_meshes(primitives@, j as nat),
            decreases primitives.len() - j,
        {
            let ghost before = meshes@.map_values(|m: Mesh| m@);
            let p = &primitives[j];
            match p.positions {
                Some(positions) => {
                    let count: usize = vertex_count(positions, p.tex_coords, p.normals);
                    let indices: Vec<u32> = match &p.indices {
                        Some(given) => copy_indices(given),
                        None => sequential_indices(truncate(count)),
                    };
                    let num_elements: u32 = truncate(indices.len());
                    let mesh = Mesh {
                        vertex_count: count,
                        indices,
                        num_elements,
                        material_index: p.material_index,
                    };
                    let ghost mesh_view = mesh@;
                    meshes.push(mesh);
                    assert(meshes@.map_values(|m: Mesh| m@) =~= before.push(mesh_view));
                },
                None => {},
            }
            j = j + 1;
        }
        Model { meshes, materials }
    }

    /// Builds, for every material, the texture of its image and the bind
    /// group of that texture with the repeating sampler. Meshes are left
    /// as they are.
    pub fn create_bind_groups(&mut self)
        ensures
            final(self)@.meshes == old(self)@.meshes,
            final(self)@.materials.len() == old(self)@.materials.len(),
            forall|i: int|
                0 <= i < old(self)@.materials.len() ==> (#[trigger] final(self)@.materials[i])
                    == spec_built_material(old(self)@.materials[i], i as usize),
    {
        let mut rebuilt: Vec<Material> = Vec::new();
        let mut i: usize = 0;
        while i < self.materials.len()
            invariant
                i <= self.materials.len(),
                rebuilt@.len() == i,
                forall|k: int|
                    0 <= k < i ==> (#[trigger] rebuilt@[k])@ == spec_built_material(
                        self.materials@[k]@,
                        k as usize,
                    ),
            decreases self.materials.len() - i,
        {
            let size = self.materials[i].diffuse_texture;
            let view = ViewRef { source: ViewSource::Material(i), generation: 0 };
            rebuilt.push(
                Material {
                    diffuse_texture: size,
                    texture: Some(create_image_texture(size.width, size.height)),
                    bind_group: Some(BindGroup::material(view, SamplerRef::Repeat)),
                },
            );
            i = i + 1;
        }
        self.materials = rebuilt;
    }

    /// The uploads that fill the textures of the built materials from their
    /// images, in the order of the materials. A material that has not been
    /// built is passed over. The rows of every built material must be
    /// countable in 32 bits.
    pub fn upload_textures(&self) -> (uploads: Vec<MaterialUpload>)
        requires
            forall|i: int|
                0 <= i < self@.materials.len() && spec_is_built(#[trigger] self@.materials[i])
                    ==> spec_row_fits(self@.materials[i].texture.unwrap()),
        ensures
            uploads@ == spec_uploads(self@.materials, self@.materials.len()),
    {
        let mut uploads: Vec<MaterialUpload> = Vec::new();
        let mut i: usize = 0;
        while i < self.materials.len()
            invariant
                i <= self.materials.len(),
                self@.materials.len() == self.materials@.len(),
                forall|k: int|
                    0 <= k < self@.materials.len() && spec_is_built(
                        #[trigger] self@.materials[k],
                    ) ==> spec_row_fits(self@.materials[k].texture.unwrap()),
                uploads@ == spec_uploads(self@.materials, i as nat),
            decreases self.materials.len() - i,
        {
            let material = &self.materials[i];
            assert(material@ == self@.materials[i as int]);
            match (&material.texture, &material.bind_group) {
                (Some(texture), Some(_)) => {
                    match texture_upload(texture) {
                        Some(layout) => {
                            uploads.push(MaterialUpload { material: i, layout });
                        },
                        None => {
                            assert(false);
                        },
                    }
                },
                _ => {},
            }
            i = i + 1;
        }
        uploads
    }
}

} // verus!
