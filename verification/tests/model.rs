use voxel_frame::bind::{BindGroup, BindGroupEntry, BindResource, GroupLayout, SamplerRef};
use voxel_frame::components::ModelInstance;
use voxel_frame::model::{
    choose_texture, sequential_indices, vertex_count, ImageSize, MaterialUpload, Mesh, Model, Primitive,
    TextureChoice, TextureSource,
};
use voxel_frame::texture::{
    create_image_texture, texel_size, texture_upload, TextureDimension, TextureFormat, TextureUpload,
    ViewRef, ViewSource,
};

#[test]
fn own_texture_only_when_named_and_loaded() {
    assert_eq!(choose_texture(TextureSource::Uri, true), TextureChoice::Own);
    assert_eq!(choose_texture(TextureSource::Uri, false), TextureChoice::Fallback);
    assert_eq!(choose_texture(TextureSource::Embedded, true), TextureChoice::Fallback);
    assert_eq!(choose_texture(TextureSource::Embedded, false), TextureChoice::Fallback);
    assert_eq!(choose_texture(TextureSource::Missing, true), TextureChoice::Fallback);
    assert_eq!(choose_texture(TextureSource::Missing, false), TextureChoice::Fallback);
}

#[test]
fn vertex_count_is_the_shortest_attribute() {
    assert_eq!(vertex_count(10, None, None), 10);
    assert_eq!(vertex_count(10, Some(12), Some(11)), 10);
    assert_eq!(vertex_count(10, Some(4), None), 4);
    assert_eq!(vertex_count(10, None, Some(3)), 3);
    assert_eq!(vertex_count(10, Some(4), Some(7)), 4);
    assert_eq!(vertex_count(10, Some(7), Some(4)), 4);
    assert_eq!(vertex_count(0, Some(7), Some(4)), 0);
}

#[test]
fn sequential_indices_count_up_from_zero() {
    assert_eq!(sequential_indices(0), Vec::<u32>::new());
    assert_eq!(sequential_indices(5), vec![0, 1, 2, 3, 4]);
}

#[test]
fn load_keeps_what_could_be_read() {
    let images = vec![
        Some(ImageSize { width: 64, height: 32 }),
        None,
        Some(ImageSize { width: 8, height: 8 }),
    ];
    let primitives = vec![
        Primitive {
            positions: Some(4),
            normals: None,
            tex_coords: None,
            indices: Some(vec![0, 1, 2, 2, 3, 0]),
            material_index: Some(2),
        },
        Primitive {
            positions: None,
            normals: Some(3),
            tex_coords: Some(3),
            indices: Some(vec![0, 1, 2]),
            material_index: None,
        },
        Primitive {
            positions: Some(3),
            normals: Some(3),
            tex_coords: Some(2),
            indices: None,
            material_index: None,
        },
    ];
    let model = Model::load(&images, &primitives);
    assert_eq!(model.materials.len(), 2);
    assert_eq!(model.materials[0].diffuse_texture, ImageSize { width: 64, height: 32 });
    assert_eq!(model.materials[1].diffuse_texture, ImageSize { width: 8, height: 8 });
    assert!(model.materials.iter().all(|m| m.texture.is_none() && m.bind_group.is_none()));
    assert_eq!(
        model.meshes,
        vec![
            Mesh {
                vertex_count: 4,
                indices: vec![0, 1, 2, 2, 3, 0],
                num_elements: 6,
                material_index: Some(2),
            },
            Mesh { vertex_count: 2, indices: vec![0, 1], num_elements: 2, material_index: None },
        ]
    );
    let empty = Model::load(&Vec::new(), &Vec::new());
    assert!(empty.meshes.is_empty() && empty.materials.is_empty());
}

#[test]
fn bind_groups_and_uploads_follow_the_materials() {
    let images =
        vec![Some(ImageSize { width: 64, height: 32 }), Some(ImageSize { width: 5, height: 7 })];
    let mut model = Model::load(&images, &Vec::new());
    assert_eq!(model.upload_textures(), Vec::new());
    model.create_bind_groups();
    assert_eq!(model.materials.len(), 2);
    for (i, material) in model.materials.iter().enumerate() {
        let size = material.diffuse_texture;
        assert_eq!(Some(size), images[i]);
        let texture = material.texture.unwrap();
        assert_eq!(texture, create_image_texture(size.width, size.height));
        assert_eq!((texture.width, texture.height), (size.width, size.height));
        assert_eq!(texture.format, TextureFormat::Rgba8UnormSrgb);
        assert_eq!(texture.dimension, TextureDimension::D2);
        assert!(texture.usage.texture_binding && texture.usage.copy_dst);
        assert!(!texture.usage.storage_binding && !texture.usage.render_attachment);
        assert_eq!(
            material.bind_group,
            Some(BindGroup {
                layout: GroupLayout::Material,
                entries: vec![
                    BindGroupEntry {
                        binding: 0,
                        resource: BindResource::Sampled(ViewRef {
                            source: ViewSource::Material(i),
                            generation: 0
                        }),
                    },
                    BindGroupEntry { binding: 1, resource: BindResource::Sampler(SamplerRef::Repeat) },
                ],
            })
        );
    }
    assert_eq!(
        model.upload_textures(),
        vec![
            MaterialUpload {
                material: 0,
                layout: TextureUpload {
                    offset: 0,
                    bytes_per_row: 256,
                    rows_per_image: 32,
                    width: 64,
                    height: 32,
                    depth_or_array_layers: 1,
                },
            },
            MaterialUpload {
                material: 1,
                layout: TextureUpload {
                    offset: 0,
                    bytes_per_row: 20,
                    rows_per_image: 7,
                    width: 5,
                    height: 7,
                    depth_or_array_layers: 1,
                },
            },
        ]
    );
}

#[test]
fn upload_passes_over_unbuilt_materials() {
    let images =
        vec![Some(ImageSize { width: 2, height: 2 }), Some(ImageSize { width: 3, height: 3 })];
    let mut model = Model::load(&images, &Vec::new());
    model.create_bind_groups();
    model.materials[0].bind_group = None;
    let uploads = model.upload_textures();
    assert_eq!(uploads.len(), 1);
    assert_eq!(uploads[0].material, 1);
    assert_eq!(uploads[0].layout.bytes_per_row, 12);
}

#[test]
fn row_length_must_fit_in_32_bits() {
    let wide = create_image_texture(0x4000_0000, 1);
    assert_eq!(texture_upload(&wide), None);
    let widest = create_image_texture(0x3FFF_FFFF, 2);
    assert_eq!(texture_upload(&widest).unwrap().bytes_per_row, 0xFFFF_FFFC);
    assert_eq!(texel_size(TextureFormat::Rgba32Float), 16);
    assert_eq!(texel_size(TextureFormat::Depth32Float), 4);
    assert_eq!(texel_size(TextureFormat::Rgba8UnormSrgb), 4);
    assert_eq!(texel_size(TextureFormat::R8Unorm), 1);
}

#[test]
fn model_instance_names_a_model() {
    let instance = ModelInstance { model: 3 };
    assert_eq!(instance.model, 3);
    assert_eq!(instance, ModelInstance { model: 3 });
}
