use voxel_frame::vertex::{
    create_vertex_buffer_layout, format_size, indices_cube, indices_square, indices_square_reversed,
    VertexAttribute, VertexFormat, VertexStepMode, CUBE_VERTEX_COUNT, SQUARE_VERTEX_COUNT, VERTEX_SIZE,
};

#[test]
fn vertex_layout_is_position_uv_normal() {
    let layout = create_vertex_buffer_layout();
    assert_eq!(layout.array_stride, 32);
    assert_eq!(layout.array_stride, std::mem::size_of::<([f32; 3], [f32; 2], [f32; 3])>() as u64);
    assert_eq!(VERTEX_SIZE, 32);
    assert_eq!(layout.step_mode, VertexStepMode::Vertex);
    assert_eq!(
        layout.attributes,
        vec![
            VertexAttribute { offset: 0, shader_location: 0, format: VertexFormat::Float32x3 },
            VertexAttribute { offset: 12, shader_location: 1, format: VertexFormat::Float32x2 },
            VertexAttribute { offset: 20, shader_location: 2, format: VertexFormat::Float32x3 },
        ]
    );
}

#[test]
fn format_sizes() {
    assert_eq!(format_size(VertexFormat::Float32x2), std::mem::size_of::<[f32; 2]>() as u64);
    assert_eq!(format_size(VertexFormat::Float32x3), std::mem::size_of::<[f32; 3]>() as u64);
}

#[test]
fn square_indices() {
    assert_eq!(indices_square(), vec![0, 1, 2, 1, 3, 2]);
    assert_eq!(indices_square_reversed(), vec![0, 1, 2, 0, 2, 3]);
    assert!(indices_square().iter().all(|i| *i < SQUARE_VERTEX_COUNT));
}

#[test]
fn cube_indices() {
    assert_eq!(
        indices_cube(),
        vec![
            0, 1, 2, 2, 3, 0, 4, 5, 6, 6, 7, 4, 8, 9, 10, 10, 11, 8, 12, 13, 14, 14, 15, 12, 16, 17,
            18, 18, 19, 16, 20, 21, 22, 22, 23, 20,
        ]
    );
    assert!(indices_cube().iter().all(|i| *i < CUBE_VERTEX_COUNT));
}
