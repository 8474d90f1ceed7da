use voxel_frame::bloom::BloomSettings;
use voxel_frame::color_correction::ColorCorrectionUniform;
use voxel_frame::pod::{indices_to_bytes, words_to_bytes};
use voxel_frame::vertex::{indices_square, square_index_bytes};

#[test]
fn words_become_their_native_bytes() {
    let words = vec![0x0102_0304u32, 0xA0B0_C0D0, 0, u32::MAX];
    let mut expected = Vec::new();
    for word in &words {
        expected.extend_from_slice(&word.to_ne_bytes());
    }
    assert_eq!(words_to_bytes(&words), expected);
    assert_eq!(words_to_bytes(&Vec::new()), Vec::<u8>::new());
}

#[test]
fn indices_become_their_native_bytes() {
    let indices = vec![0x0102u16, 0xFFEE, 7];
    let mut expected = Vec::new();
    for index in &indices {
        expected.extend_from_slice(&index.to_ne_bytes());
    }
    assert_eq!(indices_to_bytes(&indices), expected);
    assert_eq!(indices_to_bytes(&Vec::new()), Vec::<u8>::new());
}

#[test]
fn bloom_settings_upload_as_sixteen_bytes() {
    let bytes = words_to_bytes(&BloomSettings::default().words());
    assert_eq!(bytes.len(), 16);
    let floats: &[u8] = bytemuck::cast_slice(&[0.9f32, 1.0, 1.0]);
    assert_eq!(&bytes[..12], floats);
    assert_eq!(&bytes[12..], &0u32.to_ne_bytes());
}

#[test]
fn color_correction_uniform_uploads_as_twelve_bytes() {
    let bytes = words_to_bytes(&ColorCorrectionUniform::default().words());
    let floats: &[u8] = bytemuck::cast_slice(&[1.0f32, 1.0, 1.0]);
    assert_eq!(bytes, floats);
}

#[test]
fn square_index_buffer_holds_six_indices() {
    let bytes = square_index_bytes();
    assert_eq!(bytes.len(), 12);
    let expected: &[u8] = bytemuck::cast_slice(&[0u16, 1, 2, 1, 3, 2]);
    assert_eq!(bytes, expected);
    assert_eq!(bytes, indices_to_bytes(&indices_square()));
}
