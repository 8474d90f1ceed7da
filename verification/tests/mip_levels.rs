use voxel_frame::mip::{dispatch_count, mip_dim};

#[test]
fn dispatch_count_of_thirteen_is_two() {
    assert_eq!(dispatch_count(13), 2);
}

#[test]
fn dispatch_count_rounds_up() {
    assert_eq!(dispatch_count(0), 0);
    assert_eq!(dispatch_count(1), 1);
    assert_eq!(dispatch_count(8), 1);
    assert_eq!(dispatch_count(9), 2);
    assert_eq!(dispatch_count(400), 50);
    assert_eq!(dispatch_count(u32::MAX), 536_870_912);
}

#[test]
fn mip_dim_halves_and_clamps() {
    assert_eq!(mip_dim(400, 0), 400);
    assert_eq!(mip_dim(400, 1), 200);
    assert_eq!(mip_dim(400, 7), 3);
    assert_eq!(mip_dim(400, 9), 1);
    assert_eq!(mip_dim(0, 0), 1);
    assert_eq!(mip_dim(0, 5), 1);
    assert_eq!(mip_dim(u32::MAX, 31), 1);
    assert_eq!(mip_dim(u32::MAX, 32), 1);
    assert_eq!(mip_dim(u32::MAX, 200), 1);
}
