use terrain_procgen::utils::{from_1D_to_3D_index, from_3D_to_1D_index, UVec3};

#[test]
fn flat_index_of_a_coordinate() {
    let dimensions = UVec3::new(3, 4, 5);
    assert_eq!(from_3D_to_1D_index(UVec3::new(0, 0, 0), dimensions), 0);
    assert_eq!(from_3D_to_1D_index(UVec3::new(2, 0, 0), dimensions), 2);
    assert_eq!(from_3D_to_1D_index(UVec3::new(0, 1, 0), dimensions), 3);
    assert_eq!(from_3D_to_1D_index(UVec3::new(0, 0, 1), dimensions), 12);
    assert_eq!(from_3D_to_1D_index(UVec3::new(2, 3, 4), dimensions), 2 + 3 * 3 + 4 * 12);
}

#[test]
fn coordinate_of_a_flat_index() {
    let dimensions = UVec3::new(3, 4, 5);
    assert_eq!(from_1D_to_3D_index(0, dimensions), UVec3::new(0, 0, 0));
    assert_eq!(from_1D_to_3D_index(2, dimensions), UVec3::new(2, 0, 0));
    assert_eq!(from_1D_to_3D_index(3, dimensions), UVec3::new(0, 1, 0));
    assert_eq!(from_1D_to_3D_index(12, dimensions), UVec3::new(0, 0, 1));
    assert_eq!(from_1D_to_3D_index(59, dimensions), UVec3::new(2, 3, 4));
}

#[test]
fn flat_index_and_coordinate_are_inverse() {
    let dimensions = UVec3::new(3, 2, 4);
    let mut expected = 0;
    for z in 0..4 {
        for y in 0..2 {
            for x in 0..3 {
                let at = UVec3::new(x, y, z);
                let index = from_3D_to_1D_index(at, dimensions);
                assert_eq!(index, expected);
                assert_eq!(from_1D_to_3D_index(index, dimensions), at);
                expected += 1;
            }
        }
    }
    assert_eq!(expected, 24);
}

#[test]
fn coordinate_beyond_the_last_layer_keeps_counting_layers() {
    let dimensions = UVec3::new(2, 2, 2);
    assert_eq!(from_1D_to_3D_index(8, dimensions), UVec3::new(0, 0, 2));
    assert_eq!(from_1D_to_3D_index(4_000_000_001, dimensions), UVec3::new(1, 0, 1_000_000_000));
}

#[test]
fn coordinate_in_a_plane_wider_than_32_bits() {
    let dimensions = UVec3::new(100_000, 100_000, 1);
    assert_eq!(from_1D_to_3D_index(u32::MAX, dimensions), UVec3::new(67_295, 42_949, 0));
    assert_eq!(from_3D_to_1D_index(UVec3::new(67_295, 42_949, 0), dimensions), u32::MAX);
}
