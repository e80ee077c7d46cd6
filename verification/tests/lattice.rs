use terrain_procgen::generation::chunk::{
    create_chunks, lattice_points, resolve_sample, LatticeError, TerrainChunk,
};
use terrain_procgen::generation::TerrainGeneratorConfig;
use terrain_procgen::scalar::Scalar;
use terrain_procgen::utils::UVec3;

fn lattice_scalar(x: f32) -> Scalar {
    Scalar::from_bits(x.to_bits())
}

#[test]
fn chunk_of_two_cubes_each_way_has_27_points() {
    let chunk = TerrainChunk::new(UVec3::new(0, 0, 0), UVec3::new(2, 2, 2)).unwrap();
    assert_eq!(chunk.points().len(), 27);
    assert_eq!(chunk.point_count(), 27);
    assert_eq!(chunk.point_size(), UVec3::new(3, 3, 3));
    assert_eq!(chunk.size(), UVec3::new(2, 2, 2));
    assert_eq!(chunk.cube_count(), 8);
}

#[test]
fn points_lie_x_fastest_then_y_then_z_and_start_at_zero() {
    let chunk = TerrainChunk::new(UVec3::new(4, 8, 12), UVec3::new(1, 2, 3)).unwrap();
    assert_eq!(chunk.position(), UVec3::new(4, 8, 12));
    assert_eq!(chunk.point_size(), UVec3::new(2, 3, 4));
    let points = chunk.points();
    assert_eq!(points.len(), 24);
    let mut index = 0;
    for z in 0..4 {
        for y in 0..3 {
            for x in 0..2 {
                assert_eq!(points[index].position, UVec3::new(x, y, z));
                assert_eq!(points[index].value.to_bits(), 0);
                assert_eq!(chunk.point(index as u32).position, UVec3::new(x, y, z));
                assert_eq!(chunk.point_index(UVec3::new(x, y, z)), index as u32);
                assert_eq!(chunk.point_index(UVec3::new(x, y, z)), x + y * 2 + z * 2 * 3);
                index += 1;
            }
        }
    }
}

#[test]
fn chunk_with_a_zero_extent_is_degenerate() {
    for size in [UVec3::new(0, 2, 2), UVec3::new(2, 0, 2), UVec3::new(2, 2, 0), UVec3::new(0, 0, 0)] {
        match TerrainChunk::new(UVec3::new(0, 0, 0), size) {
            Err(error) => assert_eq!(error, LatticeError::DegenerateDimension),
            Ok(_) => panic!("a chunk of size {:?} was laid out", size),
        }
    }
}

#[test]
fn chunk_with_too_many_points_is_too_large() {
    for size in [
        UVec3::new(2000, 2000, 2000),
        UVec3::new(u32::MAX, 1, 1),
        UVec3::new(1, u32::MAX, 1),
        UVec3::new(1, 1, u32::MAX),
        UVec3::new(65_535, 65_535, 1),
    ] {
        match TerrainChunk::new(UVec3::new(0, 0, 0), size) {
            Err(error) => assert_eq!(error, LatticeError::TooLarge),
            Ok(_) => panic!("a chunk of size {:?} was laid out", size),
        }
    }
}

#[test]
fn number_of_lattice_points() {
    assert_eq!(lattice_points(UVec3::new(2, 2, 2)), Some(27));
    assert_eq!(lattice_points(UVec3::new(4, 4, 4)), Some(125));
    assert_eq!(lattice_points(UVec3::new(0, 0, 0)), Some(1));
    assert_eq!(lattice_points(UVec3::new(1, 2, 3)), Some(24));
    assert_eq!(lattice_points(UVec3::new(1624, 1624, 1624)), Some(1625 * 1625 * 1625));
    assert_eq!(lattice_points(UVec3::new(1625, 1625, 1625)), None);
    assert_eq!(lattice_points(UVec3::new(u32::MAX, u32::MAX, u32::MAX)), None);
    assert_eq!(lattice_points(UVec3::new(u32::MAX - 1, 0, 0)), Some(u32::MAX));
}

#[test]
fn default_configuration_lays_out_64_chunks_of_125_points() {
    let config = TerrainGeneratorConfig::default();
    let chunks = create_chunks(&config).unwrap();
    assert_eq!(chunks.len(), 64);
    let mut index = 0;
    for z in 0..4 {
        for y in 0..4 {
            for x in 0..4 {
                let chunk = &chunks[index];
                assert_eq!(chunk.position(), UVec3::new(4 * x, 4 * y, 4 * z));
                assert_eq!(chunk.size(), UVec3::new(4, 4, 4));
                assert_eq!(chunk.points().len(), 125);
                index += 1;
            }
        }
    }
}

#[test]
fn chunks_start_at_multiples_of_the_chunk_size() {
    let config = TerrainGeneratorConfig {
        chunks_amount: UVec3::new(2, 1, 3),
        chunk_size: UVec3::new(5, 6, 7),
        ..TerrainGeneratorConfig::default()
    };
    let chunks = create_chunks(&config).unwrap();
    assert_eq!(chunks.len(), 6);
    let origins: Vec<UVec3> = chunks.iter().map(|chunk| chunk.position()).collect();
    assert_eq!(
        origins,
        vec![
            UVec3::new(0, 0, 0),
            UVec3::new(5, 0, 0),
            UVec3::new(0, 0, 7),
            UVec3::new(5, 0, 7),
            UVec3::new(0, 0, 14),
            UVec3::new(5, 0, 14),
        ]
    );
    for chunk in chunks.iter() {
        assert_eq!(chunk.points().len(), 6 * 7 * 8);
    }
}

#[test]
fn configuration_with_a_zero_extent_is_degenerate() {
    let sound = TerrainGeneratorConfig::default();
    let degenerate = [
        TerrainGeneratorConfig { chunks_amount: UVec3::new(0, 4, 4), ..sound },
        TerrainGeneratorConfig { chunks_amount: UVec3::new(4, 0, 4), ..sound },
        TerrainGeneratorConfig { chunks_amount: UVec3::new(4, 4, 0), ..sound },
        TerrainGeneratorConfig { chunk_size: UVec3::new(0, 4, 4), ..sound },
        TerrainGeneratorConfig { chunk_size: UVec3::new(4, 0, 4), ..sound },
        TerrainGeneratorConfig { chunk_size: UVec3::new(4, 4, 0), ..sound },
        TerrainGeneratorConfig {
            chunks_amount: UVec3::new(0, 1, 1),
            chunk_size: UVec3::new(u32::MAX, u32::MAX, u32::MAX),
            ..sound
        },
    ];
    for config in degenerate {
        match create_chunks(&config) {
            Err(error) => assert_eq!(error, LatticeError::DegenerateDimension),
            Ok(_) => panic!("a lattice was laid out for {:?}", config),
        }
    }
}

#[test]
fn configuration_beyond_32_bits_is_too_large() {
    let sound = TerrainGeneratorConfig::default();
    let too_large = [
        TerrainGeneratorConfig { chunk_size: UVec3::new(2000, 2000, 2000), ..sound },
        TerrainGeneratorConfig {
            chunks_amount: UVec3::new(70_000, 1, 1),
            chunk_size: UVec3::new(70_000, 1, 1),
            ..sound
        },
        TerrainGeneratorConfig {
            chunks_amount: UVec3::new(1, 1, u32::MAX),
            chunk_size: UVec3::new(1, 1, 2),
            ..sound
        },
    ];
    for config in too_large {
        match create_chunks(&config) {
            Err(error) => assert_eq!(error, LatticeError::TooLarge),
            Ok(_) => panic!("a lattice was laid out for {:?}", config),
        }
    }
}

#[test]
fn samples_overwrite_the_values_and_leave_the_lattice() {
    let mut chunk = TerrainChunk::new(UVec3::new(3, 0, 0), UVec3::new(1, 1, 1)).unwrap();
    let samples: Vec<Option<Scalar>> =
        (0..8).map(|i| Some(lattice_scalar(i as f32 - 3.5))).collect();
    let missing = chunk.apply_samples(&samples, lattice_scalar(0.0));
    assert_eq!(missing, 0);
    assert_eq!(chunk.position(), UVec3::new(3, 0, 0));
    assert_eq!(chunk.size(), UVec3::new(1, 1, 1));
    for i in 0..8u32 {
        assert_eq!(chunk.point(i).value.to_bits(), (i as f32 - 3.5).to_bits());
    }
    assert_eq!(chunk.point(5).position, UVec3::new(1, 0, 1));
}

#[test]
fn missing_samples_leave_their_points_outside_and_are_counted() {
    let mut chunk = TerrainChunk::new(UVec3::new(0, 0, 0), UVec3::new(1, 1, 1)).unwrap();
    let isolevel = lattice_scalar(0.25);
    let samples = vec![
        Some(lattice_scalar(-1.0)),
        None,
        Some(lattice_scalar(f32::NAN)),
        Some(lattice_scalar(f32::INFINITY)),
        Some(lattice_scalar(f32::NEG_INFINITY)),
        Some(lattice_scalar(2.0)),
        None,
        Some(lattice_scalar(0.25)),
    ];
    let missing = chunk.apply_samples(&samples, isolevel);
    assert_eq!(missing, 5);
    let expected = [-1.0f32, 0.25, 0.25, 0.25, 0.25, 2.0, 0.25, 0.25];
    for i in 0..8u32 {
        assert_eq!(chunk.point(i).value.to_bits(), expected[i as usize].to_bits());
    }
    // Only the first point is inside.
    assert_eq!(chunk.cube_configuration(UVec3::new(0, 0, 0), isolevel), 0b0000_0001);
}

#[test]
fn one_sample_resolved() {
    let isolevel = lattice_scalar(7.0);
    let (value, missing) = resolve_sample(Some(lattice_scalar(1.5)), isolevel);
    assert_eq!((value.to_bits(), missing), (1.5f32.to_bits(), false));
    let (value, missing) = resolve_sample(None, isolevel);
    assert_eq!((value.to_bits(), missing), (7.0f32.to_bits(), true));
    let (value, missing) = resolve_sample(Some(lattice_scalar(f32::NAN)), isolevel);
    assert_eq!((value.to_bits(), missing), (7.0f32.to_bits(), true));
    let (value, missing) = resolve_sample(Some(lattice_scalar(f32::NEG_INFINITY)), isolevel);
    assert_eq!((value.to_bits(), missing), (7.0f32.to_bits(), true));
    let (value, missing) = resolve_sample(Some(lattice_scalar(f32::MAX)), isolevel);
    assert_eq!((value.to_bits(), missing), (f32::MAX.to_bits(), false));
}

#[test]
fn sampling_twice_with_the_same_samples_changes_nothing() {
    let mut chunk = TerrainChunk::new(UVec3::new(0, 0, 0), UVec3::new(2, 1, 1)).unwrap();
    let samples: Vec<Option<Scalar>> = (0..12)
        .map(|i| if i % 5 == 4 { None } else { Some(lattice_scalar(i as f32 * 0.5 - 2.0)) })
        .collect();
    let isolevel = lattice_scalar(0.0);
    let first = chunk.apply_samples(&samples, isolevel);
    let after_first: Vec<u32> = chunk.points().iter().map(|p| p.value.to_bits()).collect();
    let second = chunk.apply_samples(&samples, isolevel);
    let after_second: Vec<u32> = chunk.points().iter().map(|p| p.value.to_bits()).collect();
    assert_eq!(first, 2);
    assert_eq!(second, 2);
    assert_eq!(after_first, after_second);
}
