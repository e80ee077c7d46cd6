use terrain_procgen::generation::chunk::{create_chunks, TerrainChunk};
use terrain_procgen::generation::cubes::EdgeCrossing;
use terrain_procgen::generation::mesh::{weld_vertices, Mesh};
use terrain_procgen::generation::TerrainGeneratorConfig;
use terrain_procgen::scalar::{Scalar, Vec3};
use terrain_procgen::utils::UVec3;

fn number(s: Scalar) -> f32 {
    f32::from_bits(s.to_bits())
}

fn scalar(x: f32) -> Scalar {
    Scalar::from_bits(x.to_bits())
}

/// Where a point of a chunk lies in the world.
fn world_position(config: &TerrainGeneratorConfig, chunk: &TerrainChunk, local: UVec3) -> [f32; 3] {
    let edge = number(config.cube_edge_length);
    let origin = chunk.position();
    [
        local.x as f32 * edge + origin.x as f32 * edge,
        local.y as f32 * edge + origin.y as f32 * edge,
        local.z as f32 * edge + origin.z as f32 * edge,
    ]
}

/// The vertex on the edge of a crossing: linear interpolation between the
/// two ends, at the first end where the two values are the same.
fn interpolate(
    config: &TerrainGeneratorConfig,
    chunk: &TerrainChunk,
    crossing: EdgeCrossing,
) -> Vec3 {
    let first = chunk.point(crossing.start);
    let second = chunk.point(crossing.end);
    let a = world_position(config, chunk, first.position);
    let b = world_position(config, chunk, second.position);
    let at = if chunk.crossing_is_degenerate(crossing) {
        a
    } else {
        let t = (number(config.isolevel) - number(first.value)) / (number(second.value) - number(first.value));
        [a[0] + t * (b[0] - a[0]), a[1] + t * (b[1] - a[1]), a[2] + t * (b[2] - a[2])]
    };
    Vec3::new(scalar(at[0]), scalar(at[1]), scalar(at[2]))
}

/// One pass over a chunk: sample, classify and triangulate, interpolate, weld.
fn run_pass(
    config: &TerrainGeneratorConfig,
    chunk: &mut TerrainChunk,
    density: &dyn Fn([f32; 3]) -> f32,
) -> Mesh {
    let lattice: &TerrainChunk = chunk;
    let samples: Vec<Option<Scalar>> = lattice
        .points()
        .iter()
        .map(|point| Some(scalar(density(world_position(config, lattice, point.position)))))
        .collect();
    chunk.apply_samples(&samples, config.isolevel);
    let sampled: &TerrainChunk = chunk;
    let positions: Vec<Vec3> = sampled
        .crossings(config.isolevel)
        .into_iter()
        .map(|crossing| interpolate(config, sampled, crossing))
        .collect();
    weld_vertices(&positions)
}

/// The normal of every vertex: the sum of the cross products of the
/// triangles at the vertex, made to have length one.
fn vertex_normals(mesh: &Mesh) -> Vec<[f32; 3]> {
    let at: Vec<[f32; 3]> =
        mesh.vertices.iter().map(|v| [number(v.x), number(v.y), number(v.z)]).collect();
    let mut normals = vec![[0.0f32; 3]; at.len()];
    for t in 0..mesh.triangle_count() {
        let (a, b, c) = mesh.triangle(t);
        let u = [at[b][0] - at[a][0], at[b][1] - at[a][1], at[b][2] - at[a][2]];
        let v = [at[c][0] - at[a][0], at[c][1] - at[a][1], at[c][2] - at[a][2]];
        let weighted = [
            u[1] * v[2] - u[2] * v[1],
            u[2] * v[0] - u[0] * v[2],
            u[0] * v[1] - u[1] * v[0],
        ];
        for corner in [a, b, c] {
            for k in 0..3 {
                normals[corner][k] += weighted[k];
            }
        }
    }
    for normal in normals.iter_mut() {
        let length =
            (normal[0] * normal[0] + normal[1] * normal[1] + normal[2] * normal[2]).sqrt();
        for k in 0..3 {
            normal[k] /= length;
        }
    }
    normals
}

fn flat_plane_config() -> TerrainGeneratorConfig {
    TerrainGeneratorConfig {
        chunks_amount: UVec3::new(2, 2, 1),
        chunk_size: UVec3::new(2, 2, 2),
        cube_edge_length: scalar(0.5),
        isolevel: scalar(3.0),
        show_gizmos: false,
    }
}

const PLANE_HEIGHT: f32 = 1.5;
const PLANE_EPSILON: f32 = 0.25;

fn flat_plane_density(p: [f32; 3]) -> f32 {
    if p[1] < PLANE_HEIGHT {
        3.0 - PLANE_EPSILON
    } else {
        3.0 + PLANE_EPSILON
    }
}

#[test]
fn flat_plane_vertices_lie_within_epsilon_of_the_plane() {
    let config = flat_plane_config();
    let mut chunks = create_chunks(&config).unwrap();
    assert_eq!(chunks.len(), 4);
    let mut vertices = 0;
    for chunk in chunks.iter_mut() {
        let mesh = run_pass(&config, chunk, &flat_plane_density);
        for vertex in mesh.vertices.iter() {
            assert!((number(vertex.y) - PLANE_HEIGHT).abs() <= PLANE_EPSILON);
        }
        vertices += mesh.vertices.len();
    }
    // The plane passes through the upper two chunks only, between their
    // points at the heights 1 and 1.5: each has 3 by 3 vertices there.
    assert_eq!(vertices, 18);
}

#[test]
fn flat_plane_mesh_of_one_chunk() {
    let config = TerrainGeneratorConfig {
        chunks_amount: UVec3::new(1, 1, 1),
        chunk_size: UVec3::new(2, 2, 2),
        cube_edge_length: scalar(1.0),
        isolevel: scalar(0.0),
        show_gizmos: false,
    };
    let mut chunks = create_chunks(&config).unwrap();
    let density = |p: [f32; 3]| if p[1] < 1.0 { -0.5 } else { 0.5 };
    let mesh = run_pass(&config, &mut chunks[0], &density);
    // Four cubes in the lower layer, two triangles each, welded at the
    // middles of the nine upright edges of that layer.
    assert_eq!(mesh.indices.len(), 24);
    assert_eq!(mesh.triangle_count(), 8);
    assert_eq!(mesh.vertices.len(), 9);
    assert!(mesh.is_wf());
    for vertex in mesh.vertices.iter() {
        assert_eq!(number(vertex.y), 0.5);
    }
    let mut columns: Vec<(u32, u32)> =
        mesh.vertices.iter().map(|v| (number(v.x) as u32, number(v.z) as u32)).collect();
    columns.sort();
    assert_eq!(columns, vec![(0, 0), (0, 1), (0, 2), (1, 0), (1, 1), (1, 2), (2, 0), (2, 1), (2, 2)]);
}

#[test]
fn flat_plane_normals_all_point_up() {
    let config = flat_plane_config();
    let mut chunks = create_chunks(&config).unwrap();
    let mut normals = 0;
    for chunk in chunks.iter_mut() {
        let mesh = run_pass(&config, chunk, &flat_plane_density);
        for normal in vertex_normals(&mesh) {
            assert_eq!(normal, [0.0, 1.0, 0.0]);
            normals += 1;
        }
    }
    assert_eq!(normals, 18);
}

#[test]
fn flat_plane_turned_over_has_normals_that_all_point_down() {
    let config = flat_plane_config();
    let mut chunks = create_chunks(&config).unwrap();
    let density = |p: [f32; 3]| 6.0 - flat_plane_density(p);
    for chunk in chunks.iter_mut() {
        let mesh = run_pass(&config, chunk, &density);
        for normal in vertex_normals(&mesh) {
            assert_eq!(normal, [0.0, -1.0, 0.0]);
        }
    }
}

#[test]
fn regenerating_with_the_same_inputs_gives_the_same_mesh() {
    let config = TerrainGeneratorConfig {
        chunks_amount: UVec3::new(2, 1, 2),
        chunk_size: UVec3::new(3, 3, 3),
        cube_edge_length: scalar(0.75),
        isolevel: scalar(0.1),
        show_gizmos: false,
    };
    let density = |p: [f32; 3]| {
        let x = p[0] - 2.0;
        let y = p[1] - 1.0;
        let z = p[2] - 2.0;
        (x * x + y * y + z * z).sqrt() - 1.6
    };
    let mut chunks = create_chunks(&config).unwrap();
    let mut triangles = 0;
    for chunk in chunks.iter_mut() {
        let first = run_pass(&config, chunk, &density);
        let second = run_pass(&config, chunk, &density);
        let first_bits: Vec<[u32; 3]> =
            first.vertices.iter().map(|v| [v.x.to_bits(), v.y.to_bits(), v.z.to_bits()]).collect();
        let second_bits: Vec<[u32; 3]> =
            second.vertices.iter().map(|v| [v.x.to_bits(), v.y.to_bits(), v.z.to_bits()]).collect();
        assert_eq!(first_bits, second_bits);
        assert_eq!(first.indices, second.indices);
        assert!(first.is_wf());
        triangles += first.triangle_count();
    }
    assert!(triangles > 0);
}

#[test]
fn ground_function_of_the_height_gives_a_plane_at_the_isolevel() {
    // The density is the height itself; the surface is the plane at the
    // height of the isolevel, and the inside lies below it.
    let config = TerrainGeneratorConfig {
        chunks_amount: UVec3::new(1, 1, 1),
        chunk_size: UVec3::new(2, 4, 2),
        cube_edge_length: scalar(1.0),
        isolevel: scalar(2.25),
        show_gizmos: false,
    };
    let mut chunks = create_chunks(&config).unwrap();
    let mesh = run_pass(&config, &mut chunks[0], &|p: [f32; 3]| p[1]);
    assert_eq!(mesh.vertices.len(), 9);
    assert_eq!(mesh.triangle_count(), 8);
    for vertex in mesh.vertices.iter() {
        assert_eq!(number(vertex.y), 2.25);
    }
    for normal in vertex_normals(&mesh) {
        assert_eq!(normal, [0.0, 1.0, 0.0]);
    }
}

#[test]
fn surface_through_lattice_points_puts_the_vertices_at_the_points() {
    // The isolevel is the value at the layer of height 1: every upright edge
    // from that layer down crosses at its upper end.
    let config = TerrainGeneratorConfig {
        chunks_amount: UVec3::new(1, 1, 1),
        chunk_size: UVec3::new(1, 2, 1),
        cube_edge_length: scalar(1.0),
        isolevel: scalar(1.0),
        show_gizmos: false,
    };
    let mut chunks = create_chunks(&config).unwrap();
    let mesh = run_pass(&config, &mut chunks[0], &|p: [f32; 3]| p[1]);
    assert_eq!(mesh.triangle_count(), 2);
    assert_eq!(mesh.vertices.len(), 4);
    for vertex in mesh.vertices.iter() {
        assert_eq!(number(vertex.y), 1.0);
    }
}
