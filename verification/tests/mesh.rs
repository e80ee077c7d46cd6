use terrain_procgen::generation::mesh::{position_of, weld_vertices, Mesh};
use terrain_procgen::scalar::{Scalar, Vec3};

fn mesh_position(x: f32, y: f32, z: f32) -> Vec3 {
    Vec3::new(
        Scalar::from_bits(x.to_bits()),
        Scalar::from_bits(y.to_bits()),
        Scalar::from_bits(z.to_bits()),
    )
}

fn mesh_bits(v: &Vec3) -> [u32; 3] {
    [v.x.to_bits(), v.y.to_bits(), v.z.to_bits()]
}

#[test]
fn welding_keeps_each_position_once_in_the_order_of_first_occurrence() {
    let a = mesh_position(0.0, 0.5, 0.0);
    let b = mesh_position(1.0, 0.5, 0.0);
    let c = mesh_position(0.0, 0.5, 1.0);
    let d = mesh_position(1.0, 0.5, 1.0);
    let mesh = weld_vertices(&vec![a, b, c, c, b, d]);
    let vertices: Vec<[u32; 3]> = mesh.vertices.iter().map(mesh_bits).collect();
    assert_eq!(vertices, vec![mesh_bits(&a), mesh_bits(&b), mesh_bits(&c), mesh_bits(&d)]);
    assert_eq!(mesh.indices, vec![0, 1, 2, 2, 1, 3]);
    assert_eq!(mesh.triangle_count(), 2);
    assert!(mesh.is_wf());
    assert_eq!(mesh.triangle(0), (0, 1, 2));
    assert_eq!(mesh.triangle(1), (2, 1, 3));
}

#[test]
fn welding_nothing_gives_an_empty_mesh() {
    let mesh = weld_vertices(&Vec::new());
    assert!(mesh.vertices.is_empty());
    assert!(mesh.indices.is_empty());
    assert_eq!(mesh.triangle_count(), 0);
    assert!(mesh.is_wf());
}

#[test]
fn welding_compares_numbers_not_bits() {
    let plus = mesh_position(0.0, 1.0, 2.0);
    let minus = mesh_position(-0.0, 1.0, 2.0);
    let mesh = weld_vertices(&vec![plus, minus, plus]);
    assert_eq!(mesh.vertices.len(), 1);
    assert_eq!(mesh_bits(&mesh.vertices[0]), mesh_bits(&plus));
    assert_eq!(mesh.indices, vec![0, 0, 0]);
}

#[test]
fn welding_never_shares_a_position_that_is_not_a_number() {
    let nan = mesh_position(f32::NAN, 1.0, 2.0);
    let sound = mesh_position(3.0, 1.0, 2.0);
    let mesh = weld_vertices(&vec![nan, sound, nan, sound, nan, nan]);
    assert_eq!(mesh.vertices.len(), 5);
    assert_eq!(mesh.indices, vec![0, 1, 2, 1, 3, 4]);
}

#[test]
fn welding_the_welded_vertices_again_leaves_them() {
    let positions = vec![
        mesh_position(0.0, 0.0, 0.0),
        mesh_position(1.0, 0.0, 0.0),
        mesh_position(0.0, 0.0, 0.0),
        mesh_position(2.0, 0.0, 0.0),
        mesh_position(1.0, 0.0, 0.0),
        mesh_position(-0.0, 0.0, 0.0),
    ];
    let once = weld_vertices(&positions);
    let twice = weld_vertices(&once.vertices);
    let first: Vec<[u32; 3]> = once.vertices.iter().map(mesh_bits).collect();
    let second: Vec<[u32; 3]> = twice.vertices.iter().map(mesh_bits).collect();
    assert_eq!(first, second);
    assert_eq!(twice.indices, vec![0, 1, 2]);
    assert_eq!(once.indices, vec![0, 1, 0, 2, 1, 0]);
}

#[test]
fn position_is_found_at_its_first_place_or_past_the_end() {
    let vertices = vec![
        mesh_position(0.0, 0.0, 0.0),
        mesh_position(1.0, 0.0, 0.0),
        mesh_position(1.0, 0.0, 0.0),
        mesh_position(f32::NAN, 0.0, 0.0),
    ];
    assert_eq!(position_of(&vertices, mesh_position(0.0, 0.0, 0.0)), 0);
    assert_eq!(position_of(&vertices, mesh_position(1.0, 0.0, 0.0)), 1);
    assert_eq!(position_of(&vertices, mesh_position(2.0, 0.0, 0.0)), 4);
    assert_eq!(position_of(&vertices, mesh_position(f32::NAN, 0.0, 0.0)), 4);
    assert_eq!(position_of(&Vec::new(), mesh_position(0.0, 0.0, 0.0)), 0);
}

#[test]
fn a_mesh_whose_index_names_no_vertex_is_not_well_formed() {
    let a = mesh_position(0.0, 0.0, 0.0);
    assert!(Mesh { vertices: vec![a, a, a], indices: vec![0, 1, 2] }.is_wf());
    assert!(!Mesh { vertices: vec![a, a, a], indices: vec![0, 1, 3] }.is_wf());
    assert!(!Mesh { vertices: vec![a, a, a], indices: vec![0, 1] }.is_wf());
    assert!(Mesh { vertices: vec![a], indices: vec![] }.is_wf());
}
