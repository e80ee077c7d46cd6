use terrain_procgen::generation::tables::{
    corner_offset, edge_in_mask, edge_vertices, intersected_edges, triangulation_edges,
    CORNER_COUNT, EDGE_COUNT, EDGE_TABLE, EDGE_VERTICES, ROW_END, TRIANGULATION_TABLE,
};
use terrain_procgen::utils::UVec3;

#[test]
fn corners_run_round_the_bottom_face_and_then_round_the_top_face() {
    assert_eq!(corner_offset(0), UVec3::new(0, 0, 0));
    assert_eq!(corner_offset(1), UVec3::new(1, 0, 0));
    assert_eq!(corner_offset(2), UVec3::new(1, 0, 1));
    assert_eq!(corner_offset(3), UVec3::new(0, 0, 1));
    assert_eq!(corner_offset(4), UVec3::new(0, 1, 0));
    assert_eq!(corner_offset(5), UVec3::new(1, 1, 0));
    assert_eq!(corner_offset(6), UVec3::new(1, 1, 1));
    assert_eq!(corner_offset(7), UVec3::new(0, 1, 1));
}

#[test]
fn edges_join_neighbouring_corners() {
    let expected = [
        (0, 1),
        (1, 2),
        (2, 3),
        (3, 0),
        (4, 5),
        (5, 6),
        (6, 7),
        (7, 4),
        (0, 4),
        (1, 5),
        (2, 6),
        (3, 7),
    ];
    for edge in 0..EDGE_COUNT {
        assert_eq!(edge_vertices(edge), expected[edge as usize]);
        assert_eq!(EDGE_VERTICES[edge as usize], expected[edge as usize]);
        let (start, end) = edge_vertices(edge);
        assert!(start < CORNER_COUNT && end < CORNER_COUNT);
        let a = corner_offset(start);
        let b = corner_offset(end);
        let steps = a.x.abs_diff(b.x) + a.y.abs_diff(b.y) + a.z.abs_diff(b.z);
        assert_eq!(steps, 1);
    }
}

#[test]
fn edge_table_holds_the_edges_whose_ends_differ() {
    for config in 0..=255u8 {
        let mask = intersected_edges(config);
        assert_eq!(mask, EDGE_TABLE[config as usize]);
        assert!(mask < 0x1000);
        for edge in 0..EDGE_COUNT {
            let (start, end) = edge_vertices(edge);
            let crossed = ((config >> start) & 1) != ((config >> end) & 1);
            assert_eq!(edge_in_mask(mask, edge), crossed, "config {} edge {}", config, edge);
        }
    }
}

#[test]
fn edge_table_first_entries() {
    assert_eq!(intersected_edges(0), 0x000);
    assert_eq!(intersected_edges(1), 0x109);
    assert_eq!(intersected_edges(2), 0x203);
    assert_eq!(intersected_edges(3), 0x30A);
    assert_eq!(intersected_edges(0x80), 0x8C0);
    assert_eq!(intersected_edges(0xFE), 0x109);
    assert_eq!(intersected_edges(0xFF), 0x000);
}

#[test]
fn triangulation_names_only_edges_of_the_edge_set() {
    for config in 0..=255u8 {
        let mask = intersected_edges(config);
        for edge in triangulation_edges(config) {
            assert!(edge < EDGE_COUNT);
            assert!(edge_in_mask(mask, edge), "config {} edge {}", config, edge);
        }
    }
}

#[test]
fn triangulation_names_every_edge_of_the_edge_set() {
    for config in 0..=255u8 {
        let mask = intersected_edges(config);
        let edges = triangulation_edges(config);
        for edge in 0..EDGE_COUNT {
            if edge_in_mask(mask, edge) {
                assert!(edges.contains(&edge), "config {} edge {}", config, edge);
            }
        }
    }
}

#[test]
fn trivial_configurations_have_no_triangle() {
    assert_eq!(triangulation_edges(0x00), Vec::<u8>::new());
    assert_eq!(triangulation_edges(0xFF), Vec::<u8>::new());
    assert_eq!(intersected_edges(0x00), 0);
    assert_eq!(intersected_edges(0xFF), 0);
}

#[test]
fn single_corner_configurations_have_one_triangle_at_the_corner() {
    for corner in 0..CORNER_COUNT {
        let edges = triangulation_edges(1u8 << corner);
        assert_eq!(edges.len(), 3);
        for edge in edges.iter() {
            let (start, end) = edge_vertices(*edge);
            assert!(start == corner || end == corner);
        }
        assert!(edges[0] != edges[1] && edges[0] != edges[2] && edges[1] != edges[2]);
    }
}

#[test]
fn triangulation_reference_rows() {
    assert_eq!(triangulation_edges(1), vec![0, 8, 3]);
    assert_eq!(triangulation_edges(2), vec![0, 1, 9]);
    assert_eq!(triangulation_edges(3), vec![1, 8, 3, 9, 8, 1]);
    assert_eq!(triangulation_edges(15), vec![9, 8, 10, 10, 8, 11]);
    assert_eq!(triangulation_edges(0x80), vec![7, 6, 11]);
    assert_eq!(triangulation_edges(0xF0), vec![9, 10, 8, 10, 11, 8]);
    assert_eq!(triangulation_edges(0xFE), vec![0, 3, 8]);
    assert_eq!(
        triangulation_edges(61),
        vec![5, 7, 0, 5, 0, 9, 7, 11, 0, 1, 0, 10, 11, 10, 0]
    );
}

#[test]
fn triangulation_rows_come_in_triples_of_different_edges() {
    let mut triangles = 0;
    for config in 0..=255u8 {
        let edges = triangulation_edges(config);
        assert_eq!(edges.len() % 3, 0);
        assert!(edges.len() <= 15);
        for triangle in edges.chunks(3) {
            assert!(triangle[0] != triangle[1]);
            assert!(triangle[0] != triangle[2]);
            assert!(triangle[1] != triangle[2]);
            triangles += 1;
        }
    }
    assert_eq!(triangles, 820);
}

#[test]
fn packed_rows_end_with_the_sentinel() {
    for config in 0..=255usize {
        let row = TRIANGULATION_TABLE[config];
        let edges = triangulation_edges(config as u8);
        for k in 0..16 {
            let entry = ((row >> (4 * k)) & 0xF) as u8;
            if k < edges.len() {
                assert_eq!(entry, edges[k]);
            } else {
                assert_eq!(entry, ROW_END);
            }
        }
    }
}

#[test]
fn every_triangle_faces_away_from_the_inside() {
    // With the vertex of an edge at the edge's middle, the normal of every
    // triangle must point from the corners that are inside towards those
    // that are outside.
    for config in 1..255u8 {
        let edges = triangulation_edges(config);
        for triangle in edges.chunks(3) {
            let mut at = [[0.0f64; 3]; 3];
            for (k, edge) in triangle.iter().enumerate() {
                let (start, end) = edge_vertices(*edge);
                let a = corner_offset(start);
                let b = corner_offset(end);
                at[k] = [
                    (a.x + b.x) as f64 / 2.0,
                    (a.y + b.y) as f64 / 2.0,
                    (a.z + b.z) as f64 / 2.0,
                ];
            }
            let u = [at[1][0] - at[0][0], at[1][1] - at[0][1], at[1][2] - at[0][2]];
            let v = [at[2][0] - at[0][0], at[2][1] - at[0][1], at[2][2] - at[0][2]];
            let normal = [
                u[1] * v[2] - u[2] * v[1],
                u[2] * v[0] - u[0] * v[2],
                u[0] * v[1] - u[1] * v[0],
            ];
            let length = (normal[0] * normal[0] + normal[1] * normal[1] + normal[2] * normal[2]).sqrt();
            assert!(length > 0.0);
            let centre = [
                (at[0][0] + at[1][0] + at[2][0]) / 3.0,
                (at[0][1] + at[1][1] + at[2][1]) / 3.0,
                (at[0][2] + at[1][2] + at[2][2]) / 3.0,
            ];
            let field = |p: [f64; 3]| -> f64 {
                let mut sum = 0.0;
                for corner in 0..CORNER_COUNT {
                    let c = corner_offset(corner);
                    let wx = if c.x == 1 { p[0] } else { 1.0 - p[0] };
                    let wy = if c.y == 1 { p[1] } else { 1.0 - p[1] };
                    let wz = if c.z == 1 { p[2] } else { 1.0 - p[2] };
                    let inside = (config >> corner) & 1 == 1;
                    sum += wx * wy * wz * if inside { -1.0 } else { 1.0 };
                }
                sum
            };
            let step = 0.02 / length;
            let ahead = [
                centre[0] + step * normal[0],
                centre[1] + step * normal[1],
                centre[2] + step * normal[2],
            ];
            let behind = [
                centre[0] - step * normal[0],
                centre[1] - step * normal[1],
                centre[2] - step * normal[2],
            ];
            assert!(field(ahead) > field(behind), "config {} triangle {:?}", config, triangle);
        }
    }
}
