//! The cube classifier and the triangulator: from the values at a cube's
//! eight corners to the edges on which the vertices of its triangles lie.

use crate::generation::chunk::{sampled_chunk, ChunkView, TerrainChunk};
use crate::generation::tables::{
    corner_inside,
    corner_offset,
    corner_offset_spec,
    edge_end,
    edge_start,
    edge_vertices,
    edge_middle,
    edge_outward,
    edge_touches_corner,
    faces_outward,
    lemma_row_shape,
    lemma_single_corner,
    lemma_table_consistency,
    lemma_triangles_face_outward,
    lemma_trivial_cubes,
    triangle_count,
    triangulation,
    triangulation_edges,
    triple_product,
    CORNER_COUNT,
    EDGE_COUNT,
};
use crate::scalar::Scalar;
use crate::utils::{
    from_1D_to_3D_index,
    from_3D_to_1D_index,
    lattice_coordinate,
    lemma_coordinate_of_linear_index,
    lemma_linear_index_bound,
    lemma_linear_index_of_coordinate,
    linear_index,
    UVec3,
};
use vstd::prelude::*;

verus! {

/// The lattice coordinate of a corner of the cube whose minimum corner is at `cube`.
pub open spec fn cube_corner(cube: UVec3, corner: u8) -> UVec3 {
    UVec3 {
        x: (cube.x + corner_offset_spec(corner).x) as u32,
        y: (cube.y + corner_offset_spec(corner).y) as u32,
        z: (cube.z + corner_offset_spec(corner).z) as u32,
    }
}

/// The flat position, among the points of a chunk, of a corner of a cube.
pub open spec fn cube_corner_index(chunk: ChunkView, cube: UVec3, corner: u8) -> int {
    linear_index(cube_corner(cube, corner), chunk.point_size())
}

/// Whether a corner of a cube lies inside the surface: the value there is
/// less than the isolevel.
pub open spec fn cube_corner_inside(
    chunk: ChunkView,
    cube: UVec3,
    corner: u8,
    isolevel: Scalar,
) -> bool {
    chunk.values[cube_corner_index(chunk, cube, corner)].spec_lt(isolevel)
}

/// A vertex of the mesh before it has a position: it lies where the density
/// crosses the isolevel on the lattice edge between two points of the chunk,
/// which are given by their flat positions.
#[derive(Clone, Copy, Debug, PartialEq, Eq, Structural)]
pub struct EdgeCrossing {
    /// The point at which the edge starts.
    pub start: u32,
    /// The point at which the edge ends.
    pub end: u32,
}

/// The vertex on an edge of a cube.
pub open spec fn edge_crossing(chunk: ChunkView, cube: UVec3, edge: u8) -> EdgeCrossing {
    EdgeCrossing {
        start: cube_corner_index(chunk, cube, edge_start(edge)) as u32,
        end: cube_corner_index(chunk, cube, edge_end(edge)) as u32,
    }
}

/// The vertices of the triangles of one cube: for each edge that the
/// triangulation of the cube's configuration names, the vertex on it.
pub open spec fn cube_crossings_spec(chunk: ChunkView, cube: UVec3, isolevel: Scalar) -> Seq<
    EdgeCrossing,
> {
    let edges = triangulation(cube_configuration_spec(chunk, cube, isolevel));
    Seq::new(edges.len(), |k: int| edge_crossing(chunk, cube, edges[k]))
}

/// The vertices of the triangles of the first `n` cubes of a chunk, the
/// cubes taken x fastest, then y, then z.
pub open spec fn crossings_before(chunk: ChunkView, isolevel: Scalar, n: nat) -> Seq<EdgeCrossing>
    decreases n,
{
    if n == 0 {
        Seq::empty()
    } else {
        crossings_before(chunk, isolevel, (n - 1) as nat) + cube_crossings_spec(
            chunk,
            lattice_coordinate(n - 1, chunk.size),
            isolevel,
        )
    }
}

/// The vertices of all triangles of a chunk.
pub open spec fn chunk_crossings(chunk: ChunkView, isolevel: Scalar) -> Seq<EdgeCrossing> {
    crossings_before(chunk, isolevel, chunk.size.volume() as nat)
}

/// One bit of a configuration: `1 << corner` when the corner is inside.
pub open spec fn corner_bit(inside: bool, corner: u8) -> u8 {
    if inside {
        1u8 << corner
    } else {
        0u8
    }
}

/// The configuration of a cube: bit `i` is set exactly when corner `i` lies inside.
pub open spec fn cube_configuration_spec(chunk: ChunkView, cube: UVec3, isolevel: Scalar) -> u8 {
    corner_bit(cube_corner_inside(chunk, cube, 0, isolevel), 0) | corner_bit(
        cube_corner_inside(chunk, cube, 1, isolevel),
        1,
    ) | corner_bit(cube_corner_inside(chunk, cube, 2, isolevel), 2) | corner_bit(
        cube_corner_inside(chunk, cube, 3, isolevel),
        3,
    ) | corner_bit(cube_corner_inside(chunk, cube, 4, isolevel), 4) | corner_bit(
        cube_corner_inside(chunk, cube, 5, isolevel),
        5,
    ) | corner_bit(cube_corner_inside(chunk, cube, 6, isolevel), 6) | corner_bit(
        cube_corner_inside(chunk, cube, 7, isolevel),
        7,
    )
}

proof fn lemma_configuration_bits(
    b0: bool,
    b1: bool,
    b2: bool,
    b3: bool,
    b4: bool,
    b5: bool,
    b6: bool,
    b7: bool,
)
    by (bit_vector)
    ensures
        ({
            let config = corner_bit(b0, 0) | corner_bit(b1, 1) | corner_bit(b2, 2) | corner_bit(
                b3,
                3,
            ) | corner_bit(b4, 4) | corner_bit(b5, 5) | corner_bit(b6, 6) | corner_bit(b7, 7);
            &&& corner_inside(config, 0) == b0
            &&& corner_inside(config, 1) == b1
            &&& corner_inside(config, 2) == b2
            &&& corner_inside(config, 3) == b3
            &&& corner_inside(config, 4) == b4
            &&& corner_inside(config, 5) == b5
            &&& corner_inside(config, 6) == b6
            &&& corner_inside(config, 7) == b7
        }),
{
}

/// The configuration of a cube has bit `corner` set exactly when that
/// corner lies inside the surface.
pub proof fn lemma_configuration_marks_inside_corners(
    chunk: ChunkView,
    cube: UVec3,
    isolevel: Scalar,
    corner: u8,
)
    requires
        corner < CORNER_COUNT,
    ensures
        corner_inside(cube_configuration_spec(chunk, cube, isolevel), corner) == cube_corner_inside(
            chunk,
            cube,
            corner,
            isolevel,
        ),
{
    lemma_configuration_bits(
        cube_corner_inside(chunk, cube, 0, isolevel),
        cube_corner_inside(chunk, cube, 1, isolevel),
        cube_corner_inside(chunk, cube, 2, isolevel),
        cube_corner_inside(chunk, cube, 3, isolevel),
        cube_corner_inside(chunk, cube, 4, isolevel),
        cube_corner_inside(chunk, cube, 5, isolevel),
        cube_corner_inside(chunk, cube, 6, isolevel),
        cube_corner_inside(chunk, cube, 7, isolevel),
    );
}

/// A corner of a cube of the chunk is a point of the chunk.
pub proof fn lemma_cube_corner_in_chunk(chunk: ChunkView, cube: UVec3, corner: u8)
    requires
        chunk.wf(),
        cube.within(chunk.size),
        corner < CORNER_COUNT,
    ensures
        cube_corner(cube, corner).within(chunk.point_size()),
        cube_corner(cube, corner).x == cube.x + corner_offset_spec(corner).x,
        cube_corner(cube, corner).y == cube.y + corner_offset_spec(corner).y,
        cube_corner(cube, corner).z == cube.z + corner_offset_spec(corner).z,
        0 <= cube_corner_index(chunk, cube, corner) < chunk.values.len(),
{
    let px = chunk.size.x + 1;
    let py = chunk.size.y + 1;
    let pz = chunk.size.z + 1;
    assert(px <= px * py * pz && py <= px * py * pz && pz <= px * py * pz) by (nonlinear_arith)
        requires
            1 <= px,
            1 <= py,
            1 <= pz,
    ;
    lemma_linear_index_bound(cube_corner(cube, corner), chunk.point_size());
}


/// Whether two lattice coordinates are one lattice step apart along one axis.
pub open spec fn lattice_neighbours(a: UVec3, b: UVec3) -> bool {
    ||| a.y == b.y && a.z == b.z && (a.x + 1 == b.x || b.x + 1 == a.x)
    ||| a.x == b.x && a.z == b.z && (a.y + 1 == b.y || b.y + 1 == a.y)
    ||| a.x == b.x && a.y == b.y && (a.z + 1 == b.z || b.z + 1 == a.z)
}

/// What holds of every vertex that the triangulator gives: its edge joins
/// two neighbouring points of the chunk, of which exactly one lies inside
/// the surface; so the values at its two ends differ, and interpolating
/// between them never divides by zero.
pub open spec fn crossing_separates(chunk: ChunkView, isolevel: Scalar, crossing: EdgeCrossing) -> bool {
    &&& crossing.start < chunk.values.len()
    &&& crossing.end < chunk.values.len()
    &&& lattice_neighbours(
        lattice_coordinate(crossing.start as int, chunk.point_size()),
        lattice_coordinate(crossing.end as int, chunk.point_size()),
    )
    &&& chunk.values[crossing.start as int].spec_lt(isolevel) != chunk.values[crossing.end as int].spec_lt(
        isolevel,
    )
    &&& !chunk.values[crossing.start as int].spec_same(chunk.values[crossing.end as int])
}

/// The two ends of an edge of the cube are one step apart along one axis.
pub proof fn lemma_edge_joins_neighbours(cube: UVec3, edge: u8)
    requires
        edge < EDGE_COUNT,
        cube.x < u32::MAX,
        cube.y < u32::MAX,
        cube.z < u32::MAX,
    ensures
        lattice_neighbours(cube_corner(cube, edge_start(edge)), cube_corner(cube, edge_end(edge))),
{
}

/// Every vertex of a cube lies on an edge that joins two neighbouring points
/// of the chunk, of which exactly one lies inside the surface.
pub proof fn lemma_cube_crossing_separates(chunk: ChunkView, cube: UVec3, isolevel: Scalar, k: int)
    requires
        chunk.wf(),
        cube.within(chunk.size),
        0 <= k < cube_crossings_spec(chunk, cube, isolevel).len(),
    ensures
        crossing_separates(chunk, isolevel, cube_crossings_spec(chunk, cube, isolevel)[k]),
        cube_crossings_spec(chunk, cube, isolevel)[k] == edge_crossing(
            chunk,
            cube,
            triangulation(cube_configuration_spec(chunk, cube, isolevel))[k],
        ),
        triangulation(cube_configuration_spec(chunk, cube, isolevel))[k] < EDGE_COUNT,
{
    let config = cube_configuration_spec(chunk, cube, isolevel);
    let edge = triangulation(config)[k];
    lemma_table_consistency(config, k);
    let start = edge_start(edge);
    let end = edge_end(edge);
    lemma_configuration_marks_inside_corners(chunk, cube, isolevel, start);
    lemma_configuration_marks_inside_corners(chunk, cube, isolevel, end);
    lemma_cube_corner_in_chunk(chunk, cube, start);
    lemma_cube_corner_in_chunk(chunk, cube, end);
    lemma_coordinate_of_linear_index(cube_corner(cube, start), chunk.point_size());
    lemma_coordinate_of_linear_index(cube_corner(cube, end), chunk.point_size());
    lemma_edge_joins_neighbours(cube, edge);
}

/// The number of vertices of a cube is three times the number of its
/// triangles, which are at most five.
pub proof fn lemma_cube_crossings_in_triples(chunk: ChunkView, cube: UVec3, isolevel: Scalar)
    ensures
        cube_crossings_spec(chunk, cube, isolevel).len() == 3 * triangle_count(
            cube_configuration_spec(chunk, cube, isolevel),
        ),
        cube_crossings_spec(chunk, cube, isolevel).len() <= 15,
{
    lemma_row_shape(cube_configuration_spec(chunk, cube, isolevel), 0);
}

/// A cube whose corners all lie on one side of the surface
/// has no triangle.
pub proof fn lemma_uniform_cube_is_empty(chunk: ChunkView, cube: UVec3, isolevel: Scalar)
    requires
        forall|corner: u8|
            corner < CORNER_COUNT ==> #[trigger] cube_corner_inside(chunk, cube, corner, isolevel)
                == cube_corner_inside(chunk, cube, 0, isolevel),
    ensures
        cube_crossings_spec(chunk, cube, isolevel).len() == 0,
{
    let config = cube_configuration_spec(chunk, cube, isolevel);
    assert forall|corner: u8| corner < CORNER_COUNT implies #[trigger] corner_inside(config, corner)
        == corner_inside(config, 0) by {
        lemma_configuration_marks_inside_corners(chunk, cube, isolevel, corner);
        lemma_configuration_marks_inside_corners(chunk, cube, isolevel, 0);
    }
    lemma_trivial_cubes(config);
}

/// A cube with exactly one corner inside the surface has
/// exactly one triangle, and each of its three vertices lies on a different
/// one of the three edges that meet at that corner.
pub proof fn lemma_single_corner_cube(chunk: ChunkView, cube: UVec3, isolevel: Scalar, corner: u8)
    requires
        corner < CORNER_COUNT,
        forall|other: u8|
            other < CORNER_COUNT ==> #[trigger] cube_corner_inside(chunk, cube, other, isolevel) == (
            other == corner),
    ensures
        cube_crossings_spec(chunk, cube, isolevel).len() == 3,
        forall|k: int|
            0 <= k < 3 ==> {
                let edge = triangulation(cube_configuration_spec(chunk, cube, isolevel))[k];
                &&& edge_touches_corner(edge, corner)
                &&& #[trigger] cube_crossings_spec(chunk, cube, isolevel)[k] == edge_crossing(
                    chunk,
                    cube,
                    edge,
                )
            },
        triangulation(cube_configuration_spec(chunk, cube, isolevel))[0] != triangulation(
            cube_configuration_spec(chunk, cube, isolevel),
        )[1],
        triangulation(cube_configuration_spec(chunk, cube, isolevel))[0] != triangulation(
            cube_configuration_spec(chunk, cube, isolevel),
        )[2],
        triangulation(cube_configuration_spec(chunk, cube, isolevel))[1] != triangulation(
            cube_configuration_spec(chunk, cube, isolevel),
        )[2],
{
    let config = cube_configuration_spec(chunk, cube, isolevel);
    assert forall|other: u8| other < CORNER_COUNT implies #[trigger] corner_inside(config, other)
        == (other == corner) by {
        lemma_configuration_marks_inside_corners(chunk, cube, isolevel, other);
    }
    lemma_single_corner(config, corner);
}

/// The first `n` cubes of a chunk give vertices in triples, and every one of
/// them lies on an edge that joins two neighbouring points of the chunk, of
/// which exactly one lies inside the surface.
pub proof fn lemma_crossings_before_separate(chunk: ChunkView, isolevel: Scalar, n: nat)
    requires
        chunk.wf(),
        n <= chunk.size.volume(),
    ensures
        crossings_before(chunk, isolevel, n).len() % 3 == 0,
        crossings_before(chunk, isolevel, n).len() <= 15 * n,
        forall|k: int|
            0 <= k < crossings_before(chunk, isolevel, n).len() ==> crossing_separates(
                chunk,
                isolevel,
                #[trigger] crossings_before(chunk, isolevel, n)[k],
            ),
    decreases n,
{
    if n > 0 {
        let before = crossings_before(chunk, isolevel, (n - 1) as nat);
        let cube = lattice_coordinate(n - 1, chunk.size);
        let of_cube = cube_crossings_spec(chunk, cube, isolevel);
        lemma_crossings_before_separate(chunk, isolevel, (n - 1) as nat);
        lemma_cube_count_fits(chunk);
        lemma_linear_index_of_coordinate(n - 1, chunk.size);
        lemma_cube_crossings_in_triples(chunk, cube, isolevel);
        assert forall|k: int| 0 <= k < crossings_before(chunk, isolevel, n).len() implies crossing_separates(
            chunk,
            isolevel,
            #[trigger] crossings_before(chunk, isolevel, n)[k],
        ) by {
            if k >= before.len() {
                lemma_cube_crossing_separates(chunk, cube, isolevel, k - before.len());
            }
        }
    }
}

/// A chunk has fewer cubes than points.
pub proof fn lemma_cube_count_fits(chunk: ChunkView)
    requires
        chunk.wf(),
    ensures
        0 < chunk.size.volume() < chunk.values.len(),
{
    let sx = chunk.size.x as int;
    let sy = chunk.size.y as int;
    let sz = chunk.size.z as int;
    assert(0 < sx * sy * sz < (sx + 1) * (sy + 1) * (sz + 1)) by (nonlinear_arith)
        requires
            1 <= sx,
            1 <= sy,
            1 <= sz,
    ;
}

/// What holds of the vertices of a chunk: they come in triples, one for each
/// triangle, and every one of them lies on an edge that joins two
/// neighbouring points of the chunk, of which exactly one lies inside the
/// surface.
pub proof fn lemma_chunk_crossings_separate(chunk: ChunkView, isolevel: Scalar)
    requires
        chunk.wf(),
    ensures
        chunk_crossings(chunk, isolevel).len() % 3 == 0,
        chunk_crossings(chunk, isolevel).len() <= 15 * chunk.size.volume(),
        forall|k: int|
            0 <= k < chunk_crossings(chunk, isolevel).len() ==> crossing_separates(
                chunk,
                isolevel,
                #[trigger] chunk_crossings(chunk, isolevel)[k],
            ),
{
    lemma_cube_count_fits(chunk);
    lemma_crossings_before_separate(chunk, isolevel, chunk.size.volume() as nat);
}

/// The vertices of a chunk depend only on its extent and its values: a
/// pass that leaves the same values gives the same vertices again.
pub proof fn lemma_crossings_depend_on_values(chunk: ChunkView, other: ChunkView, isolevel: Scalar)
    requires
        chunk.size == other.size,
        chunk.values == other.values,
    ensures
        chunk_crossings(chunk, isolevel) == chunk_crossings(other, isolevel),
{
    lemma_crossings_before_depend_on_values(
        chunk,
        other,
        isolevel,
        chunk.size.volume() as nat,
    );
}

proof fn lemma_crossings_before_depend_on_values(
    chunk: ChunkView,
    other: ChunkView,
    isolevel: Scalar,
    n: nat,
)
    requires
        chunk.size == other.size,
        chunk.values == other.values,
    ensures
        crossings_before(chunk, isolevel, n) == crossings_before(other, isolevel, n),
    decreases n,
{
    if n > 0 {
        lemma_crossings_before_depend_on_values(chunk, other, isolevel, (n - 1) as nat);
        let cube = lattice_coordinate(n - 1, chunk.size);
        assert(cube_crossings_spec(chunk, cube, isolevel) =~= cube_crossings_spec(
            other,
            cube,
            isolevel,
        ));
    }
}

/// Regenerating is idempotent: two sampling passes with the same samples
/// and the same isolevel, over chunks of the same extent, leave the same
/// vertices, whatever the chunks held before.
pub proof fn lemma_regeneration_is_idempotent(
    chunk: ChunkView,
    other: ChunkView,
    samples: Seq<Option<Scalar>>,
    isolevel: Scalar,
)
    requires
        chunk.size == other.size,
    ensures
        chunk_crossings(sampled_chunk(chunk, samples, isolevel), isolevel) == chunk_crossings(
            sampled_chunk(other, samples, isolevel),
            isolevel,
        ),
        chunk_crossings(
            sampled_chunk(sampled_chunk(chunk, samples, isolevel), samples, isolevel),
            isolevel,
        ) == chunk_crossings(sampled_chunk(chunk, samples, isolevel), isolevel),
{
    lemma_crossings_depend_on_values(
        sampled_chunk(chunk, samples, isolevel),
        sampled_chunk(other, samples, isolevel),
        isolevel,
    );
}

/// The coordinate of a lattice point along one axis: axis 0 is x, axis 1 is
/// y, and any other is z.
pub open spec fn axis_coordinate(v: UVec3, axis: u8) -> int {
    if axis == 0 {
        v.x as int
    } else if axis == 1 {
        v.y as int
    } else {
        v.z as int
    }
}

/// Twice the coordinate, along one axis, of the middle of the edge of a
/// vertex.
pub open spec fn crossing_middle(chunk: ChunkView, crossing: EdgeCrossing, axis: u8) -> int {
    axis_coordinate(lattice_coordinate(crossing.start as int, chunk.point_size()), axis)
        + axis_coordinate(lattice_coordinate(crossing.end as int, chunk.point_size()), axis)
}

/// The step along one axis from the end of a vertex's edge that is inside
/// the surface to the end that is outside.
pub open spec fn crossing_outward(
    chunk: ChunkView,
    isolevel: Scalar,
    crossing: EdgeCrossing,
    axis: u8,
) -> int {
    let start = axis_coordinate(
        lattice_coordinate(crossing.start as int, chunk.point_size()),
        axis,
    );
    let end = axis_coordinate(lattice_coordinate(crossing.end as int, chunk.point_size()), axis);
    if chunk.values[crossing.start as int].spec_lt(isolevel) {
        end - start
    } else {
        start - end
    }
}

/// Whether the triangle with the vertices `a`, `b`, `c`, in this order,
/// faces from the inside of the surface to the outside: with each vertex at
/// the middle of its edge, the normal of the triangle, which is the cross
/// product of the steps from `a` to `b` and from `a` to `c`, and the sum of
/// the steps that lead outwards along the three edges point to the same
/// side.
pub open spec fn triangle_faces_outward(
    chunk: ChunkView,
    isolevel: Scalar,
    a: EdgeCrossing,
    b: EdgeCrossing,
    c: EdgeCrossing,
) -> bool {
    triple_product(
        crossing_middle(chunk, b, 0) - crossing_middle(chunk, a, 0),
        crossing_middle(chunk, b, 1) - crossing_middle(chunk, a, 1),
        crossing_middle(chunk, b, 2) - crossing_middle(chunk, a, 2),
        crossing_middle(chunk, c, 0) - crossing_middle(chunk, a, 0),
        crossing_middle(chunk, c, 1) - crossing_middle(chunk, a, 1),
        crossing_middle(chunk, c, 2) - crossing_middle(chunk, a, 2),
        crossing_outward(chunk, isolevel, a, 0) + crossing_outward(chunk, isolevel, b, 0)
            + crossing_outward(chunk, isolevel, c, 0),
        crossing_outward(chunk, isolevel, a, 1) + crossing_outward(chunk, isolevel, b, 1)
            + crossing_outward(chunk, isolevel, c, 1),
        crossing_outward(chunk, isolevel, a, 2) + crossing_outward(chunk, isolevel, b, 2)
            + crossing_outward(chunk, isolevel, c, 2),
    ) > 0
}

/// Whether every triangle of a run of vertices, three for each triangle,
/// faces from the inside of the surface to the outside.
pub open spec fn triangles_face_outward(
    chunk: ChunkView,
    isolevel: Scalar,
    crossings: Seq<EdgeCrossing>,
) -> bool {
    forall|t: int|
        0 <= t && 3 * t + 2 < crossings.len() ==> triangle_faces_outward(
            chunk,
            isolevel,
            #[trigger] crossings[3 * t],
            crossings[3 * t + 1],
            crossings[3 * t + 2],
        )
}

/// The vertex on an edge of a cube lies, in the chunk, where the edge lies
/// in the cube, and its edge leads outwards as the edge of the cube does in
/// the cube's configuration.
proof fn lemma_edge_crossing_in_chunk(
    chunk: ChunkView,
    cube: UVec3,
    isolevel: Scalar,
    edge: u8,
    axis: u8,
)
    requires
        chunk.wf(),
        cube.within(chunk.size),
        edge < EDGE_COUNT,
    ensures
        crossing_middle(chunk, edge_crossing(chunk, cube, edge), axis) == 2 * axis_coordinate(
            cube,
            axis,
        ) + edge_middle(edge, axis),
        crossing_outward(chunk, isolevel, edge_crossing(chunk, cube, edge), axis) == edge_outward(
            cube_configuration_spec(chunk, cube, isolevel),
            edge,
            axis,
        ),
{
    let start = edge_start(edge);
    let end = edge_end(edge);
    lemma_configuration_marks_inside_corners(chunk, cube, isolevel, start);
    lemma_cube_corner_in_chunk(chunk, cube, start);
    lemma_cube_corner_in_chunk(chunk, cube, end);
    lemma_coordinate_of_linear_index(cube_corner(cube, start), chunk.point_size());
    lemma_coordinate_of_linear_index(cube_corner(cube, end), chunk.point_size());
}

/// Every triangle of a cube faces from the inside of the surface to the
/// outside.
pub proof fn lemma_cube_triangles_face_outward(chunk: ChunkView, cube: UVec3, isolevel: Scalar)
    requires
        chunk.wf(),
        cube.within(chunk.size),
    ensures
        triangles_face_outward(chunk, isolevel, cube_crossings_spec(chunk, cube, isolevel)),
{
    let config = cube_configuration_spec(chunk, cube, isolevel);
    let crossings = cube_crossings_spec(chunk, cube, isolevel);
    lemma_cube_crossings_in_triples(chunk, cube, isolevel);
    assert forall|t: int| 0 <= t && 3 * t + 2 < crossings.len() implies triangle_faces_outward(
        chunk,
        isolevel,
        #[trigger] crossings[3 * t],
        crossings[3 * t + 1],
        crossings[3 * t + 2],
    ) by {
        lemma_triangles_face_outward(config, t);
        let ea = triangulation(config)[3 * t];
        let eb = triangulation(config)[3 * t + 1];
        let ec = triangulation(config)[3 * t + 2];
        lemma_table_consistency(config, 3 * t);
        lemma_table_consistency(config, 3 * t + 1);
        lemma_table_consistency(config, 3 * t + 2);
        let a = crossings[3 * t];
        let b = crossings[3 * t + 1];
        let c = crossings[3 * t + 2];
        assert(a == edge_crossing(chunk, cube, ea));
        assert(b == edge_crossing(chunk, cube, eb));
        assert(c == edge_crossing(chunk, cube, ec));
        lemma_edge_crossing_in_chunk(chunk, cube, isolevel, ea, 0);
        lemma_edge_crossing_in_chunk(chunk, cube, isolevel, ea, 1);
        lemma_edge_crossing_in_chunk(chunk, cube, isolevel, ea, 2);
        lemma_edge_crossing_in_chunk(chunk, cube, isolevel, eb, 0);
        lemma_edge_crossing_in_chunk(chunk, cube, isolevel, eb, 1);
        lemma_edge_crossing_in_chunk(chunk, cube, isolevel, eb, 2);
        lemma_edge_crossing_in_chunk(chunk, cube, isolevel, ec, 0);
        lemma_edge_crossing_in_chunk(chunk, cube, isolevel, ec, 1);
        lemma_edge_crossing_in_chunk(chunk, cube, isolevel, ec, 2);
        assert(crossing_middle(chunk, b, 0) - crossing_middle(chunk, a, 0) == edge_middle(eb, 0)
            - edge_middle(ea, 0));
        assert(crossing_middle(chunk, b, 1) - crossing_middle(chunk, a, 1) == edge_middle(eb, 1)
            - edge_middle(ea, 1));
        assert(crossing_middle(chunk, b, 2) - crossing_middle(chunk, a, 2) == edge_middle(eb, 2)
            - edge_middle(ea, 2));
        assert(crossing_middle(chunk, c, 0) - crossing_middle(chunk, a, 0) == edge_middle(ec, 0)
            - edge_middle(ea, 0));
        assert(crossing_middle(chunk, c, 1) - crossing_middle(chunk, a, 1) == edge_middle(ec, 1)
            - edge_middle(ea, 1));
        assert(crossing_middle(chunk, c, 2) - crossing_middle(chunk, a, 2) == edge_middle(ec, 2)
            - edge_middle(ea, 2));
        assert(faces_outward(config, ea, eb, ec));
    }
}

/// Every triangle of the first `n` cubes of a chunk faces from the inside
/// of the surface to the outside.
proof fn lemma_triangles_before_face_outward(chunk: ChunkView, isolevel: Scalar, n: nat)
    requires
        chunk.wf(),
        n <= chunk.size.volume(),
    ensures
        triangles_face_outward(chunk, isolevel, crossings_before(chunk, isolevel, n)),
    decreases n,
{
    if n > 0 {
        let before = crossings_before(chunk, isolevel, (n - 1) as nat);
        let cube = lattice_coordinate(n - 1, chunk.size);
        let of_cube = cube_crossings_spec(chunk, cube, isolevel);
        let all = crossings_before(chunk, isolevel, n);
        lemma_triangles_before_face_outward(chunk, isolevel, (n - 1) as nat);
        lemma_crossings_before_separate(chunk, isolevel, (n - 1) as nat);
        lemma_cube_count_fits(chunk);
        lemma_linear_index_of_coordinate(n - 1, chunk.size);
        lemma_cube_triangles_face_outward(chunk, cube, isolevel);
        assert forall|t: int| 0 <= t && 3 * t + 2 < all.len() implies triangle_faces_outward(
            chunk,
            isolevel,
            #[trigger] all[3 * t],
            all[3 * t + 1],
            all[3 * t + 2],
        ) by {
            if 3 * t + 2 < before.len() {
                assert(all[3 * t] == before[3 * t]);
                assert(all[3 * t + 1] == before[3 * t + 1]);
                assert(all[3 * t + 2] == before[3 * t + 2]);
            } else {
                let shift = before.len() / 3;
                assert(before.len() == 3 * shift);
                let u = t - shift;
                assert(all[3 * t] == of_cube[3 * u]);
                assert(all[3 * t + 1] == of_cube[3 * u + 1]);
                assert(all[3 * t + 2] == of_cube[3 * u + 2]);
            }
        }
    }
}

/// Every triangle of a chunk faces from the inside of the surface to the
/// outside: with each vertex at the middle of its edge, the normal of the
/// triangle points to the side to which its edges lead out of the surface.
pub proof fn lemma_chunk_triangles_face_outward(chunk: ChunkView, isolevel: Scalar)
    requires
        chunk.wf(),
    ensures
        triangles_face_outward(chunk, isolevel, chunk_crossings(chunk, isolevel)),
{
    lemma_cube_count_fits(chunk);
    lemma_triangles_before_face_outward(chunk, isolevel, chunk.size.volume() as nat);
}

/// A flat surface: where the points that lie inside the surface are exactly
/// those below the lattice layer `layer`, every vertex lies on an upright
/// lattice edge between the layer under the surface and `layer`.
pub proof fn lemma_flat_plane_crossings(chunk: ChunkView, isolevel: Scalar, layer: int, k: int)
    requires
        chunk.wf(),
        forall|i: int|
            0 <= i < chunk.values.len() ==> ((#[trigger] chunk.values[i]).spec_lt(isolevel) <==> lattice_coordinate(
                i,
                chunk.point_size(),
            ).y < layer),
        0 <= k < chunk_crossings(chunk, isolevel).len(),
    ensures
        ({
            let crossing = chunk_crossings(chunk, isolevel)[k];
            let a = lattice_coordinate(crossing.start as int, chunk.point_size());
            let b = lattice_coordinate(crossing.end as int, chunk.point_size());
            &&& a.x == b.x
            &&& a.z == b.z
            &&& (a.y == layer - 1 && b.y == layer) || (a.y == layer && b.y == layer - 1)
        }),
{
    lemma_chunk_crossings_separate(chunk, isolevel);
    let crossing = chunk_crossings(chunk, isolevel)[k];
    assert(crossing_separates(chunk, isolevel, crossing));
}

impl TerrainChunk {
    /// The flat positions of the eight corners of a cube, in the corner order
    /// of the tables.
    pub fn cube_corners(&self, cube: UVec3) -> (corners: [u32; 8])
        requires
            cube.within(self@.size),
        ensures
            self@.wf(),
            forall|corner: u8|
                corner < CORNER_COUNT ==> #[trigger] corners[corner as int] == cube_corner_index(
                    self@,
                    cube,
                    corner,
                ),
    {
        let point_size = self.point_size();
        let mut corners: [u32; 8] = [0, 0, 0, 0, 0, 0, 0, 0];
        let mut corner: u8 = 0;
        while corner < CORNER_COUNT
            invariant
                corner <= CORNER_COUNT,
                self@.wf(),
                cube.within(self@.size),
                point_size == self@.point_size(),
                forall|done: u8|
                    done < corner ==> #[trigger] corners[done as int] == cube_corner_index(
                        self@,
                        cube,
                        done,
                    ),
            decreases CORNER_COUNT - corner,
        {
            proof {
                lemma_cube_corner_in_chunk(self@, cube, corner);
            }
            let offset = corner_offset(corner);
            let at = UVec3 { x: cube.x + offset.x, y: cube.y + offset.y, z: cube.z + offset.z };
            corners[corner as usize] = from_3D_to_1D_index(at, point_size);
            corner = corner + 1;
        }
        corners
    }

    /// The configuration of the cube whose corners lie at the flat positions `corners`.
    fn classify(&self, corners: &[u32; 8], Ghost(cube): Ghost<UVec3>, isolevel: Scalar) -> (config:
        u8)
        requires
            self@.wf(),
            cube.within(self@.size),
            forall|corner: u8|
                corner < CORNER_COUNT ==> #[trigger] corners[corner as int] == cube_corner_index(
                    self@,
                    cube,
                    corner,
                ),
        ensures
            config == cube_configuration_spec(self@, cube, isolevel),
    {
        proof {
            lemma_cube_corner_in_chunk(self@, cube, 0);
            lemma_cube_corner_in_chunk(self@, cube, 1);
            lemma_cube_corner_in_chunk(self@, cube, 2);
            lemma_cube_corner_in_chunk(self@, cube, 3);
            lemma_cube_corner_in_chunk(self@, cube, 4);
            lemma_cube_corner_in_chunk(self@, cube, 5);
            lemma_cube_corner_in_chunk(self@, cube, 6);
            lemma_cube_corner_in_chunk(self@, cube, 7);
            assert(corners[0] == cube_corner_index(self@, cube, 0u8));
            assert(corners[1] == cube_corner_index(self@, cube, 1u8));
            assert(corners[2] == cube_corner_index(self@, cube, 2u8));
            assert(corners[3] == cube_corner_index(self@, cube, 3u8));
            assert(corners[4] == cube_corner_index(self@, cube, 4u8));
            assert(corners[5] == cube_corner_index(self@, cube, 5u8));
            assert(corners[6] == cube_corner_index(self@, cube, 6u8));
            assert(corners[7] == cube_corner_index(self@, cube, 7u8));
        }
        bit_of(self.point(corners[0]).value.lt(isolevel), 0) | bit_of(
            self.point(corners[1]).value.lt(isolevel),
            1,
        ) | bit_of(self.point(corners[2]).value.lt(isolevel), 2) | bit_of(
            self.point(corners[3]).value.lt(isolevel),
            3,
        ) | bit_of(self.point(corners[4]).value.lt(isolevel), 4) | bit_of(
            self.point(corners[5]).value.lt(isolevel),
            5,
        ) | bit_of(self.point(corners[6]).value.lt(isolevel), 6) | bit_of(
            self.point(corners[7]).value.lt(isolevel),
            7,
        )
    }

    /// The cube classifier: the configuration of a cube, whose bit `i` is set
    /// exactly when the value at corner `i` is less than the isolevel.
    pub fn cube_configuration(&self, cube: UVec3, isolevel: Scalar) -> (config: u8)
        requires
            cube.within(self@.size),
        ensures
            config == cube_configuration_spec(self@, cube, isolevel),
            forall|corner: u8|
                corner < CORNER_COUNT ==> (#[trigger] corner_inside(config, corner)
                    <==> cube_corner_inside(self@, cube, corner, isolevel)),
    {
        let corners = self.cube_corners(cube);
        let config = self.classify(&corners, Ghost(cube), isolevel);
        proof {
            assert forall|corner: u8| corner < CORNER_COUNT implies (#[trigger] corner_inside(
                config,
                corner,
            ) <==> cube_corner_inside(self@, cube, corner, isolevel)) by {
                lemma_configuration_marks_inside_corners(self@, cube, isolevel, corner);
            }
        }
        config
    }

    /// The triangulator for one cube: the vertices of the cube's triangles,
    /// three for each triangle in the order of the triangulation table, each
    /// given as the lattice edge on which it lies.
    pub fn cube_crossings(&self, cube: UVec3, isolevel: Scalar) -> (crossings: Vec<EdgeCrossing>)
        requires
            cube.within(self@.size),
        ensures
            crossings@ == cube_crossings_spec(self@, cube, isolevel),
            crossings@.len() % 3 == 0,
            crossings@.len() <= 15,
            forall|k: int|
                0 <= k < crossings@.len() ==> crossing_separates(
                    self@,
                    isolevel,
                    #[trigger] crossings@[k],
                ),
            triangles_face_outward(self@, isolevel, crossings@),
    {
        let corners = self.cube_corners(cube);
        let config = self.classify(&corners, Ghost(cube), isolevel);
        let edges = triangulation_edges(config);
        let mut crossings: Vec<EdgeCrossing> = Vec::with_capacity(edges.len());
        let mut k: usize = 0;
        while k < edges.len()
            invariant
                k <= edges@.len(),
                self@.wf(),
                cube.within(self@.size),
                edges@ == triangulation(config),
                forall|corner: u8|
                    corner < CORNER_COUNT ==> #[trigger] corners[corner as int]
                        == cube_corner_index(self@, cube, corner),
                crossings@.len() == k,
                forall|j: int|
                    0 <= j < k ==> #[trigger] crossings@[j] == edge_crossing(
                        self@,
                        cube,
                        edges@[j],
                    ),
            decreases edges@.len() - k,
        {
            let edge = edges[k];
            proof {
                lemma_table_consistency(config, k as int);
            }
            let (start, end) = edge_vertices(edge);
            proof {
                lemma_cube_corner_in_chunk(self@, cube, start);
                lemma_cube_corner_in_chunk(self@, cube, end);
            }
            crossings.push(EdgeCrossing { start: corners[start as usize], end: corners[end as usize] });
            k = k + 1;
        }
        proof {
            assert(crossings@ =~= cube_crossings_spec(self@, cube, isolevel));
            lemma_cube_crossings_in_triples(self@, cube, isolevel);
            assert forall|k: int| 0 <= k < crossings@.len() implies crossing_separates(
                self@,
                isolevel,
                #[trigger] crossings@[k],
            ) by {
                lemma_cube_crossing_separates(self@, cube, isolevel, k);
            }
            lemma_cube_triangles_face_outward(self@, cube, isolevel);
        }
        crossings
    }

    /// Number of cubes of the chunk.
    pub fn cube_count(&self) -> (count: u32)
        ensures
            count == self@.size.volume(),
            self@.wf(),
    {
        let size = self.size();
        proof {
            let sx = size.x as int;
            let sy = size.y as int;
            let sz = size.z as int;
            assert(0 <= sx * sy <= (sx + 1) * (sy + 1) && 0 <= sx * sy * sz <= (sx + 1) * (sy + 1) * (sz
                + 1) && (sx + 1) * (sy + 1) <= (sx + 1) * (sy + 1) * (sz + 1)) by (nonlinear_arith)
                requires
                    0 <= sx,
                    0 <= sy,
                    0 <= sz,
            ;
        }
        size.x * size.y * size.z
    }

    /// The triangulator in per-cube mode: for each cube of the chunk, x fastest,
    /// then y, then z, the vertices of its own triangles, which share nothing
    /// with those of the other cubes.
    pub fn crossings_per_cube(&self, isolevel: Scalar) -> (faces: Vec<Vec<EdgeCrossing>>)
        ensures
            faces@.len() == self@.size.volume(),
            forall|n: int|
                0 <= n < faces@.len() ==> (#[trigger] faces@[n])@ == cube_crossings_spec(
                    self@,
                    lattice_coordinate(n, self@.size),
                    isolevel,
                ),
    {
        let size = self.size();
        let count = self.cube_count();
        let mut faces: Vec<Vec<EdgeCrossing>> = Vec::with_capacity(count as usize);
        let mut n: u32 = 0;
        while n < count
            invariant
                n <= count,
                self@.wf(),
                size == self@.size,
                count == self@.size.volume(),
                faces@.len() == n,
                forall|done: int|
                    0 <= done < n ==> (#[trigger] faces@[done])@ == cube_crossings_spec(
                        self@,
                        lattice_coordinate(done, self@.size),
                        isolevel,
                    ),
            decreases count - n,
        {
            proof {
                lemma_linear_index_of_coordinate(n as int, size);
            }
            let cube = from_1D_to_3D_index(n, size);
            faces.push(self.cube_crossings(cube, isolevel));
            n = n + 1;
        }
        faces
    }

    /// The edge interpolator's guard: whether the values at the two ends of a
    /// vertex's edge are the same, so that the vertex is to be put at the
    /// first end, with no division. For a vertex that the triangulator gave
    /// for the values that the chunk holds, the values differ.
    pub fn crossing_is_degenerate(&self, crossing: EdgeCrossing) -> (degenerate: bool)
        requires
            crossing.start < self@.values.len(),
            crossing.end < self@.values.len(),
        ensures
            degenerate == self@.values[crossing.start as int].spec_same(
                self@.values[crossing.end as int],
            ),
            forall|isolevel: Scalar|
                crossing_separates(self@, isolevel, crossing) ==> !degenerate,
    {
        self.point(crossing.start).value.same(self.point(crossing.end).value)
    }

    /// The triangulator for the whole chunk: the vertices of all triangles,
    /// cube after cube with x fastest, then y, then z, three for each
    /// triangle, each given as the lattice edge on which it lies.
    pub fn crossings(&self, isolevel: Scalar) -> (crossings: Vec<EdgeCrossing>)
        ensures
            crossings@ == chunk_crossings(self@, isolevel),
            crossings@.len() % 3 == 0,
            forall|k: int|
                0 <= k < crossings@.len() ==> crossing_separates(
                    self@,
                    isolevel,
                    #[trigger] crossings@[k],
                ),
            triangles_face_outward(self@, isolevel, crossings@),
    {
        let size = self.size();
        let count = self.cube_count();
        let mut crossings: Vec<EdgeCrossing> = Vec::new();
        let mut n: u32 = 0;
        while n < count
            invariant
                n <= count,
                self@.wf(),
                size == self@.size,
                count == self@.size.volume(),
                crossings@ == crossings_before(self@, isolevel, n as nat),
            decreases count - n,
        {
            proof {
                lemma_linear_index_of_coordinate(n as int, size);
            }
            let cube = from_1D_to_3D_index(n, size);
            let mut of_cube = self.cube_crossings(cube, isolevel);
            crossings.append(&mut of_cube);
            n = n + 1;
        }
        proof {
            lemma_chunk_crossings_separate(self@, isolevel);
            lemma_chunk_triangles_face_outward(self@, isolevel);
        }
        crossings
    }
}

/// One bit of a configuration: `1 << corner` when the corner is inside.
fn bit_of(inside: bool, corner: u8) -> (bit: u8)
    requires
        corner < CORNER_COUNT,
    ensures
        bit == corner_bit(inside, corner),
{
    if inside {
        1u8 << corner
    } else {
        0u8
    }
}

/// For three upright edges that all lead outwards upwards, the triple
/// product is twelve times the area that the triangle of their columns
/// spans, taken with its sign.
proof fn lemma_upright_triple_product(
    ux: int,
    uy: int,
    uz: int,
    vx: int,
    vy: int,
    vz: int,
    wx: int,
    wy: int,
    wz: int,
    bx: int,
    bz: int,
    cx: int,
    cz: int,
)
    by (nonlinear_arith)
    requires
        ux == 2 * bx,
        uz == 2 * bz,
        vx == 2 * cx,
        vz == 2 * cz,
        wx == 0,
        wy == 3,
        wz == 0,
        (uy * vz - uz * vy) * wx + (uz * vx - ux * vz) * wy + (ux * vy - uy * vx) * wz > 0,
    ensures
        bz * cx - bx * cz > 0,
{
}

/// A flat surface: where the points that lie inside the surface are exactly
/// those below the lattice layer `layer`, all triangles wind the same way:
/// the cross product of the steps from the first vertex of a triangle to
/// its second and to its third, taken between the columns in which the
/// vertices lie, points upwards. So does the normal of every triangle,
/// wherever on their upright edges the vertices lie.
pub proof fn lemma_flat_plane_winding(chunk: ChunkView, isolevel: Scalar, layer: int, t: int)
    requires
        chunk.wf(),
        forall|i: int|
            0 <= i < chunk.values.len() ==> ((#[trigger] chunk.values[i]).spec_lt(isolevel) <==> lattice_coordinate(
                i,
                chunk.point_size(),
            ).y < layer),
        0 <= t,
        3 * t + 2 < chunk_crossings(chunk, isolevel).len(),
    ensures
        ({
            let crossings = chunk_crossings(chunk, isolevel);
            let a = lattice_coordinate(crossings[3 * t].start as int, chunk.point_size());
            let b = lattice_coordinate(crossings[3 * t + 1].start as int, chunk.point_size());
            let c = lattice_coordinate(crossings[3 * t + 2].start as int, chunk.point_size());
            (b.z - a.z) * (c.x - a.x) - (b.x - a.x) * (c.z - a.z) > 0
        }),
{
    let crossings = chunk_crossings(chunk, isolevel);
    let ca = crossings[3 * t];
    let cb = crossings[3 * t + 1];
    let cc = crossings[3 * t + 2];
    lemma_chunk_triangles_face_outward(chunk, isolevel);
    assert(triangle_faces_outward(chunk, isolevel, ca, cb, cc));
    lemma_chunk_crossings_separate(chunk, isolevel);
    lemma_flat_plane_crossings(chunk, isolevel, layer, 3 * t);
    lemma_flat_plane_crossings(chunk, isolevel, layer, 3 * t + 1);
    lemma_flat_plane_crossings(chunk, isolevel, layer, 3 * t + 2);
    assert(crossing_separates(chunk, isolevel, ca));
    assert(crossing_separates(chunk, isolevel, cb));
    assert(crossing_separates(chunk, isolevel, cc));
    let a = lattice_coordinate(ca.start as int, chunk.point_size());
    let b = lattice_coordinate(cb.start as int, chunk.point_size());
    let c = lattice_coordinate(cc.start as int, chunk.point_size());
    lemma_upright_triple_product(
        crossing_middle(chunk, cb, 0) - crossing_middle(chunk, ca, 0),
        crossing_middle(chunk, cb, 1) - crossing_middle(chunk, ca, 1),
        crossing_middle(chunk, cb, 2) - crossing_middle(chunk, ca, 2),
        crossing_middle(chunk, cc, 0) - crossing_middle(chunk, ca, 0),
        crossing_middle(chunk, cc, 1) - crossing_middle(chunk, ca, 1),
        crossing_middle(chunk, cc, 2) - crossing_middle(chunk, ca, 2),
        crossing_outward(chunk, isolevel, ca, 0) + crossing_outward(chunk, isolevel, cb, 0)
            + crossing_outward(chunk, isolevel, cc, 0),
        crossing_outward(chunk, isolevel, ca, 1) + crossing_outward(chunk, isolevel, cb, 1)
            + crossing_outward(chunk, isolevel, cc, 1),
        crossing_outward(chunk, isolevel, ca, 2) + crossing_outward(chunk, isolevel, cb, 2)
            + crossing_outward(chunk, isolevel, cc, 2),
        b.x - a.x,
        b.z - a.z,
        c.x - a.x,
        c.z - a.z,
    );
}

} // verus!
