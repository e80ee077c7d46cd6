//! The mesh assembler: welds the vertices of a chunk's triangles, so that
//! triangles share a vertex wherever their corners have the same position.
//!
//! Positions are compared numerically: a position with a component that is
//! not a number equals no position, not even itself, and is never shared.

use crate::scalar::Vec3;
use vstd::prelude::*;

verus! {

/// Where `position` is found among `vertices`: the least index of a vertex
/// with the same position, or the number of vertices if there is none.
pub open spec fn find_vertex(vertices: Seq<Vec3>, position: Vec3) -> int
    decreases vertices.len(),
{
    if vertices.len() == 0 {
        0
    } else {
        let before = find_vertex(vertices.drop_last(), position);
        if before < vertices.len() - 1 {
            before
        } else if vertices.last().spec_same(position) {
            vertices.len() - 1
        } else {
            vertices.len() as int
        }
    }
}

/// The vertices that welding leaves of `positions`: each position once, in
/// the order in which the positions first occur.
pub open spec fn welded_vertices(positions: Seq<Vec3>) -> Seq<Vec3>
    decreases positions.len(),
{
    if positions.len() == 0 {
        Seq::empty()
    } else {
        let before = welded_vertices(positions.drop_last());
        if find_vertex(before, positions.last()) < before.len() {
            before
        } else {
            before.push(positions.last())
        }
    }
}

/// For each of `positions`, the index of its vertex among the welded
/// vertices.
pub open spec fn welded_indices(positions: Seq<Vec3>) -> Seq<int>
    decreases positions.len(),
{
    if positions.len() == 0 {
        Seq::empty()
    } else {
        welded_indices(positions.drop_last()).push(
            find_vertex(welded_vertices(positions.drop_last()), positions.last()),
        )
    }
}

/// A triangle mesh in shared-vertex mode.
#[derive(Debug)]
pub struct Mesh {
    /// The positions of the vertices.
    pub vertices: Vec<Vec3>,
    /// For every corner of every triangle the index of its vertex: each run
    /// of three is one triangle.
    pub indices: Vec<usize>,
}

impl Mesh {
    /// Every index names a vertex, and the indices come in triples.
    pub open spec fn wf(self) -> bool {
        &&& self.indices@.len() % 3 == 0
        &&& forall|i: int| 0 <= i < self.indices@.len() ==> #[trigger] self.indices@[i] < self.vertices@.len()
    }

    /// Number of triangles.
    pub fn triangle_count(&self) -> (count: usize)
        ensures
            count == self.indices@.len() / 3,
    {
        self.indices.len() / 3
    }

    /// Whether every index names a vertex, and the indices come in triples.
    pub fn is_wf(&self) -> (wf: bool)
        ensures
            wf == self.wf(),
    {
        if self.indices.len() % 3 != 0 {
            return false;
        }
        let mut i: usize = 0;
        while i < self.indices.len()
            invariant
                i <= self.indices@.len(),
                forall|k: int| 0 <= k < i ==> #[trigger] self.indices@[k] < self.vertices@.len(),
            decreases self.indices@.len() - i,
        {
            if self.indices[i] >= self.vertices.len() {
                return false;
            }
            i = i + 1;
        }
        true
    }

    /// The indices of the three vertices of triangle `t`.
    pub fn triangle(&self, t: usize) -> (corners: (usize, usize, usize))
        requires
            self.wf(),
            t < self.indices@.len() / 3,
        ensures
            corners.0 == self.indices@[3 * t],
            corners.1 == self.indices@[3 * t + 1],
            corners.2 == self.indices@[3 * t + 2],
            corners.0 < self.vertices@.len(),
            corners.1 < self.vertices@.len(),
            corners.2 < self.vertices@.len(),
    {
        let len = self.indices.len();
        assert(3 * t + 2 < len);
        (self.indices[3 * t], self.indices[3 * t + 1], self.indices[3 * t + 2])
    }
}

/// `find_vertex` gives the first vertex with the same position.
pub proof fn lemma_find_vertex(vertices: Seq<Vec3>, position: Vec3)
    ensures
        0 <= find_vertex(vertices, position) <= vertices.len(),
        find_vertex(vertices, position) < vertices.len() ==> vertices[find_vertex(
            vertices,
            position,
        )].spec_same(position),
        forall|j: int|
            0 <= j < find_vertex(vertices, position) ==> !(#[trigger] vertices[j]).spec_same(position),
    decreases vertices.len(),
{
    if vertices.len() > 0 {
        lemma_find_vertex(vertices.drop_last(), position);
        assert forall|j: int| 0 <= j < find_vertex(vertices, position) implies !(
        #[trigger] vertices[j]).spec_same(position) by {
            if j < vertices.len() - 1 {
                assert(vertices.drop_last()[j] == vertices[j]);
            }
        }
    }
}

/// Where `position` is found among `vertices`: the least index of a vertex
/// with the same position, or the number of vertices if there is none.
pub fn position_of(vertices: &Vec<Vec3>, position: Vec3) -> (at: usize)
    ensures
        at == find_vertex(vertices@, position),
{
    let mut j: usize = 0;
    while j < vertices.len()
        invariant
            j <= vertices@.len(),
            find_vertex(vertices@.take(j as int), position) == j,
        decreases vertices@.len() - j,
    {
        proof {
            assert(vertices@.take(j + 1).drop_last() =~= vertices@.take(j as int));
        }
        if vertices[j].same(position) {
            proof {
                lemma_find_extends(vertices@, position, j as int + 1);
            }
            return j;
        }
        j = j + 1;
    }
    proof {
        assert(vertices@.take(j as int) =~= vertices@);
    }
    j
}

/// A position found among the first vertices is found at the same place
/// among all of them.
proof fn lemma_find_extends(vertices: Seq<Vec3>, position: Vec3, n: int)
    requires
        0 <= n <= vertices.len(),
        find_vertex(vertices.take(n), position) < n,
    ensures
        find_vertex(vertices, position) == find_vertex(vertices.take(n), position),
    decreases vertices.len() - n,
{
    if n < vertices.len() {
        assert(vertices.take(n + 1).drop_last() =~= vertices.take(n));
        lemma_find_extends(vertices, position, n + 1);
    } else {
        assert(vertices.take(n) =~= vertices);
    }
}

/// The mesh assembler in shared-vertex mode. `positions` holds the position
/// of each vertex of each triangle, three for each triangle; the mesh holds
/// each position once, in the order of first occurrence, and for every one
/// of `positions` the index at which the mesh holds it.
pub fn weld_vertices(positions: &Vec<Vec3>) -> (mesh: Mesh)
    ensures
        mesh.vertices@ == welded_vertices(positions@),
        mesh.indices@.len() == positions@.len(),
        forall|i: int|
            0 <= i < positions@.len() ==> #[trigger] mesh.indices@[i] == welded_indices(positions@)[i],
        positions@.len() % 3 == 0 ==> mesh.wf(),
{
    let mut vertices: Vec<Vec3> = Vec::new();
    let mut indices: Vec<usize> = Vec::with_capacity(positions.len());
    let mut i: usize = 0;
    while i < positions.len()
        invariant
            i <= positions@.len(),
            vertices@ == welded_vertices(positions@.take(i as int)),
            indices@.len() == i,
            welded_indices(positions@.take(i as int)).len() == i,
            forall|k: int|
                0 <= k < i ==> #[trigger] indices@[k] == welded_indices(positions@.take(i as int))[k],
        decreases positions@.len() - i,
    {
        proof {
            assert(positions@.take(i + 1).drop_last() =~= positions@.take(i as int));
        }
        let position = positions[i];
        let at = position_of(&vertices, position);
        if at == vertices.len() {
            vertices.push(position);
        }
        indices.push(at);
        i = i + 1;
    }
    proof {
        assert(positions@.take(i as int) =~= positions@);
        lemma_welded_indices_in_range(positions@);
    }
    Mesh { vertices, indices }
}

/// Welding gives one index for each position, and every index names a vertex.
pub proof fn lemma_welded_indices_in_range(positions: Seq<Vec3>)
    ensures
        welded_indices(positions).len() == positions.len(),
        welded_vertices(positions).len() <= positions.len(),
        forall|i: int|
            0 <= i < positions.len() ==> 0 <= #[trigger] welded_indices(positions)[i]
                < welded_vertices(positions).len(),
    decreases positions.len(),
{
    if positions.len() > 0 {
        let before = positions.drop_last();
        lemma_welded_indices_in_range(before);
        lemma_find_vertex(welded_vertices(before), positions.last());
        lemma_welded_vertices_grow(positions, positions.len() - 1);
    }
}

/// The vertices welded of the first `n` positions stay, at their places,
/// among the vertices welded of all positions; so do the indices.
pub proof fn lemma_welded_vertices_grow(positions: Seq<Vec3>, n: int)
    requires
        0 <= n <= positions.len(),
    ensures
        welded_vertices(positions.take(n)).len() <= welded_vertices(positions).len(),
        forall|j: int|
            0 <= j < welded_vertices(positions.take(n)).len() ==> #[trigger] welded_vertices(
                positions,
            )[j] == welded_vertices(positions.take(n))[j],
        welded_indices(positions.take(n)).len() == n,
        welded_indices(positions).len() == positions.len(),
        forall|i: int|
            0 <= i < n ==> #[trigger] welded_indices(positions)[i] == welded_indices(
                positions.take(n),
            )[i],
    decreases positions.len() - n,
{
    if n < positions.len() {
        assert(positions.take(n + 1).drop_last() =~= positions.take(n));
        lemma_welded_vertices_grow(positions, n + 1);
        lemma_welded_length(positions.take(n));
    } else {
        assert(positions.take(n) =~= positions);
        lemma_welded_length(positions);
    }
}

/// The vertex that the index of a position names holds that position: it
/// is the position itself or numerically the same, and it is the first such
/// vertex.
pub proof fn lemma_welded_index_names_position(positions: Seq<Vec3>, i: int)
    requires
        0 <= i < positions.len(),
    ensures
        ({
            let at = welded_indices(positions)[i];
            let vertices = welded_vertices(positions);
            &&& 0 <= at < vertices.len()
            &&& vertices[at] == positions[i] || vertices[at].spec_same(positions[i])
            &&& forall|j: int| 0 <= j < at ==> !(#[trigger] vertices[j]).spec_same(positions[i])
        }),
{
    let sooner = welded_vertices(positions.take(i));
    let at = find_vertex(sooner, positions[i]);
    assert(positions.take(i + 1).drop_last() =~= positions.take(i));
    assert(positions.take(i + 1).last() == positions[i]);
    lemma_find_vertex(sooner, positions[i]);
    lemma_welded_vertices_grow(positions, i);
    lemma_welded_vertices_grow(positions, i + 1);
    lemma_welded_length(positions.take(i));
    assert(welded_indices(positions.take(i + 1))[i] == at);
    assert(welded_indices(positions)[i] == at);
    if at == sooner.len() {
        assert(welded_vertices(positions.take(i + 1)) == sooner.push(positions[i]));
        assert(welded_vertices(positions)[at] == welded_vertices(positions.take(i + 1))[at]);
    } else {
        assert(welded_vertices(positions)[at] == sooner[at]);
    }
    assert forall|j: int| 0 <= j < at implies !(#[trigger] welded_vertices(positions)[j]).spec_same(
        positions[i],
    ) by {
        assert(welded_vertices(positions)[j] == sooner[j]);
    }
}

/// No two welded vertices have the same position.
pub proof fn lemma_welded_vertices_distinct(positions: Seq<Vec3>, a: int, b: int)
    requires
        0 <= a < b < welded_vertices(positions).len(),
    ensures
        !welded_vertices(positions)[a].spec_same(welded_vertices(positions)[b]),
        !welded_vertices(positions)[b].spec_same(welded_vertices(positions)[a]),
    decreases positions.len(),
{
    if positions.len() > 0 {
        let before = welded_vertices(positions.drop_last());
        lemma_find_vertex(before, positions.last());
        if b < before.len() {
            lemma_welded_vertices_distinct(positions.drop_last(), a, b);
        }
    }
}

/// Every welded vertex is the position of some corner whose index names it.
pub proof fn lemma_welded_vertex_is_used(positions: Seq<Vec3>, v: int) -> (i: int)
    requires
        0 <= v < welded_vertices(positions).len(),
    ensures
        0 <= i < positions.len(),
        welded_indices(positions)[i] == v,
        positions[i] == welded_vertices(positions)[v],
    decreases positions.len(),
{
    let before = welded_vertices(positions.drop_last());
    lemma_welded_length(positions.drop_last());
    lemma_find_vertex(before, positions.last());
    if v < before.len() {
        let i = lemma_welded_vertex_is_used(positions.drop_last(), v);
        assert(positions.drop_last()[i] == positions[i]);
        i
    } else {
        positions.len() - 1
    }
}

/// Welding is idempotent: welding the welded vertices again leaves them as
/// they are, each at its own index.
pub proof fn lemma_weld_idempotent(positions: Seq<Vec3>)
    ensures
        welded_vertices(welded_vertices(positions)) == welded_vertices(positions),
        welded_indices(welded_vertices(positions)) == Seq::new(
            welded_vertices(positions).len(),
            |v: int| v,
        ),
{
    let vertices = welded_vertices(positions);
    assert forall|a: int, b: int| 0 <= a < b < vertices.len() implies !(#[trigger] vertices[a]).spec_same(
        #[trigger] vertices[b],
    ) by {
        lemma_welded_vertices_distinct(positions, a, b);
    }
    lemma_weld_of_distinct(vertices, vertices.len() as int);
    assert(vertices.take(vertices.len() as int) =~= vertices);
}

/// Welding positions of which no two are the same leaves them as they are.
proof fn lemma_weld_of_distinct(vertices: Seq<Vec3>, n: int)
    requires
        0 <= n <= vertices.len(),
        forall|a: int, b: int|
            0 <= a < b < vertices.len() ==> !(#[trigger] vertices[a]).spec_same(
                #[trigger] vertices[b],
            ),
    ensures
        welded_vertices(vertices.take(n)) == vertices.take(n),
        welded_indices(vertices.take(n)) == Seq::new(n as nat, |v: int| v),
    decreases n,
{
    if n > 0 {
        lemma_weld_of_distinct(vertices, n - 1);
        let before = vertices.take(n - 1);
        assert(vertices.take(n).drop_last() =~= before);
        assert(vertices.take(n).last() == vertices[n - 1]);
        lemma_find_vertex(before, vertices[n - 1]);
        if find_vertex(before, vertices[n - 1]) < before.len() {
            let j = find_vertex(before, vertices[n - 1]);
            assert(before[j] == vertices[j]);
            assert(!vertices[j].spec_same(vertices[n - 1]));
        }
        assert(welded_vertices(vertices.take(n)) =~= vertices.take(n));
        assert(welded_indices(vertices.take(n)) =~= Seq::new(n as nat, |v: int| v));
    } else {
        assert(vertices.take(0) =~= Seq::<Vec3>::empty());
        assert(welded_indices(vertices.take(n)) =~= Seq::new(n as nat, |v: int| v));
    }
}

proof fn lemma_welded_length(positions: Seq<Vec3>)
    ensures
        welded_indices(positions).len() == positions.len(),
    decreases positions.len(),
{
    if positions.len() > 0 {
        lemma_welded_length(positions.drop_last());
    }
}

} // verus!
