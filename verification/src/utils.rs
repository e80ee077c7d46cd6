//! Index arithmetic of a flat, x-fastest lattice.

use vstd::arithmetic::div_mod::{
    lemma_div_denominator,
    lemma_fundamental_div_mod,
    lemma_fundamental_div_mod_converse,
};
use vstd::prelude::*;

verus! {

/// Three unsigned components: a lattice coordinate, or an extent per axis.
#[derive(Clone, Copy, Debug, PartialEq, Eq, Structural)]
pub struct UVec3 {
    pub x: u32,
    pub y: u32,
    pub z: u32,
}

impl UVec3 {
    pub fn new(x: u32, y: u32, z: u32) -> (v: UVec3)
        ensures
            v == (UVec3 { x, y, z }),
    {
        UVec3 { x, y, z }
    }

    /// Number of lattice cells in a box of this extent.
    pub open spec fn volume(self) -> int {
        self.x * self.y * self.z
    }

    /// Every component of `self` lies below the matching component of `dimensions`.
    pub open spec fn within(self, dimensions: UVec3) -> bool {
        self.x < dimensions.x && self.y < dimensions.y && self.z < dimensions.z
    }
}

/// Position of the lattice coordinate `idx` in a flat array that stores a
/// lattice of extent `dimensions` with x fastest, then y, then z.
pub open spec fn linear_index(idx: UVec3, dimensions: UVec3) -> int {
    idx.x + idx.y * dimensions.x + idx.z * dimensions.x * dimensions.y
}

/// The lattice coordinate stored at position `n` of the flat array: the
/// inverse of `linear_index`.
pub open spec fn lattice_coordinate(n: int, dimensions: UVec3) -> UVec3 {
    UVec3 {
        x: (n % dimensions.x as int) as u32,
        y: ((n / dimensions.x as int) % dimensions.y as int) as u32,
        z: (n / (dimensions.x * dimensions.y)) as u32,
    }
}

/// The lattice coordinate stored at position `idx` of the flat array.
#[allow(non_snake_case)]
pub fn from_1D_to_3D_index(idx: u32, dimensions: UVec3) -> (r: UVec3)
    requires
        dimensions.x > 0,
        dimensions.y > 0,
    ensures
        r == lattice_coordinate(idx as int, dimensions),
        r.x == idx % dimensions.x,
        r.y == (idx / dimensions.x) % dimensions.y,
        r.z == idx as int / (dimensions.x * dimensions.y),
{
    let x = idx % dimensions.x;
    let y = (idx / dimensions.x) % dimensions.y;
    proof {
        assert(0 < dimensions.x * dimensions.y <= 0xffff_ffff * 0xffff_ffff) by (nonlinear_arith)
            requires
                0 < dimensions.x <= 0xffff_ffff,
                0 < dimensions.y <= 0xffff_ffff,
        ;
    }
    let plane: u64 = dimensions.x as u64 * dimensions.y as u64;
    let z = idx as u64 / plane;
    proof {
        assert(idx as int / plane as int <= idx) by (nonlinear_arith)
            requires
                plane > 0,
                idx >= 0,
        ;
    }
    UVec3 { x, y, z: z as u32 }
}

/// The flat position of the lattice coordinate `idx`.
#[allow(non_snake_case)]
pub fn from_3D_to_1D_index(idx: UVec3, dimensions: UVec3) -> (r: u32)
    requires
        linear_index(idx, dimensions) <= u32::MAX,
    ensures
        r == linear_index(idx, dimensions),
{
    proof {
        assert(idx.y * dimensions.x <= 0xffff_ffff * 0xffff_ffff) by (nonlinear_arith)
            requires
                0 <= idx.y <= 0xffff_ffff,
                0 <= dimensions.x <= 0xffff_ffff,
        ;
        assert(dimensions.x * dimensions.y <= 0xffff_ffff * 0xffff_ffff) by (nonlinear_arith)
            requires
                0 <= dimensions.x <= 0xffff_ffff,
                0 <= dimensions.y <= 0xffff_ffff,
        ;
        assert(idx.y * dimensions.x >= 0) by (nonlinear_arith)
            requires
                0 <= idx.y,
                0 <= dimensions.x,
        ;
        assert(idx.z * dimensions.x * dimensions.y == idx.z * (dimensions.x * dimensions.y))
            by (nonlinear_arith);
        assert(idx.z * (dimensions.x * dimensions.y) >= 0) by (nonlinear_arith)
            requires
                0 <= idx.z,
                0 <= dimensions.x,
                0 <= dimensions.y,
        ;
    }
    let row: u64 = idx.y as u64 * dimensions.x as u64;
    let plane: u64 = dimensions.x as u64 * dimensions.y as u64;
    if idx.z == 0 {
        proof {
            assert(idx.z * (dimensions.x * dimensions.y) == 0) by (nonlinear_arith)
                requires
                    idx.z == 0,
            ;
        }
        (idx.x as u64 + row) as u32
    } else {
        proof {
            assert(dimensions.x * dimensions.y <= idx.z * (dimensions.x * dimensions.y))
                by (nonlinear_arith)
                requires
                    1 <= idx.z,
                    0 <= dimensions.x * dimensions.y,
            ;
        }
        (idx.x as u64 + row + idx.z as u64 * plane) as u32
    }
}

/// A coordinate inside the lattice has a flat position inside the array.
pub proof fn lemma_linear_index_bound(idx: UVec3, dimensions: UVec3)
    requires
        idx.within(dimensions),
    ensures
        0 <= linear_index(idx, dimensions) < dimensions.volume(),
{
    let dx = dimensions.x as int;
    let dy = dimensions.y as int;
    let dz = dimensions.z as int;
    let x = idx.x as int;
    let y = idx.y as int;
    let z = idx.z as int;
    assert(0 <= x + y * dx + z * dx * dy < dx * dy * dz) by (nonlinear_arith)
        requires
            0 <= x < dx,
            0 <= y < dy,
            0 <= z < dz,
    ;
}

/// Going from a coordinate to its flat position and back gives the
/// coordinate again.
pub proof fn lemma_coordinate_of_linear_index(idx: UVec3, dimensions: UVec3)
    requires
        idx.x < dimensions.x,
        idx.y < dimensions.y,
    ensures
        lattice_coordinate(linear_index(idx, dimensions), dimensions) == idx,
{
    let dx = dimensions.x as int;
    let dy = dimensions.y as int;
    let x = idx.x as int;
    let y = idx.y as int;
    let z = idx.z as int;
    let n = linear_index(idx, dimensions);
    assert(n == (y + z * dy) * dx + x) by (nonlinear_arith)
        requires
            n == x + y * dx + z * dx * dy,
    ;
    lemma_fundamental_div_mod_converse(n, dx, y + z * dy, x);
    lemma_fundamental_div_mod_converse(y + z * dy, dy, z, y);
    assert(0 <= n) by (nonlinear_arith)
        requires
            n == x + y * dx + z * dx * dy,
            0 <= x,
            0 <= y,
            0 <= z,
            0 <= dx,
            0 <= dy,
    ;
    lemma_div_denominator(n, dx, dy);
}

/// Going from a flat position to its coordinate and back gives the position
/// again; the coordinate lies inside the lattice when the position lies
/// inside the array.
pub proof fn lemma_linear_index_of_coordinate(n: int, dimensions: UVec3)
    requires
        0 <= n <= u32::MAX,
        dimensions.x > 0,
        dimensions.y > 0,
    ensures
        linear_index(lattice_coordinate(n, dimensions), dimensions) == n,
        lattice_coordinate(n, dimensions).x < dimensions.x,
        lattice_coordinate(n, dimensions).y < dimensions.y,
        n < dimensions.volume() ==> lattice_coordinate(n, dimensions).within(dimensions),
{
    let dx = dimensions.x as int;
    let dy = dimensions.y as int;
    let dz = dimensions.z as int;
    let q = n / dx;
    let x = n % dx;
    let y = q % dy;
    let z = q / dy;
    lemma_fundamental_div_mod(n, dx);
    lemma_fundamental_div_mod(q, dy);
    lemma_div_denominator(n, dx, dy);
    assert(0 <= q <= n) by (nonlinear_arith)
        requires
            n == dx * q + x,
            0 <= x < dx,
            0 <= n,
    ;
    assert(0 <= z <= q) by (nonlinear_arith)
        requires
            q == dy * z + y,
            0 <= y < dy,
            0 <= q,
    ;
    assert(n == x + y * dx + z * dx * dy) by (nonlinear_arith)
        requires
            n == dx * q + x,
            q == dy * z + y,
    ;
    if n < dimensions.volume() {
        assert(z < dz) by (nonlinear_arith)
            requires
                n == x + y * dx + z * dx * dy,
                n < dx * dy * dz,
                0 <= x,
                0 <= y,
                0 < dx,
                0 < dy,
        ;
    }
}

} // verus!
