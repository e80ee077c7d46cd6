//! Terrain generation: the configuration, the lattice, the tables and the
//! meshing passes.

pub mod chunk;
pub mod cubes;
pub mod mesh;
pub mod scheduler;
pub mod tables;

use crate::generation::scheduler::Trigger;
use crate::scalar::{Scalar, ONE_BITS, ZERO_BITS};
use crate::utils::UVec3;
use vstd::prelude::*;
use vstd::std_specs::cmp::PartialEqSpecImpl;

verus! {

/// The least cube edge length that the configuration panel offers: the bit
/// pattern of 0.1.
pub const MIN_EDGE_LENGTH_BITS: u32 = 0x3DCC_CCCD;

/// The greatest cube edge length that the configuration panel offers: the
/// bit pattern of 10.
pub const MAX_EDGE_LENGTH_BITS: u32 = 0x4120_0000;

/// What a generation pass is run with. A pass treats it as fixed.
#[derive(Clone, Copy, Debug)]
pub struct TerrainGeneratorConfig {
    /// Number of chunks along each axis.
    pub chunks_amount: UVec3,
    /// Number of cubes of a chunk along each axis.
    pub chunk_size: UVec3,
    /// Length of a cube's edge in world space.
    pub cube_edge_length: Scalar,
    /// The density that separates inside from outside: a point is inside
    /// where its density is less.
    pub isolevel: Scalar,
    /// Whether the debug overlays are drawn.
    pub show_gizmos: bool,
}

/// An extent that a pass can be run with: at least one.
pub open spec fn clamped_dimension(value: u32) -> u32 {
    if value == 0 {
        1
    } else {
        value
    }
}

/// Extents that a pass can be run with: each at least one.
pub open spec fn clamped_dimensions(v: UVec3) -> UVec3 {
    UVec3 { x: clamped_dimension(v.x), y: clamped_dimension(v.y), z: clamped_dimension(v.z) }
}

/// A cube edge length within what the configuration panel offers; a value
/// that is not a number counts as the least.
pub open spec fn clamped_edge_length(value: Scalar) -> Scalar {
    if value.spec_is_nan() || value.spec_lt(Scalar { bits: MIN_EDGE_LENGTH_BITS }) {
        Scalar { bits: MIN_EDGE_LENGTH_BITS }
    } else if (Scalar { bits: MAX_EDGE_LENGTH_BITS }).spec_lt(value) {
        Scalar { bits: MAX_EDGE_LENGTH_BITS }
    } else {
        value
    }
}

/// An extent that a pass can be run with: at least one.
pub fn clamp_dimension(value: u32) -> (clamped: u32)
    ensures
        clamped == clamped_dimension(value),
        clamped >= 1,
{
    if value == 0 {
        1
    } else {
        value
    }
}

/// Extents that a pass can be run with: each at least one.
pub fn clamp_dimensions(v: UVec3) -> (clamped: UVec3)
    ensures
        clamped == clamped_dimensions(v),
        clamped.x >= 1 && clamped.y >= 1 && clamped.z >= 1,
{
    UVec3 { x: clamp_dimension(v.x), y: clamp_dimension(v.y), z: clamp_dimension(v.z) }
}

/// A cube edge length within what the configuration panel offers.
pub fn clamp_edge_length(value: Scalar) -> (clamped: Scalar)
    ensures
        clamped == clamped_edge_length(value),
        (Scalar { bits: ZERO_BITS }).spec_lt(clamped),
        clamped.spec_is_finite(),
{
    let least = Scalar { bits: MIN_EDGE_LENGTH_BITS };
    let greatest = Scalar { bits: MAX_EDGE_LENGTH_BITS };
    if value.is_nan() || value.lt(least) {
        least
    } else if greatest.lt(value) {
        greatest
    } else {
        value
    }
}

impl TerrainGeneratorConfig {
    /// Whether a pass can be run with the configuration: no extent is zero,
    /// and the cube edge length is greater than zero.
    pub open spec fn spec_is_valid(&self) -> bool {
        &&& self.chunks_amount.x >= 1 && self.chunks_amount.y >= 1 && self.chunks_amount.z >= 1
        &&& self.chunk_size.x >= 1 && self.chunk_size.y >= 1 && self.chunk_size.z >= 1
        &&& (Scalar { bits: ZERO_BITS }).spec_lt(self.cube_edge_length)
    }

    /// Numeric `==` of the two numbers, and equality of the rest.
    pub open spec fn spec_same(&self, other: &TerrainGeneratorConfig) -> bool {
        &&& self.chunks_amount == other.chunks_amount
        &&& self.chunk_size == other.chunk_size
        &&& self.cube_edge_length.spec_same(other.cube_edge_length)
        &&& self.isolevel.spec_same(other.isolevel)
        &&& self.show_gizmos == other.show_gizmos
    }

    /// Whether a pass can be run with the configuration.
    #[verifier::when_used_as_spec(spec_is_valid)]
    pub fn is_valid(&self) -> (valid: bool)
        ensures
            valid == self.spec_is_valid(),
    {
        self.chunks_amount.x >= 1 && self.chunks_amount.y >= 1 && self.chunks_amount.z >= 1
            && self.chunk_size.x >= 1 && self.chunk_size.y >= 1 && self.chunk_size.z >= 1
            && (Scalar { bits: ZERO_BITS }).lt(self.cube_edge_length)
    }

    /// The configuration with every zero extent raised to one.
    pub fn clamped(self) -> (config: TerrainGeneratorConfig)
        ensures
            config == (TerrainGeneratorConfig {
                chunks_amount: clamped_dimensions(self.chunks_amount),
                chunk_size: clamped_dimensions(self.chunk_size),
                ..self
            }),
            (Scalar { bits: ZERO_BITS }).spec_lt(self.cube_edge_length) ==> config.spec_is_valid(),
    {
        TerrainGeneratorConfig {
            chunks_amount: clamp_dimensions(self.chunks_amount),
            chunk_size: clamp_dimensions(self.chunk_size),
            ..self
        }
    }

    /// The extent of the whole lattice in cubes, along each axis the number
    /// of chunks times the size of a chunk, where 32 bits hold it.
    pub fn extent_in_cubes(&self) -> (extent: Option<UVec3>)
        ensures
            match extent {
                Some(e) => {
                    &&& e.x == self.chunks_amount.x * self.chunk_size.x
                    &&& e.y == self.chunks_amount.y * self.chunk_size.y
                    &&& e.z == self.chunks_amount.z * self.chunk_size.z
                },
                None => {
                    ||| self.chunks_amount.x * self.chunk_size.x > u32::MAX
                    ||| self.chunks_amount.y * self.chunk_size.y > u32::MAX
                    ||| self.chunks_amount.z * self.chunk_size.z > u32::MAX
                },
            },
    {
        let x = self.chunks_amount.x.checked_mul(self.chunk_size.x);
        let y = self.chunks_amount.y.checked_mul(self.chunk_size.y);
        let z = self.chunks_amount.z.checked_mul(self.chunk_size.z);
        match (x, y, z) {
            (Some(x), Some(y), Some(z)) => Some(UVec3 { x, y, z }),
            _ => None,
        }
    }
}

impl Default for TerrainGeneratorConfig {
    fn default() -> (config: TerrainGeneratorConfig)
        ensures
            config.chunks_amount == (UVec3 { x: 4, y: 4, z: 4 }),
            config.chunk_size == (UVec3 { x: 4, y: 4, z: 4 }),
            config.cube_edge_length.bits == ONE_BITS,
            config.isolevel.bits == ZERO_BITS,
            !config.show_gizmos,
            config.spec_is_valid(),
    {
        TerrainGeneratorConfig {
            cube_edge_length: Scalar { bits: ONE_BITS },
            chunks_amount: UVec3 { x: 4, y: 4, z: 4 },
            chunk_size: UVec3 { x: 4, y: 4, z: 4 },
            isolevel: Scalar { bits: ZERO_BITS },
            show_gizmos: false,
        }
    }
}

impl PartialEq for TerrainGeneratorConfig {
    fn eq(&self, other: &TerrainGeneratorConfig) -> (r: bool) {
        self.chunks_amount == other.chunks_amount && self.chunk_size == other.chunk_size
            && self.cube_edge_length.same(other.cube_edge_length) && self.isolevel.same(
            other.isolevel,
        ) && self.show_gizmos == other.show_gizmos
    }
}

impl PartialEqSpecImpl for TerrainGeneratorConfig {
    open spec fn obeys_eq_spec() -> bool {
        true
    }

    open spec fn eq_spec(&self, other: &TerrainGeneratorConfig) -> bool {
        self.spec_same(other)
    }
}

/// The trigger that asks for the whole terrain to be generated anew.
#[derive(Clone, Copy, Debug)]
pub struct GenerateTerrainEvent;

impl GenerateTerrainEvent {
    /// The trigger as the regeneration scheduler takes it.
    pub fn trigger(&self) -> (trigger: Trigger)
        ensures
            trigger == Trigger::GenerateAll,
    {
        Trigger::GenerateAll
    }
}

} // verus!
