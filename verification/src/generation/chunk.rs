//! The lattice: chunks of points laid out x fastest, then y, then z.

use crate::generation::TerrainGeneratorConfig;
use crate::scalar::{Scalar, ZERO_BITS};
use crate::utils::{
    from_1D_to_3D_index,
    from_3D_to_1D_index,
    lattice_coordinate,
    lemma_coordinate_of_linear_index,
    lemma_linear_index_bound,
    linear_index,
    UVec3,
};
use vstd::prelude::*;

verus! {

/// Why a lattice could not be laid out.
#[derive(Clone, Copy, Debug, PartialEq, Eq, Structural)]
pub enum LatticeError {
    /// Some extent of the configuration is zero.
    DegenerateDimension,
    /// The lattice has more points, or spans more cubes along an axis, than
    /// a 32-bit index can number.
    TooLarge,
}

/// One lattice point: where it lies in its chunk, in lattice steps from the
/// chunk's first point, and the density sampled there.
#[derive(Clone, Copy, Debug)]
pub struct Point {
    pub position: UVec3,
    pub value: Scalar,
}

/// Number of lattice points of a chunk of `size` cubes: along each axis one
/// more than there are cubes.
pub open spec fn lattice_point_count(size: UVec3) -> int {
    (size.x + 1) * (size.y + 1) * (size.z + 1)
}

/// Whether every component is at least one.
pub open spec fn all_positive(v: UVec3) -> bool {
    v.x >= 1 && v.y >= 1 && v.z >= 1
}

/// What a chunk is: where it starts, in cubes from the lattice origin, how
/// many cubes it spans, and the density at each of its points, x fastest.
pub struct ChunkView {
    pub position: UVec3,
    pub size: UVec3,
    pub values: Seq<Scalar>,
}

impl ChunkView {
    /// The extent of the chunk in points.
    pub open spec fn point_size(self) -> UVec3 {
        UVec3 {
            x: (self.size.x + 1) as u32,
            y: (self.size.y + 1) as u32,
            z: (self.size.z + 1) as u32,
        }
    }

    /// A chunk spans at least one cube along each axis, and holds one value
    /// for each of its points, which a 32-bit index can number.
    pub open spec fn wf(self) -> bool {
        &&& all_positive(self.size)
        &&& lattice_point_count(self.size) <= u32::MAX
        &&& self.values.len() == lattice_point_count(self.size)
    }

    /// The point at flat position `i`.
    pub open spec fn point(self, i: int) -> Point {
        Point { position: lattice_coordinate(i, self.point_size()), value: self.values[i] }
    }
}

/// A chunk as the lattice builder leaves it: every value at the placeholder zero.
pub open spec fn blank_chunk(position: UVec3, size: UVec3) -> ChunkView {
    ChunkView {
        position,
        size,
        values: Seq::new(lattice_point_count(size) as nat, |i: int| Scalar { bits: ZERO_BITS }),
    }
}

/// Whether a sample is missing: the density field gave no value for the
/// point, or one that is not a finite number.
pub open spec fn sample_missing(sample: Option<Scalar>) -> bool {
    match sample {
        Some(value) => !value.spec_is_finite(),
        None => true,
    }
}

/// The value that a sample leaves at its point: the sample itself, or, where
/// it is missing, `isolevel`, which is outside the surface.
pub open spec fn sampled_value(sample: Option<Scalar>, isolevel: Scalar) -> Scalar {
    match sample {
        Some(value) => if value.spec_is_finite() {
            value
        } else {
            isolevel
        },
        None => isolevel,
    }
}

/// A chunk after a sampling pass: the lattice as it was, and at every point
/// what the point's sample leaves there.
pub open spec fn sampled_chunk(
    chunk: ChunkView,
    samples: Seq<Option<Scalar>>,
    isolevel: Scalar,
) -> ChunkView {
    ChunkView {
        values: Seq::new(samples.len(), |i: int| sampled_value(samples[i], isolevel)),
        ..chunk
    }
}

/// Number of missing samples.
pub open spec fn missing_count(samples: Seq<Option<Scalar>>) -> nat
    decreases samples.len(),
{
    if samples.len() == 0 {
        0
    } else {
        missing_count(samples.drop_last()) + if sample_missing(samples.last()) {
            1nat
        } else {
            0nat
        }
    }
}

/// Whether some extent of the configuration is zero.
pub open spec fn config_degenerate(config: TerrainGeneratorConfig) -> bool {
    !all_positive(config.chunks_amount) || !all_positive(config.chunk_size)
}

/// Whether 32-bit indices can number the points of a chunk and the cubes
/// along each axis of the whole lattice.
pub open spec fn config_fits(config: TerrainGeneratorConfig) -> bool {
    &&& lattice_point_count(config.chunk_size) <= u32::MAX
    &&& config.chunks_amount.x * config.chunk_size.x <= u32::MAX
    &&& config.chunks_amount.y * config.chunk_size.y <= u32::MAX
    &&& config.chunks_amount.z * config.chunk_size.z <= u32::MAX
}

/// Where the chunk with the chunk index `index` starts, in cubes from the
/// lattice origin.
pub open spec fn chunk_origin(config: TerrainGeneratorConfig, index: UVec3) -> UVec3 {
    UVec3 {
        x: (index.x * config.chunk_size.x) as u32,
        y: (index.y * config.chunk_size.y) as u32,
        z: (index.z * config.chunk_size.z) as u32,
    }
}

/// The `k`-th chunk that the lattice builder lays out: chunk indices run x
/// fastest, then y, then z.
pub open spec fn created_chunk(config: TerrainGeneratorConfig, k: int) -> ChunkView {
    blank_chunk(
        chunk_origin(config, lattice_coordinate(k, config.chunks_amount)),
        config.chunk_size,
    )
}

/// An axis-aligned block of the lattice, meshed independently of its
/// neighbours.
#[derive(Debug)]
pub struct TerrainChunk {
    /// Where the chunk's first point lies, in cubes from the lattice origin.
    position: UVec3,
    /// The chunk's extent in cubes.
    size: UVec3,
    /// The chunk's extent in points: along each axis one more.
    point_size: UVec3,
    /// The points, x fastest, then y, then z.
    points: Vec<Point>,
}

impl View for TerrainChunk {
    type V = ChunkView;

    closed spec fn view(&self) -> ChunkView {
        ChunkView {
            position: self.position,
            size: self.size,
            values: Seq::new(self.points@.len(), |i: int| self.points@[i].value),
        }
    }
}

/// The number of lattice points of a chunk of `size` cubes, where a 32-bit
/// index can hold it.
pub fn lattice_points(size: UVec3) -> (count: Option<u32>)
    ensures
        match count {
            Some(n) => n == lattice_point_count(size),
            None => lattice_point_count(size) > u32::MAX,
        },
{
    let px: u64 = size.x as u64 + 1;
    let py: u64 = size.y as u64 + 1;
    let pz: u64 = size.z as u64 + 1;
    proof {
        assert(px * py >= px && px * py >= py && px * py <= 0x1_0000_0000 * 0x1_0000_0000)
            by (nonlinear_arith)
            requires
                1 <= px <= 0x1_0000_0000,
                1 <= py <= 0x1_0000_0000,
        ;
        assert(px * py * pz >= px * py) by (nonlinear_arith)
            requires
                1 <= pz,
                0 <= px * py,
        ;
    }
    if px > 0xffff_ffff || py > 0xffff_ffff {
        return None;
    }
    proof {
        assert(px * py <= 0xffff_ffff * 0xffff_ffff) by (nonlinear_arith)
            requires
                0 <= px <= 0xffff_ffff,
                0 <= py <= 0xffff_ffff,
        ;
    }
    let plane: u64 = px * py;
    if plane > 0xffff_ffff {
        return None;
    }
    proof {
        assert(plane * pz <= 0xffff_ffff * 0x1_0000_0000) by (nonlinear_arith)
            requires
                0 <= plane <= 0xffff_ffff,
                0 <= pz <= 0x1_0000_0000,
        ;
    }
    let total: u64 = plane * pz;
    if total > 0xffff_ffff {
        None
    } else {
        Some(total as u32)
    }
}

/// The product of two 32-bit numbers, which 64 bits always hold.
fn wide_product(a: u32, b: u32) -> (product: u64)
    ensures
        product == a * b,
{
    proof {
        assert(0 <= a * b <= 0xffff_ffff * 0xffff_ffff) by (nonlinear_arith)
            requires
                0 <= a <= 0xffff_ffff,
                0 <= b <= 0xffff_ffff,
        ;
    }
    a as u64 * b as u64
}

/// What one sample leaves at its point, and whether the sample was missing.
pub fn resolve_sample(sample: Option<Scalar>, isolevel: Scalar) -> (resolved: (Scalar, bool))
    ensures
        resolved.0 == sampled_value(sample, isolevel),
        resolved.1 == sample_missing(sample),
        resolved.1 ==> !resolved.0.spec_lt(isolevel),
{
    match sample {
        Some(value) => {
            if value.is_finite() {
                (value, false)
            } else {
                (isolevel, true)
            }
        },
        None => (isolevel, true),
    }
}

impl TerrainChunk {
    #[verifier::type_invariant]
    pub(crate) closed spec fn inv(self) -> bool {
        &&& all_positive(self.size)
        &&& self.point_size.x == self.size.x + 1
        &&& self.point_size.y == self.size.y + 1
        &&& self.point_size.z == self.size.z + 1
        &&& lattice_point_count(self.size) <= u32::MAX
        &&& self.points@.len() == lattice_point_count(self.size)
        &&& forall|i: int|
            0 <= i < self.points@.len() ==> (#[trigger] self.points@[i]).position
                == lattice_coordinate(i, self.point_size)
    }

    /// Lays out the points of a chunk of `size` cubes that starts `position`
    /// cubes from the lattice origin, every value at the placeholder zero.
    pub fn new(position: UVec3, size: UVec3) -> (r: Result<TerrainChunk, LatticeError>)
        ensures
            match r {
                Ok(chunk) => chunk@.wf() && chunk@ == blank_chunk(position, size),
                Err(LatticeError::DegenerateDimension) => !all_positive(size),
                Err(LatticeError::TooLarge) => all_positive(size) && lattice_point_count(size)
                    > u32::MAX,
            },
    {
        if size.x == 0 || size.y == 0 || size.z == 0 {
            return Err(LatticeError::DegenerateDimension);
        }
        let total = match lattice_points(size) {
            Some(n) => n,
            None => {
                return Err(LatticeError::TooLarge);
            },
        };
        proof {
            let px = size.x + 1;
            let py = size.y + 1;
            let pz = size.z + 1;
            assert(px <= px * py * pz && py <= px * py * pz && pz <= px * py * pz)
                by (nonlinear_arith)
                requires
                    1 <= px,
                    1 <= py,
                    1 <= pz,
            ;
        }
        let point_size = UVec3 { x: size.x + 1, y: size.y + 1, z: size.z + 1 };
        let mut points: Vec<Point> = Vec::with_capacity(total as usize);
        let mut n: u32 = 0;
        while n < total
            invariant
                n <= total,
                point_size.x > 0,
                point_size.y > 0,
                points@.len() == n,
                forall|i: int|
                    0 <= i < n ==> (#[trigger] points@[i]).position == lattice_coordinate(
                        i,
                        point_size,
                    ) && points@[i].value == (Scalar { bits: ZERO_BITS }),
            decreases total - n,
        {
            let position = from_1D_to_3D_index(n, point_size);
            points.push(Point { position, value: Scalar { bits: ZERO_BITS } });
            n = n + 1;
        }
        let chunk = TerrainChunk { position, size, point_size, points };
        assert(chunk@.values =~= blank_chunk(position, size).values);
        Ok(chunk)
    }

    /// The density sampler: overwrites the value of every point with its
    /// sample, in the order of the points. A missing sample leaves its point
    /// outside the surface, at `isolevel`; the pass goes on, and returns how
    /// many samples were missing. The lattice stays as it is.
    pub fn apply_samples(&mut self, samples: &Vec<Option<Scalar>>, isolevel: Scalar) -> (missing:
        usize)
        requires
            samples@.len() == old(self)@.values.len(),
        ensures
            final(self)@.wf(),
            final(self)@ == sampled_chunk(old(self)@, samples@, isolevel),
            forall|i: int|
                0 <= i < samples@.len() && sample_missing(samples@[i]) ==> !(
                #[trigger] final(self)@.values[i]).spec_lt(isolevel),
            missing == missing_count(samples@),
    {
        proof {
            use_type_invariant(&*self);
        }
        let count = samples.len();
        let mut points: Vec<Point> = Vec::with_capacity(count);
        let mut missing: usize = 0;
        let mut i: usize = 0;
        while i < count
            invariant
                i <= count,
                count == samples@.len(),
                count == self.points@.len(),
                points@.len() == i,
                missing == missing_count(samples@.take(i as int)),
                missing <= i,
                forall|j: int|
                    0 <= j < i ==> (#[trigger] points@[j]).position == self.points@[j].position
                        && points@[j].value == sampled_value(samples@[j], isolevel),
            decreases count - i,
        {
            proof {
                assert(samples@.take(i + 1).drop_last() =~= samples@.take(i as int));
            }
            let (value, is_missing) = resolve_sample(samples[i], isolevel);
            if is_missing {
                missing = missing + 1;
            }
            points.push(Point { position: self.points[i].position, value });
            i = i + 1;
        }
        proof {
            assert(samples@.take(count as int) =~= samples@);
        }
        self.points = points;
        assert(self@.values =~= sampled_chunk(old(self)@, samples@, isolevel).values);
        missing
    }

    /// Where the chunk's first point lies, in cubes from the lattice origin.
    pub fn position(&self) -> (position: UVec3)
        ensures
            position == self@.position,
    {
        self.position
    }

    /// The chunk's extent in cubes.
    pub fn size(&self) -> (size: UVec3)
        ensures
            size == self@.size,
            self@.wf(),
    {
        proof {
            use_type_invariant(self);
        }
        self.size
    }

    /// The chunk's extent in points.
    pub fn point_size(&self) -> (point_size: UVec3)
        ensures
            point_size == self@.point_size(),
            self@.wf(),
    {
        proof {
            use_type_invariant(self);
        }
        self.point_size
    }

    /// Number of points of the chunk.
    pub fn point_count(&self) -> (count: u32)
        ensures
            count == self@.values.len(),
            self@.wf(),
    {
        proof {
            use_type_invariant(self);
        }
        self.points.len() as u32
    }

    /// The points, x fastest, then y, then z.
    pub fn points(&self) -> (points: &Vec<Point>)
        ensures
            self@.wf(),
            points@.len() == self@.values.len(),
            forall|i: int| 0 <= i < points@.len() ==> #[trigger] points@[i] == self@.point(i),
    {
        proof {
            use_type_invariant(self);
        }
        &self.points
    }

    /// The flat position of the point at the lattice coordinate `at`:
    /// `at.x + at.y * point_size.x + at.z * point_size.x * point_size.y`.
    pub fn point_index(&self, at: UVec3) -> (index: u32)
        requires
            at.within(self@.point_size()),
        ensures
            index == linear_index(at, self@.point_size()),
            index < self@.values.len(),
            self@.point(index as int).position == at,
    {
        proof {
            use_type_invariant(self);
            lemma_linear_index_bound(at, self.point_size);
            lemma_coordinate_of_linear_index(at, self.point_size);
        }
        from_3D_to_1D_index(at, self.point_size)
    }

    /// The point at flat position `index`.
    pub fn point(&self, index: u32) -> (point: Point)
        requires
            index < self@.values.len(),
        ensures
            point == self@.point(index as int),
    {
        proof {
            use_type_invariant(self);
        }
        self.points[index as usize]
    }
}

/// A sampling pass is idempotent: what it leaves depends only on the
/// lattice, the samples and the isolevel, not on the values that the chunk
/// held before; so a second pass with the same samples changes nothing.
pub proof fn lemma_sampling_is_idempotent(
    chunk: ChunkView,
    other: ChunkView,
    samples: Seq<Option<Scalar>>,
    isolevel: Scalar,
)
    requires
        chunk.position == other.position,
        chunk.size == other.size,
    ensures
        sampled_chunk(chunk, samples, isolevel) == sampled_chunk(other, samples, isolevel),
        sampled_chunk(sampled_chunk(chunk, samples, isolevel), samples, isolevel) == sampled_chunk(
            chunk,
            samples,
            isolevel,
        ),
{
}

/// The lattice builder: lays out the chunks of a configuration, chunk
/// indices running x fastest, then y, then z.
pub fn create_chunks(config: &TerrainGeneratorConfig) -> (r: Result<Vec<TerrainChunk>, LatticeError>)
    ensures
        match r {
            Ok(chunks) => {
                &&& !config_degenerate(*config)
                &&& config_fits(*config)
                &&& chunks@.len() == config.chunks_amount.volume()
                &&& forall|k: int|
                    0 <= k < chunks@.len() ==> (#[trigger] chunks@[k])@ == created_chunk(*config, k)
                        && chunks@[k]@.wf()
            },
            Err(LatticeError::DegenerateDimension) => config_degenerate(*config),
            Err(LatticeError::TooLarge) => !config_degenerate(*config) && !config_fits(*config),
        },
{
    let amount = config.chunks_amount;
    let size = config.chunk_size;
    if amount.x == 0 || amount.y == 0 || amount.z == 0 || size.x == 0 || size.y == 0 || size.z
        == 0 {
        return Err(LatticeError::DegenerateDimension);
    }
    if lattice_points(size).is_none() || wide_product(amount.x, size.x) > 0xffff_ffff
        || wide_product(amount.y, size.y) > 0xffff_ffff || wide_product(amount.z, size.z)
        > 0xffff_ffff {
        return Err(LatticeError::TooLarge);
    }
    let mut chunks: Vec<TerrainChunk> = Vec::new();
    let mut z: u32 = 0;
    proof {
        assert(0 * amount.x * amount.y == 0) by (nonlinear_arith);
    }
    while z < amount.z
        invariant
            z <= amount.z,
            amount == config.chunks_amount,
            size == config.chunk_size,
            !config_degenerate(*config),
            config_fits(*config),
            chunks@.len() == z * amount.x * amount.y,
            forall|k: int|
                0 <= k < chunks@.len() ==> (#[trigger] chunks@[k])@ == created_chunk(*config, k)
                    && chunks@[k]@.wf(),
        decreases amount.z - z,
    {
        let mut y: u32 = 0;
        proof {
            assert(0 * amount.x == 0) by (nonlinear_arith);
        }
        while y < amount.y
            invariant
                z < amount.z,
                y <= amount.y,
                amount == config.chunks_amount,
                size == config.chunk_size,
                !config_degenerate(*config),
                config_fits(*config),
                chunks@.len() == y * amount.x + z * amount.x * amount.y,
                forall|k: int|
                    0 <= k < chunks@.len() ==> (#[trigger] chunks@[k])@ == created_chunk(
                        *config,
                        k,
                    ) && chunks@[k]@.wf(),
            decreases amount.y - y,
        {
            let mut x: u32 = 0;
            while x < amount.x
                invariant
                    z < amount.z,
                    y < amount.y,
                    x <= amount.x,
                    amount == config.chunks_amount,
                    size == config.chunk_size,
                    !config_degenerate(*config),
                    config_fits(*config),
                    chunks@.len() == x + y * amount.x + z * amount.x * amount.y,
                    forall|k: int|
                        0 <= k < chunks@.len() ==> (#[trigger] chunks@[k])@ == created_chunk(
                            *config,
                            k,
                        ) && chunks@[k]@.wf(),
                decreases amount.x - x,
            {
                let index = UVec3 { x, y, z };
                proof {
                    lemma_coordinate_of_linear_index(index, amount);
                    assert(x * size.x <= amount.x * size.x) by (nonlinear_arith)
                        requires
                            x <= amount.x,
                            0 <= size.x,
                    ;
                    assert(y * size.y <= amount.y * size.y) by (nonlinear_arith)
                        requires
                            y <= amount.y,
                            0 <= size.y,
                    ;
                    assert(z * size.z <= amount.z * size.z) by (nonlinear_arith)
                        requires
                            z <= amount.z,
                            0 <= size.z,
                    ;
                }
                let origin = UVec3 { x: x * size.x, y: y * size.y, z: z * size.z };
                match TerrainChunk::new(origin, size) {
                    Ok(chunk) => {
                        chunks.push(chunk);
                    },
                    Err(error) => {
                        return Err(error);
                    },
                }
                x = x + 1;
            }
            proof {
                assert(amount.x + y * amount.x + z * amount.x * amount.y == (y + 1) * amount.x + z
                    * amount.x * amount.y) by (nonlinear_arith);
            }
            y = y + 1;
        }
        proof {
            assert(amount.y * amount.x + z * amount.x * amount.y == (z + 1) * amount.x * amount.y)
                by (nonlinear_arith);
        }
        z = z + 1;
    }
    proof {
        assert(amount.z * amount.x * amount.y == amount.x * amount.y * amount.z)
            by (nonlinear_arith);
    }
    Ok(chunks)
}

} // verus!
