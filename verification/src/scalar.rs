//! Scalars and positions as the library holds them.
//!
//! The density field and the world-space positions of this library are
//! single-precision binary floating-point numbers. The library does no
//! arithmetic on them: it stores them as their IEEE 754 binary32 bit
//! patterns and only orders and compares them, which is exact on the bit
//! pattern. Arithmetic on the numbers is left to the caller.

use vstd::prelude::*;
use vstd::std_specs::cmp::PartialEqSpecImpl;

verus! {

/// A number, held as its IEEE 754 binary32 bit pattern: the sign in the top
/// bit, and below it the magnitude, which grows with the absolute value.
#[derive(Clone, Copy, Debug)]
pub struct Scalar {
    pub bits: u32,
}

/// The bit pattern of zero.
pub const ZERO_BITS: u32 = 0;

/// The bit pattern of one.
pub const ONE_BITS: u32 = 0x3F80_0000;

/// The top bit, which holds the sign.
pub const SIGN_BIT: u32 = 0x8000_0000;

/// The magnitude of infinity; every greater magnitude is not a number.
pub const INFINITY_MAGNITUDE: u32 = 0x7F80_0000;

impl Scalar {
    /// The pattern without its sign.
    pub open spec fn spec_magnitude(self) -> u32 {
        if self.bits >= SIGN_BIT {
            (self.bits - SIGN_BIT) as u32
        } else {
            self.bits
        }
    }

    /// Whether the pattern is not a number.
    pub open spec fn spec_is_nan(self) -> bool {
        self.spec_magnitude() > INFINITY_MAGNITUDE
    }

    /// Whether the pattern is a number other than an infinity.
    pub open spec fn spec_is_finite(self) -> bool {
        self.spec_magnitude() < INFINITY_MAGNITUDE
    }

    /// The place of a number on the number line: numbers compare as their
    /// ranks do. Both zeros have rank 0.
    pub open spec fn spec_rank(self) -> int {
        if self.bits >= SIGN_BIT {
            -(self.spec_magnitude() as int)
        } else {
            self.spec_magnitude() as int
        }
    }

    /// Numeric `<`: false when either side is not a number.
    pub open spec fn spec_lt(self, other: Scalar) -> bool {
        !self.spec_is_nan() && !other.spec_is_nan() && self.spec_rank() < other.spec_rank()
    }

    /// Numeric `==`: false when either side is not a number, true of the two zeros.
    pub open spec fn spec_same(self, other: Scalar) -> bool {
        !self.spec_is_nan() && !other.spec_is_nan() && self.spec_rank() == other.spec_rank()
    }

    pub fn from_bits(bits: u32) -> (s: Scalar)
        ensures
            s.bits == bits,
    {
        Scalar { bits }
    }

    pub fn to_bits(self) -> (bits: u32)
        ensures
            bits == self.bits,
    {
        self.bits
    }

    /// The pattern without its sign.
    #[verifier::when_used_as_spec(spec_magnitude)]
    pub fn magnitude(self) -> (m: u32)
        ensures
            m == self.spec_magnitude(),
    {
        if self.bits >= SIGN_BIT {
            self.bits - SIGN_BIT
        } else {
            self.bits
        }
    }

    /// Whether the pattern is not a number.
    #[verifier::when_used_as_spec(spec_is_nan)]
    pub fn is_nan(self) -> (r: bool)
        ensures
            r == self.spec_is_nan(),
    {
        self.magnitude() > INFINITY_MAGNITUDE
    }

    /// Whether the pattern is a number other than an infinity.
    #[verifier::when_used_as_spec(spec_is_finite)]
    pub fn is_finite(self) -> (r: bool)
        ensures
            r == self.spec_is_finite(),
    {
        self.magnitude() < INFINITY_MAGNITUDE
    }

    /// The place of a number on the number line.
    pub fn rank(self) -> (r: i64)
        ensures
            r == self.spec_rank(),
    {
        let m: i64 = self.magnitude() as i64;
        if self.bits >= SIGN_BIT {
            -m
        } else {
            m
        }
    }

    /// Numeric `<`: false when either side is not a number.
    #[verifier::when_used_as_spec(spec_lt)]
    pub fn lt(self, other: Scalar) -> (r: bool)
        ensures
            r == self.spec_lt(other),
    {
        !self.is_nan() && !other.is_nan() && self.rank() < other.rank()
    }

    /// Numeric `==`: false when either side is not a number.
    #[verifier::when_used_as_spec(spec_same)]
    pub fn same(self, other: Scalar) -> (r: bool)
        ensures
            r == self.spec_same(other),
    {
        !self.is_nan() && !other.is_nan() && self.rank() == other.rank()
    }
}

impl PartialEq for Scalar {
    fn eq(&self, other: &Scalar) -> (r: bool) {
        self.same(*other)
    }
}

impl PartialEqSpecImpl for Scalar {
    open spec fn obeys_eq_spec() -> bool {
        true
    }

    open spec fn eq_spec(&self, other: &Scalar) -> bool {
        self.spec_same(*other)
    }
}

/// A position in space: three numbers.
#[derive(Clone, Copy, Debug)]
pub struct Vec3 {
    pub x: Scalar,
    pub y: Scalar,
    pub z: Scalar,
}

impl Vec3 {
    /// Numeric `==` on every component.
    pub open spec fn spec_same(self, other: Vec3) -> bool {
        self.x.spec_same(other.x) && self.y.spec_same(other.y) && self.z.spec_same(other.z)
    }

    /// Whether some component is not a number.
    pub open spec fn has_nan(self) -> bool {
        self.x.spec_is_nan() || self.y.spec_is_nan() || self.z.spec_is_nan()
    }

    pub fn new(x: Scalar, y: Scalar, z: Scalar) -> (v: Vec3)
        ensures
            v == (Vec3 { x, y, z }),
    {
        Vec3 { x, y, z }
    }

    pub fn from_bits(x: u32, y: u32, z: u32) -> (v: Vec3)
        ensures
            v.x.bits == x,
            v.y.bits == y,
            v.z.bits == z,
    {
        Vec3 { x: Scalar { bits: x }, y: Scalar { bits: y }, z: Scalar { bits: z } }
    }

    /// Numeric `==` on every component.
    #[verifier::when_used_as_spec(spec_same)]
    pub fn same(self, other: Vec3) -> (r: bool)
        ensures
            r == self.spec_same(other),
    {
        self.x.same(other.x) && self.y.same(other.y) && self.z.same(other.z)
    }
}

impl PartialEq for Vec3 {
    fn eq(&self, other: &Vec3) -> (r: bool) {
        self.same(*other)
    }
}

impl PartialEqSpecImpl for Vec3 {
    open spec fn obeys_eq_spec() -> bool {
        true
    }

    open spec fn eq_spec(&self, other: &Vec3) -> bool {
        self.spec_same(*other)
    }
}

/// Numeric `==` is symmetric, and transitive; it holds of a value and itself
/// unless the value is not a number.
pub proof fn lemma_same_is_partial_equivalence(a: Vec3, b: Vec3, c: Vec3)
    ensures
        a.spec_same(a) <==> !a.has_nan(),
        a.spec_same(b) ==> b.spec_same(a),
        a.spec_same(b) && b.spec_same(c) ==> a.spec_same(c),
{
}

/// Numeric `<` is a strict order, and numeric `==` agrees with it: of two
/// numbers exactly one of `<`, `==` and `>` holds.
pub proof fn lemma_lt_is_strict_order(a: Scalar, b: Scalar, c: Scalar)
    ensures
        !a.spec_lt(a),
        a.spec_lt(b) && b.spec_lt(c) ==> a.spec_lt(c),
        a.spec_lt(b) ==> !b.spec_lt(a) && !a.spec_same(b),
        !a.spec_is_nan() && !b.spec_is_nan() ==> a.spec_lt(b) || a.spec_same(b) || b.spec_lt(a),
        a.spec_same(b) ==> (a.spec_lt(c) <==> b.spec_lt(c)) && (c.spec_lt(a) <==> c.spec_lt(b)),
{
}

} // verus!
