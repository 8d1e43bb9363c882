use vstd::prelude::*;

verus! {

/// A real number in single precision, held as the 32 bits of its binary
/// form.
///
/// The loop carries such numbers from where they are measured to the game
/// and never computes with them, so the bits are all it needs.
#[derive(Debug, Clone, Copy, PartialEq, Eq, Hash, Structural)]
pub struct Scalar {
    pub bits: u32,
}

impl Scalar {
    /// The number zero.
    pub fn zero() -> (scalar: Scalar)
        ensures
            scalar.bits == 0,
    {
        Scalar { bits: 0 }
    }

    /// The number with the given bits.
    pub fn from_bits(bits: u32) -> (scalar: Scalar)
        ensures
            scalar.bits == bits,
    {
        Scalar { bits }
    }

    /// The bits of the number.
    pub fn to_bits(self) -> (bits: u32)
        ensures
            bits == self.bits,
    {
        self.bits
    }
}

/// A pair of real numbers: a position, a distance or the bounds of the
/// screen, by the place where it is used.
#[derive(Debug, Clone, Copy, PartialEq, Eq, Hash, Structural)]
pub struct Point {
    pub x: Scalar,
    pub y: Scalar,
}

impl Point {
    /// The pair of zeros, which is the origin.
    pub open spec fn spec_origin() -> Point {
        Point { x: Scalar { bits: 0 }, y: Scalar { bits: 0 } }
    }

    /// The pair of zeros, which is the origin.
    pub fn origin() -> (point: Point)
        ensures
            point == Self::spec_origin(),
    {
        Point { x: Scalar { bits: 0 }, y: Scalar { bits: 0 } }
    }

    /// The pair of the numbers with the given bits.
    pub fn from_bits(x: u32, y: u32) -> (point: Point)
        ensures
            point == (Point { x: Scalar { bits: x }, y: Scalar { bits: y } }),
    {
        Point { x: Scalar { bits: x }, y: Scalar { bits: y } }
    }
}

/// The bits of the number one in double precision.
pub const ONE_BITS: u64 = 0x3FF0_0000_0000_0000;

/// The factor between physical and logical pixels, a real number in double
/// precision held as the 64 bits of its binary form.
#[derive(Debug, Clone, Copy, PartialEq, Eq, Hash, Structural)]
pub struct ScaleFactor {
    pub bits: u64,
}

impl ScaleFactor {
    /// The factor one: a logical pixel is a physical pixel.
    pub open spec fn spec_one() -> ScaleFactor {
        ScaleFactor { bits: ONE_BITS }
    }

    /// The factor one: a logical pixel is a physical pixel.
    pub fn one() -> (factor: ScaleFactor)
        ensures
            factor == Self::spec_one(),
    {
        ScaleFactor { bits: ONE_BITS }
    }

    /// The factor with the given bits.
    pub fn from_bits(bits: u64) -> (factor: ScaleFactor)
        ensures
            factor.bits == bits,
    {
        ScaleFactor { bits }
    }
}

/// A width and a height in whole pixels.
#[derive(Debug, Clone, Copy, PartialEq, Eq, Hash, Structural)]
pub struct Size {
    pub width: u32,
    pub height: u32,
}

} // verus!
