//! Carriers for the single-precision values that pass through the core.

use vstd::prelude::*;

verus! {

/// Bit pattern of `0.0`.
pub const ZERO_BITS: u32 = 0x0000_0000;

/// Bit pattern of `1.0`.
pub const ONE_BITS: u32 = 0x3F80_0000;

/// An IEEE 754 single-precision number, held by its bit pattern.
///
/// The core stores, compares and forwards such values; it never computes
/// with them.
#[derive(Clone, Copy, PartialEq, Eq, Structural, Debug)]
pub struct Scalar {
    pub bits: u32,
}

impl Scalar {
    /// The number with the given bit pattern.
    pub fn from_bits(bits: u32) -> (r: Scalar)
        ensures
            r.bits == bits,
    {
        Scalar { bits }
    }

    /// The bit pattern of this number.
    pub fn to_bits(self) -> (r: u32)
        ensures
            r == self.bits,
    {
        self.bits
    }

    pub fn zero() -> (r: Scalar)
        ensures
            r.bits == ZERO_BITS,
    {
        Scalar { bits: ZERO_BITS }
    }

    pub fn one() -> (r: Scalar)
        ensures
            r.bits == ONE_BITS,
    {
        Scalar { bits: ONE_BITS }
    }
}

/// A vector of three numbers.
#[derive(Clone, Copy, PartialEq, Eq, Structural, Debug)]
pub struct Vector3f {
    pub x: Scalar,
    pub y: Scalar,
    pub z: Scalar,
}

impl Vector3f {
    /// The vector whose coordinates have the given bit patterns.
    pub fn from_bits(x: u32, y: u32, z: u32) -> (r: Vector3f)
        ensures
            r == Vector3f::of_bits(x, y, z),
    {
        Vector3f { x: Scalar { bits: x }, y: Scalar { bits: y }, z: Scalar { bits: z } }
    }

    pub open spec fn of_bits(x: u32, y: u32, z: u32) -> Vector3f {
        Vector3f { x: Scalar { bits: x }, y: Scalar { bits: y }, z: Scalar { bits: z } }
    }

    pub fn zero() -> (r: Vector3f)
        ensures
            r == Vector3f::of_bits(ZERO_BITS, ZERO_BITS, ZERO_BITS),
    {
        Vector3f::from_bits(ZERO_BITS, ZERO_BITS, ZERO_BITS)
    }
}

/// A vector of four numbers; also a rotation quaternion `(x, y, z, w)`.
#[derive(Clone, Copy, PartialEq, Eq, Structural, Debug)]
pub struct Vector4f {
    pub x: Scalar,
    pub y: Scalar,
    pub z: Scalar,
    pub w: Scalar,
}

impl Vector4f {
    pub open spec fn of_bits(x: u32, y: u32, z: u32, w: u32) -> Vector4f {
        Vector4f {
            x: Scalar { bits: x },
            y: Scalar { bits: y },
            z: Scalar { bits: z },
            w: Scalar { bits: w },
        }
    }

    /// The vector whose coordinates have the given bit patterns.
    pub fn from_bits(x: u32, y: u32, z: u32, w: u32) -> (r: Vector4f)
        ensures
            r == Vector4f::of_bits(x, y, z, w),
    {
        Vector4f {
            x: Scalar { bits: x },
            y: Scalar { bits: y },
            z: Scalar { bits: z },
            w: Scalar { bits: w },
        }
    }
}

/// A 4x4 matrix, stored by columns.
#[derive(Clone, Copy, PartialEq, Eq, Structural, Debug)]
pub struct Matrix4f {
    pub c0: Vector4f,
    pub c1: Vector4f,
    pub c2: Vector4f,
    pub c3: Vector4f,
}

impl Matrix4f {
    pub open spec fn spec_identity() -> Matrix4f {
        Matrix4f {
            c0: Vector4f::of_bits(ONE_BITS, ZERO_BITS, ZERO_BITS, ZERO_BITS),
            c1: Vector4f::of_bits(ZERO_BITS, ONE_BITS, ZERO_BITS, ZERO_BITS),
            c2: Vector4f::of_bits(ZERO_BITS, ZERO_BITS, ONE_BITS, ZERO_BITS),
            c3: Vector4f::of_bits(ZERO_BITS, ZERO_BITS, ZERO_BITS, ONE_BITS),
        }
    }

    /// The identity matrix.
    pub fn identity() -> (r: Matrix4f)
        ensures
            r == Matrix4f::spec_identity(),
    {
        Matrix4f {
            c0: Vector4f::from_bits(ONE_BITS, ZERO_BITS, ZERO_BITS, ZERO_BITS),
            c1: Vector4f::from_bits(ZERO_BITS, ONE_BITS, ZERO_BITS, ZERO_BITS),
            c2: Vector4f::from_bits(ZERO_BITS, ZERO_BITS, ONE_BITS, ZERO_BITS),
            c3: Vector4f::from_bits(ZERO_BITS, ZERO_BITS, ZERO_BITS, ONE_BITS),
        }
    }
}

/// A rigid pose: a rotation followed by a translation.
#[derive(Clone, Copy, PartialEq, Eq, Structural, Debug)]
pub struct Isometry3f {
    pub translation: Vector3f,
    /// Unit quaternion `(x, y, z, w)`.
    pub rotation: Vector4f,
}

impl Isometry3f {
    pub open spec fn spec_identity() -> Isometry3f {
        Isometry3f {
            translation: Vector3f::of_bits(ZERO_BITS, ZERO_BITS, ZERO_BITS),
            rotation: Vector4f::of_bits(ZERO_BITS, ZERO_BITS, ZERO_BITS, ONE_BITS),
        }
    }

    /// The pose that moves nothing.
    pub fn identity() -> (r: Isometry3f)
        ensures
            r == Isometry3f::spec_identity(),
    {
        Isometry3f {
            translation: Vector3f::from_bits(ZERO_BITS, ZERO_BITS, ZERO_BITS),
            rotation: Vector4f::from_bits(ZERO_BITS, ZERO_BITS, ZERO_BITS, ONE_BITS),
        }
    }
}

} // verus!
