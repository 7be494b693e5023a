//! Matrices and small vectors carried as IEEE-754 bit patterns.
//!
//! The library never interprets the floating-point values of vertex data or
//! transforms; it only moves them around, so every scalar is stored as the
//! 32-bit word that encodes it.  Floating-point arithmetic itself (matrix
//! products, trigonometry, projection) happens at the application layer on
//! the math library; what the library states and proves is which words go
//! where, and in which order transforms compose.

use vstd::prelude::*;

verus! {

/// A 4x4 matrix of 32-bit float bit patterns, in column-major order
/// (the layout used by the interchange format and by the device API).
#[derive(Debug, Clone, Copy, PartialEq, Eq)]
pub struct Mat4 {
    pub m: [u32; 16],
}

impl View for Mat4 {
    type V = Seq<u32>;

    open spec fn view(&self) -> Seq<u32> {
        self.m@
    }
}

/// Bit pattern of the scalar 1.0.
pub const ONE_BITS: u32 = 0x3F80_0000;

impl Mat4 {
    /// Wraps sixteen column-major scalar bit patterns as a matrix.
    pub fn new(m: [u32; 16]) -> (r: Mat4)
        ensures
            r@ == m@,
    {
        Mat4 { m }
    }

    /// The identity transform: ones on the diagonal, zeroes elsewhere.
    pub open spec fn is_identity(self) -> bool {
        self.m@ == identity_bits()
    }

    /// The identity matrix.
    pub fn identity() -> (r: Mat4)
        ensures
            r.is_identity(),
    {
        let m: [u32; 16] = [
            ONE_BITS, 0, 0, 0,
            0, ONE_BITS, 0, 0,
            0, 0, ONE_BITS, 0,
            0, 0, 0, ONE_BITS,
        ];
        let r = Mat4 { m };
        proof {
            assert(r.m@ =~= identity_bits());
        }
        r
    }
}

/// The column-major bit patterns of the 4x4 identity matrix.
pub open spec fn identity_bits() -> Seq<u32> {
    seq![
        ONE_BITS, 0, 0, 0,
        0, ONE_BITS, 0, 0,
        0, 0, ONE_BITS, 0,
        0, 0, 0, ONE_BITS,
    ]
}

/// A triple of 32-bit float bit patterns (a position, a normal, a color).
#[derive(Debug, Clone, Copy, PartialEq, Eq)]
pub struct Vec3Bits {
    pub x: u32,
    pub y: u32,
    pub z: u32,
}

impl View for Vec3Bits {
    type V = Seq<u32>;

    open spec fn view(&self) -> Seq<u32> {
        seq![self.x, self.y, self.z]
    }
}

/// A pair of 32-bit float bit patterns (a texture coordinate).
#[derive(Debug, Clone, Copy, PartialEq, Eq)]
pub struct Vec2Bits {
    pub x: u32,
    pub y: u32,
}

impl View for Vec2Bits {
    type V = Seq<u32>;

    open spec fn view(&self) -> Seq<u32> {
        seq![self.x, self.y]
    }
}

} // verus!
