//! Value types for vectors, quaternions and matrices.
//!
//! Every component is an IEEE-754 single-precision value carried as its raw
//! `u32` bit pattern, so the types are plain data: contracts can speak about
//! every component exactly. The view of each type is the sequence of its
//! component patterns; matrices are stored column-major, as the GPU expects
//! them.

use vstd::prelude::*;

verus! {

/// A two-component vector of `f32` bit patterns.
#[derive(Clone, Copy, PartialEq, Eq, Structural, Debug)]
pub struct Vec2Bits {
    pub x: u32,
    pub y: u32,
}

/// A three-component vector of `f32` bit patterns.
#[derive(Clone, Copy, PartialEq, Eq, Structural, Debug)]
pub struct Vec3Bits {
    pub x: u32,
    pub y: u32,
    pub z: u32,
}

/// A quaternion of `f32` bit patterns (`x`, `y`, `z` imaginary, `w` real).
#[derive(Clone, Copy, PartialEq, Eq, Structural, Debug)]
pub struct QuatBits {
    pub x: u32,
    pub y: u32,
    pub z: u32,
    pub w: u32,
}

/// A 4x4 matrix of `f32` bit patterns in column-major order.
#[derive(Clone, Copy, Debug)]
pub struct Mat4Bits {
    pub m: [u32; 16],
}

impl View for Vec2Bits {
    type V = Seq<u32>;

    open spec fn view(&self) -> Seq<u32> {
        seq![self.x, self.y]
    }
}

impl View for Vec3Bits {
    type V = Seq<u32>;

    open spec fn view(&self) -> Seq<u32> {
        seq![self.x, self.y, self.z]
    }
}

impl View for QuatBits {
    type V = Seq<u32>;

    open spec fn view(&self) -> Seq<u32> {
        seq![self.x, self.y, self.z, self.w]
    }
}

impl View for Mat4Bits {
    type V = Seq<u32>;

    open spec fn view(&self) -> Seq<u32> {
        self.m@
    }
}

impl Vec2Bits {
    /// The zero vector.
    pub fn zero() -> (r: Vec2Bits)
        ensures
            r == (Vec2Bits { x: 0u32, y: 0u32 }),
    {
        Vec2Bits { x: 0, y: 0 }
    }

    /// The all-ones vector (`(1.0, 1.0)`).
    pub fn one() -> (r: Vec2Bits)
        ensures
            r == (Vec2Bits { x: crate::fbits::F32_ONE, y: crate::fbits::F32_ONE }),
    {
        Vec2Bits { x: crate::fbits::F32_ONE, y: crate::fbits::F32_ONE }
    }
}

impl Vec3Bits {
    /// The zero vector.
    pub fn zero() -> (r: Vec3Bits)
        ensures
            r == (Vec3Bits { x: 0u32, y: 0u32, z: 0u32 }),
    {
        Vec3Bits { x: 0, y: 0, z: 0 }
    }

    /// The all-ones vector (`(1.0, 1.0, 1.0)`).
    pub fn one() -> (r: Vec3Bits)
        ensures
            r == (Vec3Bits {
                x: crate::fbits::F32_ONE,
                y: crate::fbits::F32_ONE,
                z: crate::fbits::F32_ONE,
            }),
    {
        Vec3Bits {
            x: crate::fbits::F32_ONE,
            y: crate::fbits::F32_ONE,
            z: crate::fbits::F32_ONE,
        }
    }
}

impl QuatBits {
    /// The identity rotation (`(0, 0, 0, 1.0)`).
    pub fn identity() -> (r: QuatBits)
        ensures
            r == (QuatBits { x: 0u32, y: 0u32, z: 0u32, w: crate::fbits::F32_ONE }),
    {
        QuatBits { x: 0, y: 0, z: 0, w: crate::fbits::F32_ONE }
    }
}

} // verus!
