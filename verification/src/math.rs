//! Plain 2D/3D vector and rectangle value types.
//!
//! The engine core never computes with coordinates; it only carries them from
//! the caller into vertex and mesh data. A coordinate is therefore held as the
//! raw 32-bit pattern of an IEEE-754 single-precision value: the core moves
//! these patterns around unchanged, and the GPU shell reinterprets them as
//! floating-point numbers when it uploads buffers.

use vstd::prelude::*;

verus! {

/// The bit pattern of the `f32` value `0.0`.
pub const F32_ZERO: u32 = 0x0000_0000;

/// The bit pattern of the `f32` value `1.0`.
pub const F32_ONE: u32 = 0x3F80_0000;

/// The bit pattern of the `f32` value `0.5`.
pub const F32_HALF: u32 = 0x3F00_0000;

/// The bit pattern of the `f32` value `-0.5`.
pub const F32_NEG_HALF: u32 = 0xBF00_0000;

/// A two-component vector. Each component is the bit pattern of an `f32`.
#[derive(Clone, Copy, Debug, PartialEq, Eq, Structural)]
pub struct Vec2 {
    pub x: u32,
    pub y: u32,
}

impl Vec2 {
    pub fn new(x: u32, y: u32) -> (v: Vec2)
        ensures
            v == (Vec2 { x, y }),
    {
        Vec2 { x, y }
    }

    /// Both components set to the same value.
    pub fn splat(v: u32) -> (r: Vec2)
        ensures
            r == (Vec2 { x: v, y: v }),
    {
        Vec2::new(v, v)
    }

    /// The origin: both components hold the pattern of `0.0`.
    pub fn zero() -> (r: Vec2)
        ensures
            r == (Vec2 { x: 0u32, y: 0u32 }),
    {
        Vec2::splat(0)
    }
}

/// A three-component vector. Each component is the bit pattern of an `f32`.
#[derive(Clone, Copy, Debug, PartialEq, Eq, Structural)]
pub struct Vec3 {
    pub x: u32,
    pub y: u32,
    pub z: u32,
}

impl Vec3 {
    pub fn new(x: u32, y: u32, z: u32) -> (v: Vec3)
        ensures
            v == (Vec3 { x, y, z }),
    {
        Vec3 { x, y, z }
    }

    /// All three components set to the same value.
    pub fn splat(v: u32) -> (r: Vec3)
        ensures
            r == (Vec3 { x: v, y: v, z: v }),
    {
        Vec3::new(v, v, v)
    }

    /// The origin: all components hold the pattern of `0.0`.
    pub fn zero() -> (r: Vec3)
        ensures
            r == (Vec3 { x: 0u32, y: 0u32, z: 0u32 }),
    {
        Vec3::splat(0)
    }
}

/// An axis-aligned rectangle, given by two opposite corners.
#[derive(Clone, Copy, Debug, PartialEq, Eq, Structural)]
pub struct Rect {
    pub min: Vec2,
    pub max: Vec2,
}

impl Rect {
    pub fn new(min: Vec2, max: Vec2) -> (r: Rect)
        ensures
            r == (Rect { min, max }),
    {
        Rect { min, max }
    }
}

} // verus!
