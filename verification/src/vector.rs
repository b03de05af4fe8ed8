//! The two small vector types that carry sizes, texture coordinates and
//! colours.
//!
//! A component is kept as the bit pattern of an IEEE 754 single-precision
//! number, in a `u32`. The builders never compute with a component: they store
//! it and hand it on, and a bit pattern does that without loss. A caller turns
//! a number into its pattern with `f32::to_bits` and back with
//! `f32::from_bits`.

use vstd::prelude::*;

verus! {

/// The bit pattern of the single-precision number 0.0.
pub const ZERO: u32 = 0;

/// The bit pattern of the single-precision number 1.0.
pub const ONE: u32 = 0x3F80_0000;

/// Two components: a size, or a point in texture space.
#[derive(Copy, Clone, Debug, PartialEq, Eq, Structural)]
pub struct ImVec2 {
    pub x: u32,
    pub y: u32,
}

/// Four components: a colour as red, green, blue and alpha.
#[derive(Copy, Clone, Debug, PartialEq, Eq, Structural)]
pub struct ImVec4 {
    pub x: u32,
    pub y: u32,
    pub z: u32,
    pub w: u32,
}

impl ImVec2 {
    /// The vector with the given components.
    pub fn new(x: u32, y: u32) -> (v: Self)
        ensures
            v == (ImVec2 { x, y }),
    {
        ImVec2 { x, y }
    }
}

impl ImVec4 {
    /// The vector with the given components.
    pub fn new(x: u32, y: u32, z: u32, w: u32) -> (v: Self)
        ensures
            v == (ImVec4 { x, y, z, w }),
    {
        ImVec4 { x, y, z, w }
    }
}

} // verus!
