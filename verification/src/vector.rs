//! Three-component vectors and colours.
use vstd::prelude::*;

verus! {

/// A vector of three mathematical integers: what a [`Vec3`] stands for.
pub struct SpecVec3 {
    pub x: int,
    pub y: int,
    pub z: int,
}

impl SpecVec3 {
    /// Each component multiplied by `k`.
    pub open spec fn times(self, k: int) -> SpecVec3 {
        SpecVec3 { x: self.x * k, y: self.y * k, z: self.z * k }
    }

    /// Each component increased by `d`.
    pub open spec fn shifted(self, d: int) -> SpecVec3 {
        SpecVec3 { x: self.x + d, y: self.y + d, z: self.z + d }
    }

    /// Whether this is the zero vector.
    pub open spec fn is_zero(self) -> bool {
        self.x == 0 && self.y == 0 && self.z == 0
    }

    /// Whether every component is the fixed-point form of a number strictly
    /// between -`bound` and `bound`.
    pub open spec fn within(self, bound: int) -> bool {
        &&& -bound < self.x < bound
        &&& -bound < self.y < bound
        &&& -bound < self.z < bound
    }

    /// Whether every component can be held in an `i64`.
    pub open spec fn fits(self) -> bool {
        &&& i64::MIN <= self.x <= i64::MAX
        &&& i64::MIN <= self.y <= i64::MAX
        &&& i64::MIN <= self.z <= i64::MAX
    }
}

/// A vector of three fixed-point numbers.
#[derive(Clone, Copy, Debug, PartialEq, Eq, Structural)]
pub struct Vec3 {
    pub x: i64,
    pub y: i64,
    pub z: i64,
}

impl View for Vec3 {
    type V = SpecVec3;

    open spec fn view(&self) -> SpecVec3 {
        SpecVec3 { x: self.x as int, y: self.y as int, z: self.z as int }
    }
}

/// Builds a vector from its three components.
pub fn vec3(x: i64, y: i64, z: i64) -> (v: Vec3)
    ensures
        v == (Vec3 { x, y, z }),
{
    Vec3 { x, y, z }
}

/// An RGBA colour with 8 bits per channel.
#[derive(Clone, Copy, Debug, PartialEq, Eq, Structural)]
pub struct Color {
    pub r: u8,
    pub g: u8,
    pub b: u8,
    pub a: u8,
}

} // verus!
