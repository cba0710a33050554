//! A vector of three unsigned integers.

use vstd::prelude::*;

verus! {

/// A vector of three unsigned integers.
#[derive(Debug, Clone, Copy, PartialEq, Eq, Structural)]
pub struct UVec3 {
    pub x: usize,
    pub y: usize,
    pub z: usize,
}

impl UVec3 {
    /// The vector with the given components.
    pub fn new(x: usize, y: usize, z: usize) -> (v: UVec3)
        ensures
            v == (UVec3 { x, y, z }),
    {
        UVec3 { x, y, z }
    }

    /// The vector with every component at `u`.
    pub fn all(u: usize) -> (v: UVec3)
        ensures
            v == (UVec3 { x: u, y: u, z: u }),
    {
        UVec3 { x: u, y: u, z: u }
    }
}

impl core::ops::Add<UVec3> for UVec3 {
    type Output = UVec3;

    /// The sum, component by component.
    fn add(self, rhs: UVec3) -> (v: UVec3) {
        UVec3 { x: self.x + rhs.x, y: self.y + rhs.y, z: self.z + rhs.z }
    }
}

impl vstd::std_specs::ops::AddSpecImpl<UVec3> for UVec3 {
    open spec fn obeys_add_spec() -> bool {
        true
    }

    open spec fn add_req(self, rhs: UVec3) -> bool {
        &&& self.x + rhs.x <= usize::MAX
        &&& self.y + rhs.y <= usize::MAX
        &&& self.z + rhs.z <= usize::MAX
    }

    open spec fn add_spec(self, rhs: UVec3) -> UVec3 {
        UVec3 {
            x: (self.x + rhs.x) as usize,
            y: (self.y + rhs.y) as usize,
            z: (self.z + rhs.z) as usize,
        }
    }
}

impl core::ops::Sub<UVec3> for UVec3 {
    type Output = UVec3;

    /// The difference in `x` and `y`; `z` is `self.y - rhs.z`.
    fn sub(self, rhs: UVec3) -> (v: UVec3) {
        UVec3 { x: self.x - rhs.x, y: self.y - rhs.y, z: self.y - rhs.z }
    }
}

impl vstd::std_specs::ops::SubSpecImpl<UVec3> for UVec3 {
    open spec fn obeys_sub_spec() -> bool {
        true
    }

    open spec fn sub_req(self, rhs: UVec3) -> bool {
        &&& 0 <= self.x - rhs.x
        &&& 0 <= self.y - rhs.y
        &&& 0 <= self.y - rhs.z
    }

    open spec fn sub_spec(self, rhs: UVec3) -> UVec3 {
        UVec3 {
            x: (self.x - rhs.x) as usize,
            y: (self.y - rhs.y) as usize,
            z: (self.y - rhs.z) as usize,
        }
    }
}

impl core::ops::BitXor<UVec3> for UVec3 {
    type Output = UVec3;

    /// The exclusive or, component by component.
    fn bitxor(self, rhs: UVec3) -> (v: UVec3) {
        UVec3 { x: self.x ^ rhs.x, y: self.y ^ rhs.y, z: self.z ^ rhs.z }
    }
}

impl vstd::std_specs::ops::BitXorSpecImpl<UVec3> for UVec3 {
    open spec fn obeys_bitxor_spec() -> bool {
        true
    }

    open spec fn bitxor_req(self, rhs: UVec3) -> bool {
        true
    }

    open spec fn bitxor_spec(self, rhs: UVec3) -> UVec3 {
        UVec3 { x: self.x ^ rhs.x, y: self.y ^ rhs.y, z: self.z ^ rhs.z }
    }
}

} // verus!
