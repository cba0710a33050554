//! A vector of four unsigned integers.

use vstd::prelude::*;

verus! {

/// A vector of four unsigned integers.
#[derive(Debug, Clone, Copy, PartialEq, Eq, Structural)]
pub struct UVec4 {
    pub x: usize,
    pub y: usize,
    pub z: usize,
    pub w: usize,
}

impl UVec4 {
    /// The vector with every component at `u`.
    pub fn all(u: usize) -> (v: UVec4)
        ensures
            v == (UVec4 { x: u, y: u, z: u, w: u }),
    {
        UVec4 { x: u, y: u, z: u, w: u }
    }
}

impl Default for UVec4 {
    /// The vector with every component at zero.
    fn default() -> (v: UVec4)
        ensures
            v == (UVec4 { x: 0, y: 0, z: 0, w: 0 }),
    {
        UVec4 { x: 0, y: 0, z: 0, w: 0 }
    }
}

impl core::ops::Add<UVec4> for UVec4 {
    type Output = UVec4;

    /// The sum, component by component.
    fn add(self, rhs: UVec4) -> (v: UVec4) {
        UVec4 { x: self.x + rhs.x, y: self.y + rhs.y, z: self.z + rhs.z, w: self.w + rhs.w }
    }
}

impl vstd::std_specs::ops::AddSpecImpl<UVec4> for UVec4 {
    open spec fn obeys_add_spec() -> bool {
        true
    }

    open spec fn add_req(self, rhs: UVec4) -> bool {
        &&& self.x + rhs.x <= usize::MAX
        &&& self.y + rhs.y <= usize::MAX
        &&& self.z + rhs.z <= usize::MAX
        &&& self.w + rhs.w <= usize::MAX
    }

    open spec fn add_spec(self, rhs: UVec4) -> UVec4 {
        UVec4 {
            x: (self.x + rhs.x) as usize,
            y: (self.y + rhs.y) as usize,
            z: (self.z + rhs.z) as usize,
            w: (self.w + rhs.w) as usize,
        }
    }
}

impl core::ops::Sub<UVec4> for UVec4 {
    type Output = UVec4;

    /// The difference in `x`, `y` and `w`; `z` is `self.y - rhs.z`.
    fn sub(self, rhs: UVec4) -> (v: UVec4) {
        UVec4 { x: self.x - rhs.x, y: self.y - rhs.y, z: self.y - rhs.z, w: self.w - rhs.w }
    }
}

impl vstd::std_specs::ops::SubSpecImpl<UVec4> for UVec4 {
    open spec fn obeys_sub_spec() -> bool {
        true
    }

    open spec fn sub_req(self, rhs: UVec4) -> bool {
        &&& 0 <= self.x - rhs.x
        &&& 0 <= self.y - rhs.y
        &&& 0 <= self.y - rhs.z
        &&& 0 <= self.w - rhs.w
    }

    open spec fn sub_spec(self, rhs: UVec4) -> UVec4 {
        UVec4 {
            x: (self.x - rhs.x) as usize,
            y: (self.y - rhs.y) as usize,
            z: (self.y - rhs.z) as usize,
            w: (self.w - rhs.w) as usize,
        }
    }
}

impl core::ops::BitXor<UVec4> for UVec4 {
    type Output = UVec4;

    /// The exclusive or, component by component.
    fn bitxor(self, rhs: UVec4) -> (v: UVec4) {
        UVec4 { x: self.x ^ rhs.x, y: self.y ^ rhs.y, z: self.z ^ rhs.z, w: self.w ^ rhs.w }
    }
}

impl vstd::std_specs::ops::BitXorSpecImpl<UVec4> for UVec4 {
    open spec fn obeys_bitxor_spec() -> bool {
        true
    }

    open spec fn bitxor_req(self, rhs: UVec4) -> bool {
        true
    }

    open spec fn bitxor_spec(self, rhs: UVec4) -> UVec4 {
        UVec4 { x: self.x ^ rhs.x, y: self.y ^ rhs.y, z: self.z ^ rhs.z, w: self.w ^ rhs.w }
    }
}

} // verus!
