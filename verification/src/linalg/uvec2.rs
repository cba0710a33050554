//! A vector of two unsigned integers.

use vstd::prelude::*;

verus! {

/// A vector of two unsigned integers.
#[derive(Debug, Clone, Copy, PartialEq, Eq, Structural)]
pub struct UVec2 {
    pub x: usize,
    pub y: usize,
}

impl UVec2 {
    /// The vector with every component at `u`.
    pub fn all(u: usize) -> (v: UVec2)
        ensures
            v == (UVec2 { x: u, y: u }),
    {
        UVec2 { x: u, y: u }
    }
}

impl Default for UVec2 {
    /// The vector with every component at zero.
    fn default() -> (v: UVec2)
        ensures
            v == (UVec2 { x: 0, y: 0 }),
    {
        UVec2 { x: 0, y: 0 }
    }
}

impl core::ops::Add<UVec2> for UVec2 {
    type Output = UVec2;

    /// The sum, component by component.
    fn add(self, rhs: UVec2) -> (v: UVec2) {
        UVec2 { x: self.x + rhs.x, y: self.y + rhs.y }
    }
}

impl vstd::std_specs::ops::AddSpecImpl<UVec2> for UVec2 {
    open spec fn obeys_add_spec() -> bool {
        true
    }

    open spec fn add_req(self, rhs: UVec2) -> bool {
        &&& self.x + rhs.x <= usize::MAX
        &&& self.y + rhs.y <= usize::MAX
    }

    open spec fn add_spec(self, rhs: UVec2) -> UVec2 {
        UVec2 { x: (self.x + rhs.x) as usize, y: (self.y + rhs.y) as usize }
    }
}

impl core::ops::Sub<UVec2> for UVec2 {
    type Output = UVec2;

    /// The difference, component by component.
    fn sub(self, rhs: UVec2) -> (v: UVec2) {
        UVec2 { x: self.x - rhs.x, y: self.y - rhs.y }
    }
}

impl vstd::std_specs::ops::SubSpecImpl<UVec2> for UVec2 {
    open spec fn obeys_sub_spec() -> bool {
        true
    }

    open spec fn sub_req(self, rhs: UVec2) -> bool {
        &&& 0 <= self.x - rhs.x
        &&& 0 <= self.y - rhs.y
    }

    open spec fn sub_spec(self, rhs: UVec2) -> UVec2 {
        UVec2 { x: (self.x - rhs.x) as usize, y: (self.y - rhs.y) as usize }
    }
}

impl core::ops::BitXor<UVec2> for UVec2 {
    type Output = UVec2;

    /// The exclusive or, component by component.
    fn bitxor(self, rhs: UVec2) -> (v: UVec2) {
        UVec2 { x: self.x ^ rhs.x, y: self.y ^ rhs.y }
    }
}

impl vstd::std_specs::ops::BitXorSpecImpl<UVec2> for UVec2 {
    open spec fn obeys_bitxor_spec() -> bool {
        true
    }

    open spec fn bitxor_req(self, rhs: UVec2) -> bool {
        true
    }

    open spec fn bitxor_spec(self, rhs: UVec2) -> UVec2 {
        UVec2 { x: self.x ^ rhs.x, y: self.y ^ rhs.y }
    }
}

} // verus!
