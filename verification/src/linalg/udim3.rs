//! A size in three unsigned integers.

use vstd::prelude::*;

verus! {

/// A size in three unsigned integers.
#[derive(Debug, Clone, Copy, PartialEq, Eq, Structural)]
pub struct UDim3 {
    pub x: usize,
    pub y: usize,
    pub z: usize,
}

impl UDim3 {
    /// The size with every component at zero.
    pub fn zero() -> (v: UDim3)
        ensures
            v == (UDim3 { x: 0, y: 0, z: 0 }),
    {
        UDim3 { x: 0, y: 0, z: 0 }
    }

    /// The number of cells in one layer: `x` times `y`.
    pub fn n(&self) -> (n: usize)
        requires
            self.x * self.y <= usize::MAX,
        ensures
            n == self.x * self.y,
    {
        self.x * self.y
    }
}

impl Default for UDim3 {
    /// The size with every component at zero.
    fn default() -> (v: UDim3)
        ensures
            v == (UDim3 { x: 0, y: 0, z: 0 }),
    {
        UDim3 { x: 0, y: 0, z: 0 }
    }
}

impl core::ops::Add<UDim3> for UDim3 {
    type Output = UDim3;

    /// The sum, component by component.
    fn add(self, rhs: UDim3) -> (v: UDim3) {
        UDim3 { x: self.x + rhs.x, y: self.y + rhs.y, z: self.z + rhs.z }
    }
}

impl vstd::std_specs::ops::AddSpecImpl<UDim3> for UDim3 {
    open spec fn obeys_add_spec() -> bool {
        true
    }

    open spec fn add_req(self, rhs: UDim3) -> bool {
        &&& self.x + rhs.x <= usize::MAX
        &&& self.y + rhs.y <= usize::MAX
        &&& self.z + rhs.z <= usize::MAX
    }

    open spec fn add_spec(self, rhs: UDim3) -> UDim3 {
        UDim3 {
            x: (self.x + rhs.x) as usize,
            y: (self.y + rhs.y) as usize,
            z: (self.z + rhs.z) as usize,
        }
    }
}

impl core::ops::Mul<UDim3> for UDim3 {
    type Output = UDim3;

    /// The product, component by component.
    fn mul(self, rhs: UDim3) -> (v: UDim3) {
        UDim3 { x: self.x * rhs.x, y: self.y * rhs.y, z: self.z * rhs.z }
    }
}

impl vstd::std_specs::ops::MulSpecImpl<UDim3> for UDim3 {
    open spec fn obeys_mul_spec() -> bool {
        true
    }

    open spec fn mul_req(self, rhs: UDim3) -> bool {
        &&& self.x * rhs.x <= usize::MAX
        &&& self.y * rhs.y <= usize::MAX
        &&& self.z * rhs.z <= usize::MAX
    }

    open spec fn mul_spec(self, rhs: UDim3) -> UDim3 {
        UDim3 {
            x: (self.x * rhs.x) as usize,
            y: (self.y * rhs.y) as usize,
            z: (self.z * rhs.z) as usize,
        }
    }
}

impl core::ops::Div<usize> for UDim3 {
    type Output = UDim3;

    /// Every component divided by `rhs`, rounded down.
    fn div(self, rhs: usize) -> (v: UDim3) {
        UDim3 { x: self.x / rhs, y: self.y / rhs, z: self.z / rhs }
    }
}

impl vstd::std_specs::ops::DivSpecImpl<usize> for UDim3 {
    open spec fn obeys_div_spec() -> bool {
        true
    }

    open spec fn div_req(self, rhs: usize) -> bool {
        rhs != 0
    }

    open spec fn div_spec(self, rhs: usize) -> UDim3 {
        UDim3 { x: self.x / rhs, y: self.y / rhs, z: self.z / rhs }
    }
}

} // verus!
