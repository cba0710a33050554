//! A size in two unsigned integers.

use vstd::prelude::*;

verus! {

/// A size in two unsigned integers.
#[derive(Debug, Clone, Copy, PartialEq, Eq, Structural)]
pub struct UDim2 {
    pub x: usize,
    pub y: usize,
}

impl UDim2 {
    /// The size with every component at zero.
    pub fn zero() -> (v: UDim2)
        ensures
            v == (UDim2 { x: 0, y: 0 }),
    {
        UDim2 { x: 0, y: 0 }
    }

    /// The number of cells in one layer: `x` times `y`.
    pub fn n(&self) -> (n: usize)
        requires
            self.x * self.y <= usize::MAX,
        ensures
            n == self.x * self.y,
    {
        self.x * self.y
    }
}

impl Default for UDim2 {
    /// The size with every component at zero.
    fn default() -> (v: UDim2)
        ensures
            v == (UDim2 { x: 0, y: 0 }),
    {
        UDim2 { x: 0, y: 0 }
    }
}

impl core::ops::Add<UDim2> for UDim2 {
    type Output = UDim2;

    /// The sum, component by component.
    fn add(self, rhs: UDim2) -> (v: UDim2) {
        UDim2 { x: self.x + rhs.x, y: self.y + rhs.y }
    }
}

impl vstd::std_specs::ops::AddSpecImpl<UDim2> for UDim2 {
    open spec fn obeys_add_spec() -> bool {
        true
    }

    open spec fn add_req(self, rhs: UDim2) -> bool {
        &&& self.x + rhs.x <= usize::MAX
        &&& self.y + rhs.y <= usize::MAX
    }

    open spec fn add_spec(self, rhs: UDim2) -> UDim2 {
        UDim2 { x: (self.x + rhs.x) as usize, y: (self.y + rhs.y) as usize }
    }
}

impl core::ops::Mul<UDim2> for UDim2 {
    type Output = UDim2;

    /// The product, component by component.
    fn mul(self, rhs: UDim2) -> (v: UDim2) {
        UDim2 { x: self.x * rhs.x, y: self.y * rhs.y }
    }
}

impl vstd::std_specs::ops::MulSpecImpl<UDim2> for UDim2 {
    open spec fn obeys_mul_spec() -> bool {
        true
    }

    open spec fn mul_req(self, rhs: UDim2) -> bool {
        &&& self.x * rhs.x <= usize::MAX
        &&& self.y * rhs.y <= usize::MAX
    }

    open spec fn mul_spec(self, rhs: UDim2) -> UDim2 {
        UDim2 { x: (self.x * rhs.x) as usize, y: (self.y * rhs.y) as usize }
    }
}

impl core::ops::Div<usize> for UDim2 {
    type Output = UDim2;

    /// Every component divided by `rhs`, rounded down.
    fn div(self, rhs: usize) -> (v: UDim2) {
        UDim2 { x: self.x / rhs, y: self.y / rhs }
    }
}

impl vstd::std_specs::ops::DivSpecImpl<usize> for UDim2 {
    open spec fn obeys_div_spec() -> bool {
        true
    }

    open spec fn div_req(self, rhs: usize) -> bool {
        rhs != 0
    }

    open spec fn div_spec(self, rhs: usize) -> UDim2 {
        UDim2 { x: self.x / rhs, y: self.y / rhs }
    }
}

} // verus!
