//! A vector of two signed integers.

use vstd::prelude::*;

verus! {

/// A vector of two signed integers.
#[derive(Debug, Clone, Copy, PartialEq, Eq, Structural)]
pub struct IVec2 {
    pub x: isize,
    pub y: isize,
}

impl IVec2 {
    /// The vector with the given components.
    pub fn new(x: isize, y: isize) -> (v: IVec2)
        ensures
            v == (IVec2 { x, y }),
    {
        IVec2 { x, y }
    }

    /// Adds `rhs` to this vector, component by component.
    pub fn add_assign(&mut self, rhs: IVec2)
        requires
            isize::MIN <= old(self).x + rhs.x <= isize::MAX,
            isize::MIN <= old(self).y + rhs.y <= isize::MAX,
        ensures
            final(self).x == old(self).x + rhs.x,
            final(self).y == old(self).y + rhs.y,
    {
        self.x = self.x + rhs.x;
        self.y = self.y + rhs.y;
    }
}

impl core::ops::Add<IVec2> for IVec2 {
    type Output = IVec2;

    /// The sum, component by component.
    fn add(self, rhs: IVec2) -> (v: IVec2) {
        IVec2 { x: self.x + rhs.x, y: self.y + rhs.y }
    }
}

impl vstd::std_specs::ops::AddSpecImpl<IVec2> for IVec2 {
    open spec fn obeys_add_spec() -> bool {
        true
    }

    open spec fn add_req(self, rhs: IVec2) -> bool {
        &&& isize::MIN <= self.x + rhs.x <= isize::MAX
        &&& isize::MIN <= self.y + rhs.y <= isize::MAX
    }

    open spec fn add_spec(self, rhs: IVec2) -> IVec2 {
        IVec2 { x: (self.x + rhs.x) as isize, y: (self.y + rhs.y) as isize }
    }
}

impl core::ops::Sub<IVec2> for IVec2 {
    type Output = IVec2;

    /// The difference, component by component.
    fn sub(self, rhs: IVec2) -> (v: IVec2) {
        IVec2 { x: self.x - rhs.x, y: self.y - rhs.y }
    }
}

impl vstd::std_specs::ops::SubSpecImpl<IVec2> for IVec2 {
    open spec fn obeys_sub_spec() -> bool {
        true
    }

    open spec fn sub_req(self, rhs: IVec2) -> bool {
        &&& isize::MIN <= self.x - rhs.x <= isize::MAX
        &&& isize::MIN <= self.y - rhs.y <= isize::MAX
    }

    open spec fn sub_spec(self, rhs: IVec2) -> IVec2 {
        IVec2 { x: (self.x - rhs.x) as isize, y: (self.y - rhs.y) as isize }
    }
}

} // verus!
