//! A vector of three signed integers.

use vstd::prelude::*;

verus! {

/// A vector of three signed integers.
#[derive(Debug, Clone, Copy, PartialEq, Eq, Structural)]
pub struct IVec3 {
    pub x: isize,
    pub y: isize,
    pub z: isize,
}

impl IVec3 {
    /// The vector with every component at zero.
    pub fn zero() -> (v: IVec3)
        ensures
            v == (IVec3 { x: 0, y: 0, z: 0 }),
    {
        IVec3 { x: 0, y: 0, z: 0 }
    }

    /// The vector with the given components.
    pub fn new(x: isize, y: isize, z: isize) -> (v: IVec3)
        ensures
            v == (IVec3 { x, y, z }),
    {
        IVec3 { x, y, z }
    }

    /// Adds `rhs` to this vector, component by component.
    pub fn add_assign(&mut self, rhs: IVec3)
        requires
            isize::MIN <= old(self).x + rhs.x <= isize::MAX,
            isize::MIN <= old(self).y + rhs.y <= isize::MAX,
            isize::MIN <= old(self).z + rhs.z <= isize::MAX,
        ensures
            final(self).x == old(self).x + rhs.x,
            final(self).y == old(self).y + rhs.y,
            final(self).z == old(self).z + rhs.z,
    {
        self.x = self.x + rhs.x;
        self.y = self.y + rhs.y;
        self.z = self.z + rhs.z;
    }
}

impl core::ops::Add<IVec3> for IVec3 {
    type Output = IVec3;

    /// The sum, component by component.
    fn add(self, rhs: IVec3) -> (v: IVec3) {
        IVec3 { x: self.x + rhs.x, y: self.y + rhs.y, z: self.z + rhs.z }
    }
}

impl vstd::std_specs::ops::AddSpecImpl<IVec3> for IVec3 {
    open spec fn obeys_add_spec() -> bool {
        true
    }

    open spec fn add_req(self, rhs: IVec3) -> bool {
        &&& isize::MIN <= self.x + rhs.x <= isize::MAX
        &&& isize::MIN <= self.y + rhs.y <= isize::MAX
        &&& isize::MIN <= self.z + rhs.z <= isize::MAX
    }

    open spec fn add_spec(self, rhs: IVec3) -> IVec3 {
        IVec3 {
            x: (self.x + rhs.x) as isize,
            y: (self.y + rhs.y) as isize,
            z: (self.z + rhs.z) as isize,
        }
    }
}

impl core::ops::Sub<IVec3> for IVec3 {
    type Output = IVec3;

    /// The difference, component by component.
    fn sub(self, rhs: IVec3) -> (v: IVec3) {
        IVec3 { x: self.x - rhs.x, y: self.y - rhs.y, z: self.z - rhs.z }
    }
}

impl vstd::std_specs::ops::SubSpecImpl<IVec3> for IVec3 {
    open spec fn obeys_sub_spec() -> bool {
        true
    }

    open spec fn sub_req(self, rhs: IVec3) -> bool {
        &&& isize::MIN <= self.x - rhs.x <= isize::MAX
        &&& isize::MIN <= self.y - rhs.y <= isize::MAX
        &&& isize::MIN <= self.z - rhs.z <= isize::MAX
    }

    open spec fn sub_spec(self, rhs: IVec3) -> IVec3 {
        IVec3 {
            x: (self.x - rhs.x) as isize,
            y: (self.y - rhs.y) as isize,
            z: (self.z - rhs.z) as isize,
        }
    }
}

} // verus!
