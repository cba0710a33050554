//! A rectangle between signed integer corners.

use vstd::prelude::*;

verus! {

/// The rectangle from `(x0, y0)` to `(x1, y1)`.
#[derive(Debug, Clone, Copy, PartialEq, Eq, Structural)]
pub struct ISpan2 {
    pub x0: isize,
    pub y0: isize,
    pub x1: isize,
    pub y1: isize,
}

impl ISpan2 {
    /// The width: `x1 - x0`.
    pub fn w(&self) -> (w: isize)
        requires
            isize::MIN <= self.x1 - self.x0 <= isize::MAX,
        ensures
            w == self.x1 - self.x0,
    {
        self.x1 - self.x0
    }

    /// The height: `y1 - y0`.
    pub fn h(&self) -> (h: isize)
        requires
            isize::MIN <= self.y1 - self.y0 <= isize::MAX,
        ensures
            h == self.y1 - self.y0,
    {
        self.y1 - self.y0
    }
}

impl Default for ISpan2 {
    /// The empty rectangle at the origin.
    fn default() -> (s: ISpan2)
        ensures
            s == (ISpan2 { x0: 0, y0: 0, x1: 0, y1: 0 }),
    {
        ISpan2 { x0: 0, y0: 0, x1: 0, y1: 0 }
    }
}

} // verus!
