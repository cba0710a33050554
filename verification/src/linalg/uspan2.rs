//! A rectangle between unsigned integer corners.

use super::udim2::UDim2;
use vstd::prelude::*;

verus! {

/// The rectangle from `(x0, y0)` to `(x1, y1)`.
#[derive(Debug, Clone, Copy, PartialEq, Eq, Structural)]
pub struct USpan2 {
    pub x0: usize,
    pub y0: usize,
    pub x1: usize,
    pub y1: usize,
}

impl USpan2 {
    /// The width: `x1 - x0`.
    pub fn w(&self) -> (w: usize)
        requires
            self.x0 <= self.x1,
        ensures
            w == self.x1 - self.x0,
    {
        self.x1 - self.x0
    }

    /// The height: `y1 - y0`.
    pub fn h(&self) -> (h: usize)
        requires
            self.y0 <= self.y1,
        ensures
            h == self.y1 - self.y0,
    {
        self.y1 - self.y0
    }

    /// The middle between the left and the right edge, rounded down.
    pub fn center_x(&self) -> (c: usize)
        requires
            self.x0 + self.x1 <= usize::MAX,
        ensures
            c == (self.x0 + self.x1) / 2,
    {
        (self.x0 + self.x1) / 2
    }

    /// The middle between the two other edges, rounded down.
    pub fn center_y(&self) -> (c: usize)
        requires
            self.y0 + self.y1 <= usize::MAX,
        ensures
            c == (self.y0 + self.y1) / 2,
    {
        (self.y0 + self.y1) / 2
    }

    /// The same rectangle measured from the other horizontal border of a
    /// window that is `window_height` high.
    pub fn screen_flipped(&self, window_height: usize) -> (s: USpan2)
        requires
            self.y0 <= window_height,
            self.y1 <= window_height,
        ensures
            s == (USpan2 {
                x0: self.x0,
                y0: (window_height - self.y1) as usize,
                x1: self.x1,
                y1: (window_height - self.y0) as usize,
            }),
    {
        USpan2 {
            x0: self.x0,
            y0: window_height - self.y1,
            x1: self.x1,
            y1: window_height - self.y0,
        }
    }

    /// Width and height as a size.
    pub fn dim(&self) -> (d: UDim2)
        requires
            self.x0 <= self.x1,
            self.y0 <= self.y1,
        ensures
            d == (UDim2 { x: (self.x1 - self.x0) as usize, y: (self.y1 - self.y0) as usize }),
    {
        UDim2 { x: self.w(), y: self.h() }
    }
}

impl Default for USpan2 {
    /// The empty rectangle at the origin.
    fn default() -> (s: USpan2)
        ensures
            s == (USpan2 { x0: 0, y0: 0, x1: 0, y1: 0 }),
    {
        USpan2 { x0: 0, y0: 0, x1: 0, y1: 0 }
    }
}

impl From<UDim2> for USpan2 {
    fn from(value: UDim2) -> (s: USpan2) {
        USpan2 { x0: 0, y0: 0, x1: value.x, y1: value.y }
    }
}

impl vstd::std_specs::convert::FromSpecImpl<UDim2> for USpan2 {
    open spec fn obeys_from_spec() -> bool {
        true
    }

    open spec fn from_spec(value: UDim2) -> USpan2 {
        USpan2 { x0: 0, y0: 0, x1: value.x, y1: value.y }
    }
}

} // verus!
