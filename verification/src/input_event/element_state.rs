//! Whether a key or button is down.

use vstd::prelude::*;

verus! {

/// Whether a key or button is down.
#[derive(Debug, Clone, Copy, PartialEq, Eq, Structural)]
pub enum ElementState {
    Pressed,
    Released,
}

impl ElementState {
    /// Whether the element is down.
    pub fn is_pressed(self) -> (r: bool)
        ensures
            r == (self == ElementState::Pressed),
    {
        match self {
            ElementState::Pressed => true,
            ElementState::Released => false,
        }
    }
}

impl Default for ElementState {
    /// Down.
    fn default() -> (r: ElementState)
        ensures
            r == ElementState::Pressed,
    {
        ElementState::Pressed
    }
}

} // verus!
