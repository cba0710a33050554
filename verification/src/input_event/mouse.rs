//! The buttons of a mouse.

use super::element_state::ElementState;
use vstd::prelude::*;

verus! {

/// One of the three buttons of a mouse.
#[derive(Debug, Clone, Copy, PartialEq, Eq, Structural)]
pub enum MouseButton {
    Left,
    Right,
    Middle,
}

impl Default for MouseButton {
    /// The left button.
    fn default() -> (r: MouseButton)
        ensures
            r == MouseButton::Left,
    {
        MouseButton::Left
    }
}

/// The state of each button of a mouse.
#[derive(Debug, Clone, Copy, PartialEq, Eq, Structural)]
pub struct MouseButtonsInputState {
    pub left: ElementState,
    pub right: ElementState,
    pub middle: ElementState,
}

impl MouseButtonsInputState {
    /// The state that is kept for `button`.
    pub open spec fn of(self, button: MouseButton) -> ElementState {
        match button {
            MouseButton::Left => self.left,
            MouseButton::Right => self.right,
            MouseButton::Middle => self.middle,
        }
    }

    /// No button is down.
    pub fn new() -> (r: MouseButtonsInputState)
        ensures
            forall|button: MouseButton| r.of(button) == ElementState::Released,
    {
        MouseButtonsInputState {
            left: ElementState::Released,
            right: ElementState::Released,
            middle: ElementState::Released,
        }
    }

    /// The state of one button.
    pub fn get(&self, button: MouseButton) -> (r: ElementState)
        ensures
            r == self.of(button),
    {
        match button {
            MouseButton::Left => self.left,
            MouseButton::Right => self.right,
            MouseButton::Middle => self.middle,
        }
    }

    /// Sets the state of one button and leaves the others as they are.
    pub fn set(&mut self, button: MouseButton, state: ElementState)
        ensures
            final(self).of(button) == state,
            forall|other: MouseButton| other != button ==> final(self).of(other) == old(self).of(other),
    {
        match button {
            MouseButton::Left => self.left = state,
            MouseButton::Right => self.right = state,
            MouseButton::Middle => self.middle = state,
        }
    }
}

impl Default for MouseButtonsInputState {
    /// Every button is down, as `ElementState` is by default.
    fn default() -> (r: MouseButtonsInputState)
        ensures
            forall|button: MouseButton| r.of(button) == ElementState::Pressed,
    {
        MouseButtonsInputState {
            left: ElementState::Pressed,
            right: ElementState::Pressed,
            middle: ElementState::Pressed,
        }
    }
}

} // verus!
