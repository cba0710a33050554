//! The state of keys and buttons.

pub mod element_state;
pub mod mouse;
