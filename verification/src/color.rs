//! Colours.

pub mod col32;
