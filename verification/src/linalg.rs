//! Integer vectors, sizes and spans.

pub mod ivec2;
pub mod ivec3;
pub mod udim2;
pub mod udim3;
pub mod uvec2;
pub mod uvec3;
pub mod uvec4;
pub mod ispan2;
pub mod uspan;
pub mod uspan2;
