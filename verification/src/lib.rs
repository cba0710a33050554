//! Building blocks for interactive media programs: a Standard MIDI File
//! decoder with a tick-accurate playback scheduler, and a handful of small
//! containers and integer geometry types that such programs share.

pub mod color;
pub mod input_event;
pub mod jar;
pub mod linalg;
pub mod midi;
pub mod noise;
pub mod pipe;
pub mod symbol_table;
