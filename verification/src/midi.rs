//! Standard MIDI File decoding and playback.

pub mod byte_cursor;
pub mod event;
pub mod midi_song;
pub mod midi_parser;
pub mod play;
pub mod note_name;
