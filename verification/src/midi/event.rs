//! The events that a track holds.

use vstd::prelude::*;

verus! {

/// One decoded event of a track.
#[derive(Debug, PartialEq)]
pub enum MidiEvent {
    /// A key goes down.
    NoteOn { channel: u8, pitch: u8, velocity: u8 },
    /// A key is released.
    NoteOff { channel: u8, pitch: u8, velocity: u8 },
    /// A controller takes a new value.
    ControllerChange { channel: u8, controller: u8, value: u8 },
    /// A channel switches to another preset.
    ProgramChange { channel: u8, preset: u8 },
    /// Pressure on a whole channel.
    ChannelPressure { channel: u8, pressure: u8 },
    /// The pitch wheel moves.
    PitchBend { channel: u8, bend_lsb: u8, position_msb: u8 },
    /// A system-exclusive message.
    SysEx { data: Vec<u8> },
    /// Position within the song, in beats.
    SongPosition { position_lsb: u8, position_msb: u8 },
    /// Selects a song.
    SongSelect { song_number: u8 },
    /// Selects a bus.
    BusSelect { bus_number: u8 },
    /// Asks instruments to tune.
    TuneRequest,
    /// One tick of the timing clock.
    TimingTick,
    /// Start playing from the beginning.
    StartSong,
    /// Go on playing.
    ContinueSong,
    /// Stop playing.
    StopSong,
    /// The sender is still there.
    ActiveSensing,
    /// Free text.
    Text { text: String },
    /// A copyright notice.
    Copyright { text: String },
    /// A syllable or line of lyrics.
    Lyrics { text: String },
    /// A named point in the song.
    Marker { text: String },
    /// The name of the track.
    TrackName { name: String },
    /// The name of the instrument.
    InstrumentName { name: String },
    /// The name of the device.
    DeviceName { name: String },
    /// The port the track is meant for.
    MidiPort { port: u8 },
    /// The track ends here.
    EndOfTrack,
    /// The length of a quarter note, in microseconds, from here on.
    SetTempo { microseconds_per_quarter_note: u32 },
    /// The time at which the track starts.
    SMTPEOffset { hh: u8, mm: u8, ss: u8, fr: u8, ff: u8 },
    /// The time signature, as four raw bytes.
    TimeSignature { nn: u8, dd: u8, cc: u8, bb: u8 },
    /// The key signature, as two raw bytes.
    KeySignature { sf: u8, mi: u8 },
    /// A meta event of a type that has no variant of its own, kept as it was found.
    UnknownMetaMessage { meta_type: u8, data: Vec<u8> },
}

/// What an event holds, with every byte vector as a sequence of bytes and
/// every string as a sequence of characters.
pub enum MidiEventView {
    NoteOn { channel: u8, pitch: u8, velocity: u8 },
    NoteOff { channel: u8, pitch: u8, velocity: u8 },
    ControllerChange { channel: u8, controller: u8, value: u8 },
    ProgramChange { channel: u8, preset: u8 },
    ChannelPressure { channel: u8, pressure: u8 },
    PitchBend { channel: u8, bend_lsb: u8, position_msb: u8 },
    SysEx { data: Seq<u8> },
    SongPosition { position_lsb: u8, position_msb: u8 },
    SongSelect { song_number: u8 },
    BusSelect { bus_number: u8 },
    TuneRequest,
    TimingTick,
    StartSong,
    ContinueSong,
    StopSong,
    ActiveSensing,
    Text { text: Seq<char> },
    Copyright { text: Seq<char> },
    Lyrics { text: Seq<char> },
    Marker { text: Seq<char> },
    TrackName { name: Seq<char> },
    InstrumentName { name: Seq<char> },
    DeviceName { name: Seq<char> },
    MidiPort { port: u8 },
    EndOfTrack,
    SetTempo { microseconds_per_quarter_note: u32 },
    SMTPEOffset { hh: u8, mm: u8, ss: u8, fr: u8, ff: u8 },
    TimeSignature { nn: u8, dd: u8, cc: u8, bb: u8 },
    KeySignature { sf: u8, mi: u8 },
    UnknownMetaMessage { meta_type: u8, data: Seq<u8> },
}

impl View for MidiEvent {
    type V = MidiEventView;

    open spec fn view(&self) -> MidiEventView {
        match *self {
            MidiEvent::NoteOn { channel, pitch, velocity } => MidiEventView::NoteOn {
                channel,
                pitch,
                velocity,
            },
            MidiEvent::NoteOff { channel, pitch, velocity } => MidiEventView::NoteOff {
                channel,
                pitch,
                velocity,
            },
            MidiEvent::ControllerChange { channel, controller, value } => MidiEventView::ControllerChange {
                channel,
                controller,
                value,
            },
            MidiEvent::ProgramChange { channel, preset } => MidiEventView::ProgramChange {
                channel,
                preset,
            },
            MidiEvent::ChannelPressure { channel, pressure } => MidiEventView::ChannelPressure {
                channel,
                pressure,
            },
            MidiEvent::PitchBend { channel, bend_lsb, position_msb } => MidiEventView::PitchBend {
                channel,
                bend_lsb,
                position_msb,
            },
            MidiEvent::SysEx { data } => MidiEventView::SysEx { data: data@ },
            MidiEvent::SongPosition { position_lsb, position_msb } => MidiEventView::SongPosition {
                position_lsb,
                position_msb,
            },
            MidiEvent::SongSelect { song_number } => MidiEventView::SongSelect { song_number },
            MidiEvent::BusSelect { bus_number } => MidiEventView::BusSelect { bus_number },
            MidiEvent::TuneRequest => MidiEventView::TuneRequest,
            MidiEvent::TimingTick => MidiEventView::TimingTick,
            MidiEvent::StartSong => MidiEventView::StartSong,
            MidiEvent::ContinueSong => MidiEventView::ContinueSong,
            MidiEvent::StopSong => MidiEventView::StopSong,
            MidiEvent::ActiveSensing => MidiEventView::ActiveSensing,
            MidiEvent::Text { text } => MidiEventView::Text { text: text@ },
            MidiEvent::Copyright { text } => MidiEventView::Copyright { text: text@ },
            MidiEvent::Lyrics { text } => MidiEventView::Lyrics { text: text@ },
            MidiEvent::Marker { text } => MidiEventView::Marker { text: text@ },
            MidiEvent::TrackName { name } => MidiEventView::TrackName { name: name@ },
            MidiEvent::InstrumentName { name } => MidiEventView::InstrumentName { name: name@ },
            MidiEvent::DeviceName { name } => MidiEventView::DeviceName { name: name@ },
            MidiEvent::MidiPort { port } => MidiEventView::MidiPort { port },
            MidiEvent::EndOfTrack => MidiEventView::EndOfTrack,
            MidiEvent::SetTempo { microseconds_per_quarter_note } => MidiEventView::SetTempo {
                microseconds_per_quarter_note,
            },
            MidiEvent::SMTPEOffset { hh, mm, ss, fr, ff } => MidiEventView::SMTPEOffset {
                hh,
                mm,
                ss,
                fr,
                ff,
            },
            MidiEvent::TimeSignature { nn, dd, cc, bb } => MidiEventView::TimeSignature {
                nn,
                dd,
                cc,
                bb,
            },
            MidiEvent::KeySignature { sf, mi } => MidiEventView::KeySignature { sf, mi },
            MidiEvent::UnknownMetaMessage { meta_type, data } => MidiEventView::UnknownMetaMessage {
                meta_type,
                data: data@,
            },
        }
    }
}

impl Clone for MidiEvent {
    /// A copy that holds the same values.
    fn clone(&self) -> (r: MidiEvent)
        ensures
            r@ == self@,
    {
        match self {
            MidiEvent::NoteOn { channel, pitch, velocity } => MidiEvent::NoteOn {
                channel: *channel,
                pitch: *pitch,
                velocity: *velocity,
            },
            MidiEvent::NoteOff { channel, pitch, velocity } => MidiEvent::NoteOff {
                channel: *channel,
                pitch: *pitch,
                velocity: *velocity,
            },
            MidiEvent::ControllerChange { channel, controller, value } => MidiEvent::ControllerChange {
                channel: *channel,
                controller: *controller,
                value: *value,
            },
            MidiEvent::ProgramChange { channel, preset } => MidiEvent::ProgramChange {
                channel: *channel,
                preset: *preset,
            },
            MidiEvent::ChannelPressure { channel, pressure } => MidiEvent::ChannelPressure {
                channel: *channel,
                pressure: *pressure,
            },
            MidiEvent::PitchBend { channel, bend_lsb, position_msb } => MidiEvent::PitchBend {
                channel: *channel,
                bend_lsb: *bend_lsb,
                position_msb: *position_msb,
            },
            MidiEvent::SysEx { data } => MidiEvent::SysEx { data: data.clone() },
            MidiEvent::SongPosition { position_lsb, position_msb } => MidiEvent::SongPosition {
                position_lsb: *position_lsb,
                position_msb: *position_msb,
            },
            MidiEvent::SongSelect { song_number } => MidiEvent::SongSelect {
                song_number: *song_number,
            },
            MidiEvent::BusSelect { bus_number } => MidiEvent::BusSelect { bus_number: *bus_number },
            MidiEvent::TuneRequest => MidiEvent::TuneRequest,
            MidiEvent::TimingTick => MidiEvent::TimingTick,
            MidiEvent::StartSong => MidiEvent::StartSong,
            MidiEvent::ContinueSong => MidiEvent::ContinueSong,
            MidiEvent::StopSong => MidiEvent::StopSong,
            MidiEvent::ActiveSensing => MidiEvent::ActiveSensing,
            MidiEvent::Text { text } => MidiEvent::Text { text: text.clone() },
            MidiEvent::Copyright { text } => MidiEvent::Copyright { text: text.clone() },
            MidiEvent::Lyrics { text } => MidiEvent::Lyrics { text: text.clone() },
            MidiEvent::Marker { text } => MidiEvent::Marker { text: text.clone() },
            MidiEvent::TrackName { name } => MidiEvent::TrackName { name: name.clone() },
            MidiEvent::InstrumentName { name } => MidiEvent::InstrumentName { name: name.clone() },
            MidiEvent::DeviceName { name } => MidiEvent::DeviceName { name: name.clone() },
            MidiEvent::MidiPort { port } => MidiEvent::MidiPort { port: *port },
            MidiEvent::EndOfTrack => MidiEvent::EndOfTrack,
            MidiEvent::SetTempo { microseconds_per_quarter_note } => MidiEvent::SetTempo {
                microseconds_per_quarter_note: *microseconds_per_quarter_note,
            },
            MidiEvent::SMTPEOffset { hh, mm, ss, fr, ff } => MidiEvent::SMTPEOffset {
                hh: *hh,
                mm: *mm,
                ss: *ss,
                fr: *fr,
                ff: *ff,
            },
            MidiEvent::TimeSignature { nn, dd, cc, bb } => MidiEvent::TimeSignature {
                nn: *nn,
                dd: *dd,
                cc: *cc,
                bb: *bb,
            },
            MidiEvent::KeySignature { sf, mi } => MidiEvent::KeySignature { sf: *sf, mi: *mi },
            MidiEvent::UnknownMetaMessage { meta_type, data } => MidiEvent::UnknownMetaMessage {
                meta_type: *meta_type,
                data: data.clone(),
            },
        }
    }
}

impl Default for MidiEvent {
    /// A silent note on the first channel.
    fn default() -> (r: MidiEvent)
        ensures
            r == (MidiEvent::NoteOn { channel: 0, pitch: 0, velocity: 0 }),
    {
        MidiEvent::NoteOn { channel: 0, pitch: 0, velocity: 0 }
    }
}

} // verus!
