//! The Standard MIDI File decoder: header chunk, track chunks, events.

use super::byte_cursor::be_u16_at;
use super::byte_cursor::be_u24_at;
use super::byte_cursor::be_u32_at;
use super::byte_cursor::has_bytes;
use super::byte_cursor::lemma_vlq_advances;
use super::byte_cursor::read_be_u16;
use super::byte_cursor::read_be_u32;
use super::byte_cursor::read_bytes;
use super::byte_cursor::read_u8;
use super::byte_cursor::read_var_len;
use super::byte_cursor::vlq_at;
use super::byte_cursor::DecodeError;
use super::event::MidiEvent;
use super::event::MidiEventView;
use super::midi_song::MidiSong;
use super::midi_song::MidiSongView;
use super::midi_song::MidiTrack;
use super::midi_song::MidiTrackView;
use vstd::prelude::*;
use vstd::slice::slice_subrange;
use vstd::utf8::decode_utf8;
use vstd::utf8::valid_utf8;

verus! {

/// The status byte that opens a meta event.
pub const META_STATUS: u8 = 0xFF;

/// How many data bytes follow the status of a channel voice message, or
/// `None` where the status belongs to no recognised message.
pub open spec fn voice_data_len(status: u8) -> Option<int> {
    let kind = status / 16;
    if kind == 0x8 || kind == 0x9 || kind == 0xB || kind == 0xE {
        Some(2)
    } else if kind == 0xC || kind == 0xD {
        Some(1)
    } else {
        None
    }
}

/// The channel voice message with the given status whose data bytes start at
/// `pos`. The low half of the status is the channel.
pub open spec fn voice_event(status: u8, bs: Seq<u8>, pos: int) -> MidiEventView {
    let kind = status / 16;
    let channel = status % 16;
    if kind == 0x8 {
        MidiEventView::NoteOff { channel, pitch: bs[pos], velocity: bs[pos + 1] }
    } else if kind == 0x9 {
        MidiEventView::NoteOn { channel, pitch: bs[pos], velocity: bs[pos + 1] }
    } else if kind == 0xB {
        MidiEventView::ControllerChange { channel, controller: bs[pos], value: bs[pos + 1] }
    } else if kind == 0xC {
        MidiEventView::ProgramChange { channel, preset: bs[pos] }
    } else if kind == 0xD {
        MidiEventView::ChannelPressure { channel, pressure: bs[pos] }
    } else {
        MidiEventView::PitchBend { channel, bend_lsb: bs[pos], position_msb: bs[pos + 1] }
    }
}

/// Whether a meta type carries text.
pub open spec fn is_text_meta(meta_type: u8) -> bool {
    meta_type == 0x01 || meta_type == 0x02 || meta_type == 0x03 || meta_type == 0x05 || meta_type
        == 0x06
}

/// The text event of the given meta type.
pub open spec fn text_event(meta_type: u8, text: Seq<char>) -> MidiEventView {
    if meta_type == 0x01 {
        MidiEventView::Text { text }
    } else if meta_type == 0x02 {
        MidiEventView::Copyright { text }
    } else if meta_type == 0x03 {
        MidiEventView::TrackName { name: text }
    } else if meta_type == 0x05 {
        MidiEventView::Lyrics { text }
    } else {
        MidiEventView::Marker { text }
    }
}

/// What a meta event of the given type and payload means.
///
/// Text must be valid UTF-8. A tempo takes the first three bytes of the
/// payload, a time signature the first four, a key signature the first two,
/// and a payload that is shorter lacks data. A type that has no meaning of
/// its own is kept with its payload.
pub open spec fn meta_event(meta_type: u8, payload: Seq<u8>) -> Result<
    MidiEventView,
    DecodeError,
> {
    if is_text_meta(meta_type) {
        if valid_utf8(payload) {
            Ok(text_event(meta_type, decode_utf8(payload)))
        } else {
            Err(DecodeError::InvalidUtf8)
        }
    } else if meta_type == 0x2F {
        Ok(MidiEventView::EndOfTrack)
    } else if meta_type == 0x51 {
        if payload.len() >= 3 {
            Ok(
                MidiEventView::SetTempo {
                    microseconds_per_quarter_note: be_u24_at(payload, 0) as u32,
                },
            )
        } else {
            Err(DecodeError::TruncatedData)
        }
    } else if meta_type == 0x58 {
        if payload.len() >= 4 {
            Ok(
                MidiEventView::TimeSignature {
                    nn: payload[0],
                    dd: payload[1],
                    cc: payload[2],
                    bb: payload[3],
                },
            )
        } else {
            Err(DecodeError::TruncatedData)
        }
    } else if meta_type == 0x59 {
        if payload.len() >= 2 {
            Ok(MidiEventView::KeySignature { sf: payload[0], mi: payload[1] })
        } else {
            Err(DecodeError::TruncatedData)
        }
    } else {
        Ok(MidiEventView::UnknownMetaMessage { meta_type, data: payload })
    }
}

/// One decoded event, the position behind it and the running status that
/// holds after it.
pub struct EventStep {
    pub event: MidiEventView,
    pub next: int,
    pub status: u8,
}

/// The event at `pos` of a track's bytes, under the running status `status`.
///
/// A first byte with its top bit set is a new status and is consumed; any
/// other first byte is data already, and the running status applies.
pub open spec fn event_at(bs: Seq<u8>, pos: int, status: u8) -> Result<EventStep, DecodeError> {
    if !has_bytes(bs, pos, 1) {
        Err(DecodeError::TruncatedData)
    } else {
        let fresh = bs[pos] >= 0x80;
        let st = if fresh {
            bs[pos]
        } else {
            status
        };
        let p = if fresh {
            pos + 1
        } else {
            pos
        };
        if st == META_STATUS {
            if !has_bytes(bs, p, 2) {
                Err(DecodeError::TruncatedData)
            } else if !has_bytes(bs, p + 2, bs[p + 1] as int) {
                Err(DecodeError::TruncatedData)
            } else {
                let end = p + 2 + bs[p + 1];
                match meta_event(bs[p], bs.subrange(p + 2, end)) {
                    Ok(event) => Ok(EventStep { event, next: end, status: st }),
                    Err(e) => Err(e),
                }
            }
        } else {
            match voice_data_len(st) {
                None => Err(DecodeError::UnsupportedEvent),
                Some(n) => if has_bytes(bs, p, n) {
                    Ok(EventStep { event: voice_event(st, bs, p), next: p + n, status: st })
                } else {
                    Err(DecodeError::TruncatedData)
                },
            }
        }
    }
}

/// `String::from_utf8` of std: the call succeeds exactly on valid UTF-8, and
/// the string then holds the characters that the bytes encode.
#[verifier::external_body]
fn string_from_utf8(bytes: Vec<u8>) -> (r: Option<String>)
    ensures
        r is Some <==> valid_utf8(bytes@),
        r matches Some(s) ==> s@ == decode_utf8(bytes@),
{
    match String::from_utf8(bytes) {
        Ok(s) => Some(s),
        Err(_) => None,
    }
}

/// Interprets the payload of a meta event.
pub fn decode_meta(meta_type: u8, payload: Vec<u8>) -> (r: Result<MidiEvent, DecodeError>)
    ensures
        match r {
            Ok(event) => meta_event(meta_type, payload@) == Ok::<MidiEventView, DecodeError>(
                event@,
            ),
            Err(e) => meta_event(meta_type, payload@) == Err::<MidiEventView, DecodeError>(e),
        },
{
    match meta_type {
        0x01 | 0x02 | 0x03 | 0x05 | 0x06 => {
            match string_from_utf8(payload) {
                None => Err(DecodeError::InvalidUtf8),
                Some(text) => Ok(
                    match meta_type {
                        0x01 => MidiEvent::Text { text },
                        0x02 => MidiEvent::Copyright { text },
                        0x03 => MidiEvent::TrackName { name: text },
                        0x05 => MidiEvent::Lyrics { text },
                        _ => MidiEvent::Marker { text },
                    },
                ),
            }
        },
        0x2F => Ok(MidiEvent::EndOfTrack),
        0x51 => {
            if payload.len() < 3 {
                return Err(DecodeError::TruncatedData);
            }
            let b0: u32 = payload[0] as u32;
            let b1: u32 = payload[1] as u32;
            let b2: u32 = payload[2] as u32;
            Ok(
                MidiEvent::SetTempo {
                    microseconds_per_quarter_note: b0 * 0x1_0000 + b1 * 0x100 + b2,
                },
            )
        },
        0x58 => {
            if payload.len() < 4 {
                return Err(DecodeError::TruncatedData);
            }
            Ok(
                MidiEvent::TimeSignature {
                    nn: payload[0],
                    dd: payload[1],
                    cc: payload[2],
                    bb: payload[3],
                },
            )
        },
        0x59 => {
            if payload.len() < 2 {
                return Err(DecodeError::TruncatedData);
            }
            Ok(MidiEvent::KeySignature { sf: payload[0], mi: payload[1] })
        },
        _ => Ok(MidiEvent::UnknownMetaMessage { meta_type, data: payload }),
    }
}

/// Decodes the event at the read position of a track's bytes.
///
/// `status` is the running status of the track: a byte below `0x80` while no
/// status has been read. On success the position is behind the event and
/// `status` is the status that the event was decoded under; on failure both
/// are as they were.
pub fn read_midi_event(bs: &[u8], cursor: &mut usize, status: &mut u8) -> (r: Result<
    MidiEvent,
    DecodeError,
>)
    ensures
        match r {
            Ok(event) => event_at(bs@, *old(cursor) as int, *old(status)) == Ok::<
                EventStep,
                DecodeError,
            >(EventStep { event: event@, next: *final(cursor) as int, status: *final(status) }),
            Err(e) => event_at(bs@, *old(cursor) as int, *old(status)) == Err::<
                EventStep,
                DecodeError,
            >(e) && *final(cursor) == *old(cursor) && *final(status) == *old(status),
        },
{
    let mut at: usize = *cursor;
    if at >= bs.len() {
        return Err(DecodeError::TruncatedData);
    }
    let first: u8 = bs[at];
    let mut st: u8 = *status;
    if first >= 0x80 {
        st = first;
        at = at + 1;
    }
    let kind: u8 = st / 16;
    let channel: u8 = st % 16;
    let event = if st == META_STATUS {
        let meta_type: u8 = read_u8(bs, &mut at)?;
        let length: u8 = read_u8(bs, &mut at)?;
        let payload: Vec<u8> = read_bytes(bs, &mut at, length as usize)?;
        decode_meta(meta_type, payload)?
    } else if kind == 0x8 || kind == 0x9 || kind == 0xB || kind == 0xE {
        let d1: u8 = read_u8(bs, &mut at)?;
        let d2: u8 = read_u8(bs, &mut at)?;
        if kind == 0x8 {
            MidiEvent::NoteOff { channel, pitch: d1, velocity: d2 }
        } else if kind == 0x9 {
            MidiEvent::NoteOn { channel, pitch: d1, velocity: d2 }
        } else if kind == 0xB {
            MidiEvent::ControllerChange { channel, controller: d1, value: d2 }
        } else {
            MidiEvent::PitchBend { channel, bend_lsb: d1, position_msb: d2 }
        }
    } else if kind == 0xC || kind == 0xD {
        let d1: u8 = read_u8(bs, &mut at)?;
        if kind == 0xC {
            MidiEvent::ProgramChange { channel, preset: d1 }
        } else {
            MidiEvent::ChannelPressure { channel, pressure: d1 }
        }
    } else {
        return Err(DecodeError::UnsupportedEvent);
    };
    *cursor = at;
    *status = st;
    Ok(event)
}

/// What remains to be decoded, behind the events of `done`.
pub open spec fn after_events(done: MidiTrackView, rest: Result<MidiTrackView, DecodeError>)
    -> Result<MidiTrackView, DecodeError> {
    match rest {
        Ok(track) => Ok(done.concat(track)),
        Err(e) => Err(e),
    }
}

/// The events from `pos` to the end of a track's bytes, under the running
/// status `status`: a delta time and an event, again and again, until no
/// byte is left. The first failure is the result.
pub open spec fn track_from(data: Seq<u8>, pos: int, status: u8) -> Result<
    MidiTrackView,
    DecodeError,
>
    decreases data.len() - pos,
    via track_from_decreases
{
    if pos < 0 || pos >= data.len() {
        Ok(MidiTrackView::empty())
    } else {
        match vlq_at(data, pos) {
            None => Err(DecodeError::TruncatedData),
            Some((dt, at)) => match event_at(data, at, status) {
                Err(e) => Err(e),
                Ok(step) => match track_from(data, step.next, step.status) {
                    Err(e) => Err(e),
                    Ok(rest) => Ok(rest.prepend(dt, step.event)),
                },
            },
        }
    }
}

#[via_fn]
proof fn track_from_decreases(data: Seq<u8>, pos: int, status: u8) {
    lemma_vlq_advances(data, pos, 0);
}

/// The track that a track chunk's payload holds. No status is running where
/// a track starts.
pub open spec fn track_of(data: Seq<u8>) -> Result<MidiTrackView, DecodeError> {
    track_from(data, 0, 0)
}

/// A decoded track has a delta time for every event.
pub proof fn lemma_track_wf(data: Seq<u8>, pos: int, status: u8)
    ensures
        track_from(data, pos, status) matches Ok(track) ==> track.wf(),
    decreases data.len() - pos,
{
    if 0 <= pos < data.len() {
        lemma_vlq_advances(data, pos, 0);
        if let Some((dt, at)) = vlq_at(data, pos) {
            if let Ok(step) = event_at(data, at, status) {
                lemma_track_wf(data, step.next, step.status);
            }
        }
    }
}

/// Decodes the payload of a track chunk.
pub fn read_track_events(data: &[u8]) -> (r: Result<MidiTrack, DecodeError>)
    ensures
        match r {
            Ok(track) => track_of(data@) == Ok::<MidiTrackView, DecodeError>(track@)
                && track.wf(),
            Err(e) => track_of(data@) == Err::<MidiTrackView, DecodeError>(e),
        },
{
    let mut track = MidiTrack { dts: Vec::new(), events: Vec::new() };
    let mut cursor: usize = 0;
    let mut status: u8 = 0;
    assert(track@.events =~= Seq::empty());
    assert(MidiTrackView::empty().concat(MidiTrackView::empty()).dts =~= Seq::empty());
    assert(MidiTrackView::empty().concat(MidiTrackView::empty()).events =~= Seq::empty());
    while cursor < data.len()
        invariant
            track_of(data@) == after_events(track@, track_from(data@, cursor as int, status)),
            track@.wf(),
        decreases data.len() - cursor,
    {
        let ghost before = track@;
        let ghost start = cursor as int;
        proof {
            lemma_vlq_advances(data@, start, 0);
        }
        let dt: usize = read_var_len(data, &mut cursor)?;
        let event: MidiEvent = read_midi_event(data, &mut cursor, &mut status)?;
        proof {
            let rest = track_from(data@, cursor as int, status);
            assert(track.events@.push(event).map_values(|e: MidiEvent| e@)
                =~= track.events@.map_values(|e: MidiEvent| e@).push(event@));
            if let Ok(tail) = rest {
                assert(before.concat(tail.prepend(dt, event@)).dts =~= (MidiTrackView {
                    dts: before.dts.push(dt),
                    events: before.events.push(event@),
                }).concat(tail).dts);
                assert(before.concat(tail.prepend(dt, event@)).events =~= (MidiTrackView {
                    dts: before.dts.push(dt),
                    events: before.events.push(event@),
                }).concat(tail).events);
            }
        }
        track.dts.push(dt);
        track.events.push(event);
    }
    proof {
        assert(track@.concat(MidiTrackView::empty()).dts =~= track@.dts);
        assert(track@.concat(MidiTrackView::empty()).events =~= track@.events);
    }
    Ok(track)
}

/// The header of a song: format type, declared number of tracks, and time
/// resolution in pulses per quarter note.
#[derive(Debug, Clone, Copy, PartialEq, Eq, Structural)]
pub struct MidiHeader {
    pub t: u32,
    pub ntracks: u32,
    pub pulses_per_quarter_note: u32,
}

/// The identifier of the header chunk, `MThd`.
pub open spec fn header_id() -> Seq<u8> {
    seq![0x4Du8, 0x54u8, 0x68u8, 0x64u8]
}

/// The identifier of a track chunk, `MTrk`.
pub open spec fn track_id() -> Seq<u8> {
    seq![0x4Du8, 0x54u8, 0x72u8, 0x6Bu8]
}

/// The header chunk at `pos` and the position behind it.
///
/// The chunk is its identifier, a 32-bit length, and three 16-bit fields,
/// which are read whatever the length says. A length above six has the
/// bytes beyond the fields skipped.
pub open spec fn header_at(bytes: Seq<u8>, pos: int) -> Result<(MidiHeader, int), DecodeError> {
    if !has_bytes(bytes, pos, 4) {
        Err(DecodeError::TruncatedData)
    } else if bytes.subrange(pos, pos + 4) != header_id() {
        Err(DecodeError::InvalidMagic)
    } else if !has_bytes(bytes, pos + 4, 10) {
        Err(DecodeError::TruncatedData)
    } else {
        let length = be_u32_at(bytes, pos + 4);
        let extra = if length > 6 {
            length - 6
        } else {
            0
        };
        if !has_bytes(bytes, pos + 14, extra) {
            Err(DecodeError::TruncatedData)
        } else {
            Ok(
                (
                    MidiHeader {
                        t: be_u16_at(bytes, pos + 8) as u32,
                        ntracks: be_u16_at(bytes, pos + 10) as u32,
                        pulses_per_quarter_note: be_u16_at(bytes, pos + 12) as u32,
                    },
                    pos + 14 + extra,
                ),
            )
        }
    }
}

/// Whether the four bytes at `at` are the given ones.
fn id_is(bytes: &[u8], at: usize, b0: u8, b1: u8, b2: u8, b3: u8) -> (r: bool)
    requires
        has_bytes(bytes@, at as int, 4),
    ensures
        r == (bytes@.subrange(at as int, at + 4) == seq![b0, b1, b2, b3]),
{
    let r = bytes[at] == b0 && bytes[at + 1] == b1 && bytes[at + 2] == b2 && bytes[at + 3] == b3;
    proof {
        let id = bytes@.subrange(at as int, at + 4);
        let want = seq![b0, b1, b2, b3];
        assert(id[0] == bytes@[at as int] && id[1] == bytes@[at + 1] && id[2] == bytes@[at + 2]
            && id[3] == bytes@[at + 3]);
        assert(want[0] == b0 && want[1] == b1 && want[2] == b2 && want[3] == b3);
        if r {
            assert(id =~= want);
        }
    }
    r
}

/// Reads the header chunk. On failure the position is as it was.
pub fn read_mthd_chunck(bytes: &[u8], cursor: &mut usize) -> (r: Result<MidiHeader, DecodeError>)
    ensures
        match r {
            Ok(header) => header_at(bytes@, *old(cursor) as int) == Ok::<
                (MidiHeader, int),
                DecodeError,
            >((header, *final(cursor) as int)),
            Err(e) => header_at(bytes@, *old(cursor) as int) == Err::<
                (MidiHeader, int),
                DecodeError,
            >(e) && *final(cursor) == *old(cursor),
        },
{
    let start: usize = *cursor;
    if start > bytes.len() || bytes.len() - start < 4 {
        return Err(DecodeError::TruncatedData);
    }
    if !id_is(bytes, start, 0x4D, 0x54, 0x68, 0x64) {
        return Err(DecodeError::InvalidMagic);
    }
    let mut at: usize = start + 4;
    if bytes.len() - at < 10 {
        return Err(DecodeError::TruncatedData);
    }
    let length: u32 = read_be_u32(bytes, &mut at)?;
    let t: u16 = read_be_u16(bytes, &mut at)?;
    let ntracks: u16 = read_be_u16(bytes, &mut at)?;
    let division: u16 = read_be_u16(bytes, &mut at)?;
    if length > 6 {
        let extra: u32 = length - 6;
        if bytes.len() - at < extra as usize {
            return Err(DecodeError::TruncatedData);
        }
        at = at + extra as usize;
    }
    *cursor = at;
    Ok(MidiHeader { t: t as u32, ntracks: ntracks as u32, pulses_per_quarter_note: division as u32 })
}

/// One chunk behind the header: the track that it holds, or `None` for a
/// chunk of another kind, and the position behind the chunk.
pub struct ChunkStep {
    pub track: Option<MidiTrackView>,
    pub next: int,
}

/// The chunk at `pos`: a four-byte identifier, a 32-bit length, and that
/// many bytes of payload. The payload of a track chunk is decoded; that of
/// any other chunk is passed over.
pub open spec fn chunk_at(bytes: Seq<u8>, pos: int) -> Result<ChunkStep, DecodeError> {
    if !has_bytes(bytes, pos, 8) {
        Err(DecodeError::TruncatedData)
    } else if !has_bytes(bytes, pos + 8, be_u32_at(bytes, pos + 4)) {
        Err(DecodeError::TruncatedData)
    } else {
        let end = pos + 8 + be_u32_at(bytes, pos + 4);
        if bytes.subrange(pos, pos + 4) == track_id() {
            match track_of(bytes.subrange(pos + 8, end)) {
                Ok(track) => Ok(ChunkStep { track: Some(track), next: end }),
                Err(e) => Err(e),
            }
        } else {
            Ok(ChunkStep { track: None, next: end })
        }
    }
}

/// Reads one chunk behind the header: `Some` track for a track chunk, `None`
/// for a chunk of another kind, which is skipped by its declared length. On
/// failure the position is as it was.
pub fn read_mtrk_chunck(bytes: &[u8], cursor: &mut usize) -> (r: Result<
    Option<MidiTrack>,
    DecodeError,
>)
    ensures
        match r {
            Ok(found) => chunk_at(bytes@, *old(cursor) as int) == Ok::<ChunkStep, DecodeError>(
                ChunkStep {
                    track: match found {
                        Some(track) => Some(track@),
                        None => None,
                    },
                    next: *final(cursor) as int,
                },
            ) && (found matches Some(track) ==> track.wf()),
            Err(e) => chunk_at(bytes@, *old(cursor) as int) == Err::<ChunkStep, DecodeError>(e)
                && *final(cursor) == *old(cursor),
        },
{
    let start: usize = *cursor;
    if start > bytes.len() || bytes.len() - start < 8 {
        return Err(DecodeError::TruncatedData);
    }
    let mut at: usize = start + 4;
    let length: u32 = read_be_u32(bytes, &mut at)?;
    if bytes.len() - at < length as usize {
        return Err(DecodeError::TruncatedData);
    }
    let end: usize = at + length as usize;
    if id_is(bytes, start, 0x4D, 0x54, 0x72, 0x6B) {
        let track = read_track_events(slice_subrange(bytes, at, end))?;
        *cursor = end;
        Ok(Some(track))
    } else {
        *cursor = end;
        Ok(None)
    }
}

/// What remains to be decoded, behind the tracks of `done`.
pub open spec fn after_tracks(
    done: Seq<MidiTrackView>,
    rest: Result<Seq<MidiTrackView>, DecodeError>,
) -> Result<Seq<MidiTrackView>, DecodeError> {
    match rest {
        Ok(tracks) => Ok(done + tracks),
        Err(e) => Err(e),
    }
}

/// The next `wanted` tracks from `pos` on. Chunks of other kinds between
/// them are passed over; the first failure is the result, and so is the end
/// of the bytes before the last wanted track.
pub open spec fn tracks_from(bytes: Seq<u8>, pos: int, wanted: nat) -> Result<
    Seq<MidiTrackView>,
    DecodeError,
>
    decreases bytes.len() - pos,
{
    if wanted == 0 {
        Ok(Seq::empty())
    } else {
        match chunk_at(bytes, pos) {
            Err(e) => Err(e),
            Ok(step) => match step.track {
                None => tracks_from(bytes, step.next, wanted),
                Some(track) => after_tracks(
                    seq![track],
                    tracks_from(bytes, step.next, (wanted - 1) as nat),
                ),
            },
        }
    }
}

/// Where the wanted tracks are found, they are as many as were wanted, and
/// each has a delta time for every event.
pub proof fn lemma_tracks_found(bytes: Seq<u8>, pos: int, wanted: nat)
    ensures
        match tracks_from(bytes, pos, wanted) {
            Ok(tracks) => tracks.len() == wanted && forall|i: int|
                0 <= i < tracks.len() ==> (#[trigger] tracks[i]).wf(),
            Err(_) => true,
        },
    decreases bytes.len() - pos,
{
    if wanted > 0 {
        if let Ok(step) = chunk_at(bytes, pos) {
            match step.track {
                None => {
                    lemma_tracks_found(bytes, step.next, wanted);
                },
                Some(track) => {
                    lemma_tracks_found(bytes, step.next, (wanted - 1) as nat);
                    lemma_track_wf(bytes.subrange(pos + 8, step.next), 0, 0);
                },
            }
        }
    }
}

/// A decoded song has as many tracks as its header declares, and each track
/// has a delta time for every event.
pub proof fn lemma_song_shape(bytes: Seq<u8>)
    ensures
        match (song_of(bytes), header_at(bytes, 0)) {
            (Ok(song), Ok((header, _))) => song.wf() && song.tracks.len() == header.ntracks,
            (Ok(_), Err(_)) => false,
            (Err(_), _) => true,
        },
{
    if let Ok((header, next)) = header_at(bytes, 0) {
        lemma_tracks_found(bytes, next, header.ntracks as nat);
    }
}

/// The song that a file holds: the header chunk, then as many tracks as the
/// header declares.
pub open spec fn song_of(bytes: Seq<u8>) -> Result<MidiSongView, DecodeError> {
    match header_at(bytes, 0) {
        Err(e) => Err(e),
        Ok((header, next)) => match tracks_from(bytes, next, header.ntracks as nat) {
            Err(e) => Err(e),
            Ok(tracks) => Ok(
                MidiSongView {
                    t: header.t,
                    pulses_per_quarter_note: header.pulses_per_quarter_note,
                    tracks,
                },
            ),
        },
    }
}

/// Decodes a Standard MIDI File. Any failure voids the whole song.
pub fn read_midi_file(bytes: &[u8]) -> (r: Result<MidiSong, DecodeError>)
    ensures
        match r {
            Ok(song) => song_of(bytes@) == Ok::<MidiSongView, DecodeError>(song@) && song.wf(),
            Err(e) => song_of(bytes@) == Err::<MidiSongView, DecodeError>(e),
        },
{
    let mut cursor: usize = 0;
    let header = read_mthd_chunck(bytes, &mut cursor)?;
    let mut tracks: Vec<MidiTrack> = Vec::new();
    let ghost first = cursor as int;
    let mut found: u32 = 0;
    assert(tracks@.map_values(|t: MidiTrack| t@) =~= Seq::empty());
    assert(Seq::<MidiTrackView>::empty() + Seq::<MidiTrackView>::empty() =~= Seq::empty());
    while found < header.ntracks
        invariant
            found <= header.ntracks,
            header_at(bytes@, 0) == Ok::<(MidiHeader, int), DecodeError>((header, first)),
            tracks_from(bytes@, first, header.ntracks as nat) == after_tracks(
                tracks@.map_values(|t: MidiTrack| t@),
                tracks_from(bytes@, cursor as int, (header.ntracks - found) as nat),
            ),
            forall|i: int| 0 <= i < tracks.len() ==> (#[trigger] tracks[i]).wf(),
        decreases bytes.len() - cursor, header.ntracks - found,
    {
        let ghost done = tracks@.map_values(|t: MidiTrack| t@);
        let ghost at = cursor as int;
        let chunk: Option<MidiTrack> = read_mtrk_chunck(bytes, &mut cursor)?;
        match chunk {
            None => {},
            Some(track) => {
                proof {
                    let rest = tracks_from(bytes@, cursor as int, (header.ntracks - found - 1) as nat);
                    assert(tracks@.push(track).map_values(|t: MidiTrack| t@) =~= done.push(
                        track@,
                    ));
                    if let Ok(tail) = rest {
                        assert(done + (seq![track@] + tail) =~= done.push(track@) + tail);
                    }
                }
                tracks.push(track);
                found = found + 1;
            },
        }
    }
    let song = MidiSong {
        t: header.t,
        pulses_per_quarter_note: header.pulses_per_quarter_note,
        tracks,
    };
    proof {
        assert(song@.tracks + Seq::<MidiTrackView>::empty() =~= song@.tracks);
    }
    Ok(song)
}

} // verus!
