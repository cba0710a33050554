use media_kit::midi::byte_cursor::{
    read_be_u16, read_be_u32, read_bytes, read_u8, read_var_len, DecodeError,
};
use media_kit::midi::event::MidiEvent;
use media_kit::midi::midi_parser::{
    decode_meta, read_midi_event, read_midi_file, read_mthd_chunck, read_mtrk_chunck,
    read_track_events, MidiHeader,
};
use media_kit::midi::midi_song::{MidiSong, MidiTrack};

fn header(format: u16, ntracks: u16, division: u16) -> Vec<u8> {
    let mut bytes = b"MThd".to_vec();
    bytes.extend_from_slice(&[0, 0, 0, 6]);
    bytes.extend_from_slice(&format.to_be_bytes());
    bytes.extend_from_slice(&ntracks.to_be_bytes());
    bytes.extend_from_slice(&division.to_be_bytes());
    bytes
}

fn chunk(id: &[u8; 4], payload: &[u8]) -> Vec<u8> {
    let mut bytes = id.to_vec();
    bytes.extend_from_slice(&(payload.len() as u32).to_be_bytes());
    bytes.extend_from_slice(payload);
    bytes
}

fn minimal_track() -> Vec<u8> {
    vec![
        0x00, 0x90, 60, 100, // delta 0, note on
        0x60, 0x80, 60, 0, // delta 96, note off
        0x81, 0x48, 0xFF, 0x2F, 0x00, // delta 200, end of track
    ]
}

#[test]
fn vlq_zero() {
    let mut cursor = 0;
    assert_eq!(read_var_len(&[0x00], &mut cursor), Ok(0));
    assert_eq!(cursor, 1);
}

#[test]
fn vlq_largest_single_byte() {
    let mut cursor = 0;
    assert_eq!(read_var_len(&[0x7F], &mut cursor), Ok(127));
    assert_eq!(cursor, 1);
}

#[test]
fn vlq_two_bytes() {
    let mut cursor = 0;
    assert_eq!(read_var_len(&[0x81, 0x48], &mut cursor), Ok(200));
    assert_eq!(cursor, 2);
}

#[test]
fn vlq_every_single_byte_is_itself() {
    for b in 0u8..128 {
        let mut cursor = 0;
        assert_eq!(read_var_len(&[b], &mut cursor), Ok(b as usize));
        assert_eq!(cursor, 1);
    }
}

#[test]
fn vlq_four_bytes() {
    let mut cursor = 1;
    assert_eq!(read_var_len(&[0x00, 0xFF, 0xFF, 0xFF, 0x7F, 0x01], &mut cursor), Ok(0x0FFF_FFFF));
    assert_eq!(cursor, 5);
}

#[test]
fn vlq_without_last_byte_is_truncated() {
    let mut cursor = 0;
    assert_eq!(read_var_len(&[0x81, 0x80], &mut cursor), Err(DecodeError::TruncatedData));
    assert_eq!(cursor, 0);
    let mut cursor = 0;
    assert_eq!(read_var_len(&[], &mut cursor), Err(DecodeError::TruncatedData));
}

#[test]
fn vlq_loses_what_leaves_the_word() {
    let mut bytes = vec![0xFF; 12];
    bytes.push(0x7F);
    let mut cursor = 0;
    assert_eq!(read_var_len(&bytes, &mut cursor), Ok(usize::MAX));
    assert_eq!(cursor, 13);
}

#[test]
fn fixed_width_reads() {
    let bytes = [0x12, 0x34, 0x56, 0x78, 0x9A, 0xBC, 0xDE];
    let mut cursor = 0;
    assert_eq!(read_u8(&bytes, &mut cursor), Ok(0x12));
    assert_eq!(read_be_u16(&bytes, &mut cursor), Ok(0x3456));
    assert_eq!(read_be_u32(&bytes, &mut cursor), Ok(0x789A_BCDE));
    assert_eq!(cursor, 7);
    assert_eq!(read_u8(&bytes, &mut cursor), Err(DecodeError::TruncatedData));
    assert_eq!(cursor, 7);
}

#[test]
fn fixed_width_reads_do_not_pass_the_end() {
    let bytes = [1, 2, 3];
    let mut cursor = 2;
    assert_eq!(read_be_u16(&bytes, &mut cursor), Err(DecodeError::TruncatedData));
    assert_eq!(cursor, 2);
    let mut cursor = 0;
    assert_eq!(read_be_u32(&bytes, &mut cursor), Err(DecodeError::TruncatedData));
    assert_eq!(cursor, 0);
    let mut cursor = 1;
    assert_eq!(read_bytes(&bytes, &mut cursor, 3), Err(DecodeError::TruncatedData));
    assert_eq!(cursor, 1);
    assert_eq!(read_bytes(&bytes, &mut cursor, 2), Ok(vec![2, 3]));
    assert_eq!(cursor, 3);
    assert_eq!(read_bytes(&bytes, &mut cursor, 0), Ok(vec![]));
    let mut cursor = 9;
    assert_eq!(read_u8(&bytes, &mut cursor), Err(DecodeError::TruncatedData));
}

#[test]
fn running_status_keeps_channel() {
    let data = [0x00, 0x93, 60, 100, 0x10, 62, 90, 0x20, 64, 80];
    let track = read_track_events(&data).unwrap();
    assert_eq!(track.dts, vec![0, 0x10, 0x20]);
    assert_eq!(
        track.events,
        vec![
            MidiEvent::NoteOn { channel: 3, pitch: 60, velocity: 100 },
            MidiEvent::NoteOn { channel: 3, pitch: 62, velocity: 90 },
            MidiEvent::NoteOn { channel: 3, pitch: 64, velocity: 80 },
        ]
    );
}

#[test]
fn running_status_is_per_call_state() {
    let data = [0x95, 1, 2, 3, 4];
    let mut cursor = 0;
    let mut status = 0;
    assert_eq!(
        read_midi_event(&data, &mut cursor, &mut status),
        Ok(MidiEvent::NoteOn { channel: 5, pitch: 1, velocity: 2 })
    );
    assert_eq!((cursor, status), (3, 0x95));
    assert_eq!(
        read_midi_event(&data, &mut cursor, &mut status),
        Ok(MidiEvent::NoteOn { channel: 5, pitch: 3, velocity: 4 })
    );
    assert_eq!((cursor, status), (5, 0x95));
    assert_eq!(
        read_midi_event(&data, &mut cursor, &mut status),
        Err(DecodeError::TruncatedData)
    );
    assert_eq!((cursor, status), (5, 0x95));
}

#[test]
fn data_byte_without_status_is_unsupported() {
    let mut cursor = 0;
    let mut status = 0;
    assert_eq!(
        read_midi_event(&[60, 100], &mut cursor, &mut status),
        Err(DecodeError::UnsupportedEvent)
    );
    assert_eq!((cursor, status), (0, 0));
}

#[test]
fn minimal_track_parses_to_three_events() {
    let mut bytes = header(0, 1, 480);
    bytes.extend(chunk(b"MTrk", &minimal_track()));
    let song = read_midi_file(&bytes).unwrap();
    assert_eq!(song.t, 0);
    assert_eq!(song.pulses_per_quarter_note, 480);
    assert_eq!(song.tracks.len(), 1);
    assert_eq!(song.tracks[0].dts, vec![0, 96, 200]);
    assert_eq!(
        song.tracks[0].events,
        vec![
            MidiEvent::NoteOn { channel: 0, pitch: 60, velocity: 100 },
            MidiEvent::NoteOff { channel: 0, pitch: 60, velocity: 0 },
            MidiEvent::EndOfTrack,
        ]
    );
}

#[test]
fn channel_voice_messages() {
    let data = [
        0x00, 0x81, 1, 2, 0x00, 0x92, 3, 4, 0x00, 0xB3, 5, 6, 0x00, 0xC4, 7, 0x00, 0xD5, 8, 0x00,
        0xE6, 9, 10,
    ];
    let track = read_track_events(&data).unwrap();
    assert_eq!(
        track.events,
        vec![
            MidiEvent::NoteOff { channel: 1, pitch: 1, velocity: 2 },
            MidiEvent::NoteOn { channel: 2, pitch: 3, velocity: 4 },
            MidiEvent::ControllerChange { channel: 3, controller: 5, value: 6 },
            MidiEvent::ProgramChange { channel: 4, preset: 7 },
            MidiEvent::ChannelPressure { channel: 5, pressure: 8 },
            MidiEvent::PitchBend { channel: 6, bend_lsb: 9, position_msb: 10 },
        ]
    );
    assert_eq!(track.dts, vec![0; 6]);
}

#[test]
fn meta_events() {
    assert_eq!(decode_meta(0x01, b"hi".to_vec()), Ok(MidiEvent::Text { text: "hi".to_string() }));
    assert_eq!(
        decode_meta(0x02, b"(c)".to_vec()),
        Ok(MidiEvent::Copyright { text: "(c)".to_string() })
    );
    assert_eq!(
        decode_meta(0x03, "Fl\u{f6}te".as_bytes().to_vec()),
        Ok(MidiEvent::TrackName { name: "Fl\u{f6}te".to_string() })
    );
    assert_eq!(decode_meta(0x05, b"la".to_vec()), Ok(MidiEvent::Lyrics { text: "la".to_string() }));
    assert_eq!(decode_meta(0x06, vec![]), Ok(MidiEvent::Marker { text: String::new() }));
    assert_eq!(decode_meta(0x2F, vec![]), Ok(MidiEvent::EndOfTrack));
    assert_eq!(
        decode_meta(0x51, vec![0x07, 0xA1, 0x20]),
        Ok(MidiEvent::SetTempo { microseconds_per_quarter_note: 500_000 })
    );
    assert_eq!(
        decode_meta(0x58, vec![4, 2, 24, 8]),
        Ok(MidiEvent::TimeSignature { nn: 4, dd: 2, cc: 24, bb: 8 })
    );
    assert_eq!(decode_meta(0x59, vec![0xFE, 1]), Ok(MidiEvent::KeySignature { sf: 0xFE, mi: 1 }));
}

#[test]
fn meta_payload_too_short_is_truncated() {
    assert_eq!(decode_meta(0x51, vec![0x07, 0xA1]), Err(DecodeError::TruncatedData));
    assert_eq!(decode_meta(0x58, vec![4, 2, 24]), Err(DecodeError::TruncatedData));
    assert_eq!(decode_meta(0x59, vec![0]), Err(DecodeError::TruncatedData));
}

#[test]
fn text_must_be_utf8() {
    assert_eq!(decode_meta(0x01, vec![0xC3, 0x28]), Err(DecodeError::InvalidUtf8));
    assert_eq!(decode_meta(0x03, vec![0xFF]), Err(DecodeError::InvalidUtf8));
    let data = [0x00, 0xFF, 0x05, 0x02, 0xC3, 0x28];
    assert_eq!(read_track_events(&data), Err(DecodeError::InvalidUtf8));
}

#[test]
fn unknown_meta_is_kept() {
    let data = [0x00, 0xFF, 0x7F, 0x03, 1, 2, 3];
    let track = read_track_events(&data).unwrap();
    assert_eq!(track.dts, vec![0]);
    assert_eq!(
        track.events,
        vec![MidiEvent::UnknownMetaMessage { meta_type: 0x7F, data: vec![1, 2, 3] }]
    );
    assert_eq!(
        decode_meta(0x7F, vec![1, 2, 3]),
        Ok(MidiEvent::UnknownMetaMessage { meta_type: 0x7F, data: vec![1, 2, 3] })
    );
}

#[test]
fn meta_payload_beyond_track_is_truncated() {
    let data = [0x00, 0xFF, 0x7F, 0x04, 1, 2, 3];
    assert_eq!(read_track_events(&data), Err(DecodeError::TruncatedData));
    assert_eq!(read_track_events(&[0x00, 0xFF, 0x7F]), Err(DecodeError::TruncatedData));
    assert_eq!(read_track_events(&[0x00, 0xFF]), Err(DecodeError::TruncatedData));
    assert_eq!(read_track_events(&[0x00]), Err(DecodeError::TruncatedData));
    assert_eq!(read_track_events(&[0x00, 0x90, 60]), Err(DecodeError::TruncatedData));
    assert_eq!(read_track_events(&[0x00, 0xC0]), Err(DecodeError::TruncatedData));
}

#[test]
fn other_system_messages_are_unsupported() {
    for status in 0xF0u8..0xFF {
        assert_eq!(
            read_track_events(&[0x00, status, 0x00]),
            Err(DecodeError::UnsupportedEvent)
        );
    }
    assert_eq!(read_track_events(&[0x00, 0xA0, 1, 2]), Err(DecodeError::UnsupportedEvent));
}

#[test]
fn empty_track() {
    assert_eq!(read_track_events(&[]), Ok(MidiTrack { dts: vec![], events: vec![] }));
}

#[test]
fn unrecognized_chunk_is_skipped() {
    let mut bytes = header(1, 2, 96);
    bytes.extend(chunk(b"MTrk", &minimal_track()));
    bytes.extend(chunk(b"XTRA", &[0xFF, 0xFF, 0xFF, 0xFF, 0xFF]));
    bytes.extend(chunk(b"MTrk", &[0x00, 0xFF, 0x2F, 0x00]));
    let song = read_midi_file(&bytes).unwrap();
    assert_eq!(song.t, 1);
    assert_eq!(song.pulses_per_quarter_note, 96);
    assert_eq!(song.tracks.len(), 2);
    assert_eq!(song.tracks[0].events.len(), 3);
    assert_eq!(song.tracks[1].dts, vec![0]);
    assert_eq!(song.tracks[1].events, vec![MidiEvent::EndOfTrack]);
}

#[test]
fn chunk_reader_tells_tracks_from_other_chunks() {
    let mut bytes = chunk(b"XTRA", &[9, 9, 9]);
    bytes.extend(chunk(b"MTrk", &[0x05, 0xC1, 7]));
    let mut cursor = 0;
    assert_eq!(read_mtrk_chunck(&bytes, &mut cursor), Ok(None));
    assert_eq!(cursor, 11);
    assert_eq!(
        read_mtrk_chunck(&bytes, &mut cursor),
        Ok(Some(MidiTrack {
            dts: vec![5],
            events: vec![MidiEvent::ProgramChange { channel: 1, preset: 7 }],
        }))
    );
    assert_eq!(cursor, bytes.len());
    assert_eq!(read_mtrk_chunck(&bytes, &mut cursor), Err(DecodeError::TruncatedData));
    assert_eq!(cursor, bytes.len());
}

#[test]
fn chunk_shorter_than_declared_is_truncated() {
    let mut bytes = b"MTrk".to_vec();
    bytes.extend_from_slice(&[0, 0, 0, 5, 0x00, 0xFF, 0x2F, 0x00]);
    let mut cursor = 0;
    assert_eq!(read_mtrk_chunck(&bytes, &mut cursor), Err(DecodeError::TruncatedData));
    assert_eq!(cursor, 0);
    let mut bytes = b"XTRA".to_vec();
    bytes.extend_from_slice(&[0xFF, 0xFF, 0xFF, 0xFF, 1]);
    assert_eq!(read_mtrk_chunck(&bytes, &mut cursor), Err(DecodeError::TruncatedData));
}

#[test]
fn header_fields() {
    let bytes = header(1, 3, 480);
    let mut cursor = 0;
    assert_eq!(
        read_mthd_chunck(&bytes, &mut cursor),
        Ok(MidiHeader { t: 1, ntracks: 3, pulses_per_quarter_note: 480 })
    );
    assert_eq!(cursor, 14);
}

#[test]
fn header_with_wrong_id_is_invalid_magic() {
    let mut bytes = header(0, 0, 96);
    bytes[3] = b'x';
    let mut cursor = 0;
    assert_eq!(read_mthd_chunck(&bytes, &mut cursor), Err(DecodeError::InvalidMagic));
    assert_eq!(cursor, 0);
    assert_eq!(read_midi_file(&bytes), Err(DecodeError::InvalidMagic));
    assert_eq!(read_midi_file(b"RIFF"), Err(DecodeError::InvalidMagic));
}

#[test]
fn short_header_is_truncated() {
    assert_eq!(read_midi_file(&[]), Err(DecodeError::TruncatedData));
    assert_eq!(read_midi_file(b"MTh"), Err(DecodeError::TruncatedData));
    assert_eq!(read_midi_file(b"MThd"), Err(DecodeError::TruncatedData));
    let bytes = header(0, 0, 96);
    assert_eq!(read_midi_file(&bytes[..13]), Err(DecodeError::TruncatedData));
}

#[test]
fn header_length_is_honoured() {
    let mut bytes = b"MThd".to_vec();
    bytes.extend_from_slice(&[0, 0, 0, 9, 0, 1, 0, 1, 0, 96, 0xAA, 0xBB, 0xCC]);
    let mut cursor = 0;
    assert_eq!(
        read_mthd_chunck(&bytes, &mut cursor),
        Ok(MidiHeader { t: 1, ntracks: 1, pulses_per_quarter_note: 96 })
    );
    assert_eq!(cursor, 17);
    bytes.extend(chunk(b"MTrk", &[0x00, 0xFF, 0x2F, 0x00]));
    let song = read_midi_file(&bytes).unwrap();
    assert_eq!(song.tracks.len(), 1);
    assert_eq!(song.tracks[0].events, vec![MidiEvent::EndOfTrack]);
}

#[test]
fn header_length_below_six_still_reads_the_fields() {
    let mut bytes = b"MThd".to_vec();
    bytes.extend_from_slice(&[0, 0, 0, 2, 0, 2, 0, 0, 1, 0xE0]);
    let mut cursor = 0;
    assert_eq!(
        read_mthd_chunck(&bytes, &mut cursor),
        Ok(MidiHeader { t: 2, ntracks: 0, pulses_per_quarter_note: 480 })
    );
    assert_eq!(cursor, 14);
}

#[test]
fn header_extra_bytes_missing_is_truncated() {
    let mut bytes = b"MThd".to_vec();
    bytes.extend_from_slice(&[0, 0, 0, 9, 0, 1, 0, 1, 0, 96, 0xAA, 0xBB]);
    let mut cursor = 0;
    assert_eq!(read_mthd_chunck(&bytes, &mut cursor), Err(DecodeError::TruncatedData));
    assert_eq!(cursor, 0);
}

#[test]
fn missing_track_is_truncated() {
    let mut bytes = header(1, 2, 96);
    bytes.extend(chunk(b"MTrk", &minimal_track()));
    assert_eq!(read_midi_file(&bytes), Err(DecodeError::TruncatedData));
    bytes.extend(chunk(b"XTRA", &[1, 2, 3]));
    assert_eq!(read_midi_file(&bytes), Err(DecodeError::TruncatedData));
}

#[test]
fn one_bad_track_voids_the_song() {
    let mut bytes = header(1, 2, 96);
    bytes.extend(chunk(b"MTrk", &minimal_track()));
    bytes.extend(chunk(b"MTrk", &[0x00, 0xF0, 0x01, 0xF7]));
    assert_eq!(read_midi_file(&bytes), Err(DecodeError::UnsupportedEvent));
}

#[test]
fn song_without_tracks() {
    let mut bytes = header(0, 0, 24);
    bytes.extend_from_slice(&[1, 2, 3]);
    assert_eq!(
        read_midi_file(&bytes),
        Ok(MidiSong { t: 0, pulses_per_quarter_note: 24, tracks: vec![] })
    );
}

#[test]
fn defaults() {
    assert_eq!(MidiEvent::default(), MidiEvent::NoteOn { channel: 0, pitch: 0, velocity: 0 });
    assert_eq!(MidiTrack::default(), MidiTrack { dts: vec![], events: vec![] });
    assert_eq!(
        MidiSong::default(),
        MidiSong { t: 0, pulses_per_quarter_note: 0, tracks: vec![] }
    );
    let event = MidiEvent::UnknownMetaMessage { meta_type: 9, data: vec![1, 2] };
    assert_eq!(event.clone(), event);
    let event = MidiEvent::TrackName { name: "x".to_string() };
    assert_eq!(event.clone(), event);
}
