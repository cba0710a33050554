//! A decoded song: header fields and tracks.

use super::event::MidiEvent;
use super::event::MidiEventView;
use vstd::prelude::*;

verus! {

/// One track: the events in file order, and before each of them the ticks
/// that pass on this track since the event before it.
#[derive(Debug, PartialEq)]
pub struct MidiTrack {
    pub dts: Vec<usize>,
    pub events: Vec<MidiEvent>,
}

/// What a track holds.
pub struct MidiTrackView {
    pub dts: Seq<usize>,
    pub events: Seq<MidiEventView>,
}

impl MidiTrackView {
    /// The track without events.
    pub open spec fn empty() -> MidiTrackView {
        MidiTrackView { dts: Seq::empty(), events: Seq::empty() }
    }

    /// The track that starts with one event and goes on as `self`.
    pub open spec fn prepend(self, dt: usize, event: MidiEventView) -> MidiTrackView {
        MidiTrackView { dts: seq![dt] + self.dts, events: seq![event] + self.events }
    }

    /// The track that goes on as `rest` after the events of `self`.
    pub open spec fn concat(self, rest: MidiTrackView) -> MidiTrackView {
        MidiTrackView { dts: self.dts + rest.dts, events: self.events + rest.events }
    }

    /// Every event has its delta time.
    pub open spec fn wf(self) -> bool {
        self.dts.len() == self.events.len()
    }
}

impl View for MidiTrack {
    type V = MidiTrackView;

    open spec fn view(&self) -> MidiTrackView {
        MidiTrackView { dts: self.dts@, events: self.events@.map_values(|e: MidiEvent| e@) }
    }
}

impl MidiTrack {
    /// Every event has its delta time.
    pub open spec fn wf(&self) -> bool {
        self@.wf()
    }
}

impl Clone for MidiTrack {
    /// A copy that holds the same values.
    fn clone(&self) -> (r: MidiTrack)
        ensures
            r@ == self@,
    {
        let r = MidiTrack { dts: self.dts.clone(), events: self.events.clone() };
        assert(r@.dts =~= self@.dts);
        assert(r@.events =~= self@.events);
        r
    }
}

impl Default for MidiTrack {
    /// The track without events.
    fn default() -> (r: MidiTrack)
        ensures
            r@ == MidiTrackView::empty(),
    {
        let r = MidiTrack { dts: Vec::new(), events: Vec::new() };
        assert(r@.events =~= Seq::empty());
        r
    }
}

/// A song: the format type and time resolution that the header declares, and
/// the tracks in file order.
#[derive(Debug, PartialEq)]
pub struct MidiSong {
    pub t: u32,
    pub pulses_per_quarter_note: u32,
    pub tracks: Vec<MidiTrack>,
}

/// What a song holds.
pub struct MidiSongView {
    pub t: u32,
    pub pulses_per_quarter_note: u32,
    pub tracks: Seq<MidiTrackView>,
}

impl MidiSongView {
    /// Every event of every track has its delta time.
    pub open spec fn wf(self) -> bool {
        forall|i: int| 0 <= i < self.tracks.len() ==> (#[trigger] self.tracks[i]).wf()
    }
}

impl View for MidiSong {
    type V = MidiSongView;

    open spec fn view(&self) -> MidiSongView {
        MidiSongView {
            t: self.t,
            pulses_per_quarter_note: self.pulses_per_quarter_note,
            tracks: self.tracks@.map_values(|t: MidiTrack| t@),
        }
    }
}

impl MidiSong {
    /// Every event of every track has its delta time.
    pub open spec fn wf(&self) -> bool {
        self@.wf()
    }
}

impl Clone for MidiSong {
    /// A copy that holds the same values.
    fn clone(&self) -> (r: MidiSong)
        ensures
            r@ == self@,
    {
        let r = MidiSong {
            t: self.t,
            pulses_per_quarter_note: self.pulses_per_quarter_note,
            tracks: self.tracks.clone(),
        };
        assert(r@.tracks =~= self@.tracks);
        r
    }
}

impl Default for MidiSong {
    /// The song without tracks, of format 0 and resolution 0.
    fn default() -> (r: MidiSong)
        ensures
            r@ == (MidiSongView { t: 0, pulses_per_quarter_note: 0, tracks: Seq::empty() }),
    {
        let r = MidiSong { t: 0, pulses_per_quarter_note: 0, tracks: Vec::new() };
        assert(r@.tracks =~= Seq::empty());
        r
    }
}

} // verus!
