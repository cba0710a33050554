//! The playback scheduler: replays a song against a clock, in whole
//! microseconds, and keeps exact time.
//!
//! All time is held in units of which one microsecond is as many as the song
//! has pulses per quarter note. One tick of the song is then as many units as
//! a quarter note has microseconds, and no division is ever needed: an event
//! is due when the ticks before it, times the tempo, have elapsed.

use super::event::MidiEvent;
use super::event::MidiEventView;
use super::midi_song::MidiSong;
use super::midi_song::MidiSongView;
use super::midi_song::MidiTrack;
use super::midi_song::MidiTrackView;
use crate::pipe::Pipe;
use vstd::prelude::*;

verus! {

/// The tempo before any tempo event: 120 quarter notes a minute, that is
/// 500 000 microseconds to the quarter note.
pub const DEFAULT_TEMPO: u32 = 500_000;

/// The time that a cursor can hold, in units, is below this limit.
pub open spec fn elapsed_limit() -> nat {
    0x1_0000_0000_0000_0000_0000_0000
}

/// Where a track stands: the units that have elapsed since its last event
/// fired, and the index of its next event.
pub struct CursorView {
    pub elapsed: nat,
    pub index: nat,
}

/// The state of a player: one cursor for each track, and the tempo, in
/// microseconds to the quarter note, that all tracks share.
pub struct PlayerView {
    pub cursors: Seq<CursorView>,
    pub tempo: nat,
}

/// What one track did in one step.
pub struct TrackRun {
    pub cursor: CursorView,
    pub tempo: nat,
    pub fired: Seq<MidiEventView>,
}

/// What a player did in one step.
pub struct PlayerRun {
    pub player: PlayerView,
    pub fired: Seq<MidiEventView>,
}

/// The tempo that holds once `event` has fired. A tempo event sets it; one
/// that asks for zero microseconds is absorbed and changes nothing.
pub open spec fn tempo_after(event: MidiEventView, tempo: nat) -> nat {
    match event {
        MidiEventView::SetTempo { microseconds_per_quarter_note } => {
            if microseconds_per_quarter_note > 0 {
                microseconds_per_quarter_note as nat
            } else {
                tempo
            }
        },
        _ => tempo,
    }
}

/// What the sink gets of a fired event: the event itself, or nothing where
/// it is a tempo event.
pub open spec fn forwarded(event: MidiEventView) -> Seq<MidiEventView> {
    if event is SetTempo {
        Seq::empty()
    } else {
        seq![event]
    }
}

/// Fires the events of a track that are due.
///
/// The next event is due when its delta time, at the tempo of the moment,
/// does not exceed the elapsed time; firing it takes that much off the
/// elapsed time. A cursor behind the last event keeps no time.
pub open spec fn run_track(track: MidiTrackView, cursor: CursorView, tempo: nat) -> TrackRun
    decreases track.events.len() - cursor.index,
{
    if cursor.index >= track.events.len() {
        TrackRun {
            cursor: CursorView { elapsed: 0, index: cursor.index },
            tempo,
            fired: Seq::empty(),
        }
    } else if track.dts[cursor.index as int] * tempo > cursor.elapsed {
        TrackRun { cursor, tempo, fired: Seq::empty() }
    } else {
        let event = track.events[cursor.index as int];
        let rest = run_track(
            track,
            CursorView {
                elapsed: (cursor.elapsed - track.dts[cursor.index as int] * tempo) as nat,
                index: cursor.index + 1,
            },
            tempo_after(event, tempo),
        );
        TrackRun { cursor: rest.cursor, tempo: rest.tempo, fired: forwarded(event) + rest.fired }
    }
}

/// The cursor once `dt` microseconds more have elapsed, before anything
/// fires.
pub open spec fn wind(cursor: CursorView, dt: nat, pulses_per_quarter_note: nat) -> CursorView {
    CursorView { elapsed: cursor.elapsed + dt * pulses_per_quarter_note, index: cursor.index }
}

/// One step of `dt` microseconds for the tracks from `i` on, in order. Each
/// track runs at the tempo that the tracks before it have left.
pub open spec fn step_from(song: MidiSongView, player: PlayerView, dt: nat, i: int) -> PlayerRun
    decreases song.tracks.len() - i,
{
    if i < 0 || i >= song.tracks.len() {
        PlayerRun { player, fired: Seq::empty() }
    } else {
        let run = run_track(
            song.tracks[i],
            wind(player.cursors[i], dt, song.pulses_per_quarter_note as nat),
            player.tempo,
        );
        let rest = step_from(
            song,
            PlayerView { cursors: player.cursors.update(i, run.cursor), tempo: run.tempo },
            dt,
            i + 1,
        );
        PlayerRun { player: rest.player, fired: run.fired + rest.fired }
    }
}

/// One step of `dt` microseconds for the whole song.
pub open spec fn step(song: MidiSongView, player: PlayerView, dt: nat) -> PlayerRun {
    step_from(song, player, dt, 0)
}

/// What a sequence of events holds.
pub open spec fn views(events: Seq<MidiEvent>) -> Seq<MidiEventView> {
    events.map_values(|e: MidiEvent| e@)
}

impl CursorView {
    /// The cursor stands inside the track or right behind it, keeps no time
    /// behind it, and its time is below the limit.
    pub open spec fn wf(self, track: MidiTrackView) -> bool {
        &&& self.index <= track.events.len()
        &&& self.index == track.events.len() ==> self.elapsed == 0
        &&& self.elapsed < elapsed_limit()
    }
}

impl PlayerView {
    /// The player fits the song: one good cursor for each track, and a tempo
    /// above zero that fits 32 bits.
    pub open spec fn wf(self, song: MidiSongView) -> bool {
        &&& self.cursors.len() == song.tracks.len()
        &&& forall|i: int|
            0 <= i < self.cursors.len() ==> (#[trigger] self.cursors[i]).wf(song.tracks[i])
        &&& 0 < self.tempo <= u32::MAX
    }

    /// The player at the start of a song of `n` tracks.
    pub open spec fn start(n: nat) -> PlayerView {
        PlayerView {
            cursors: Seq::new(n, |i: int| CursorView { elapsed: 0, index: 0 }),
            tempo: DEFAULT_TEMPO as nat,
        }
    }
}

#[derive(Debug, Clone, Copy, PartialEq)]
struct MidiTrackCursor {
    elapsed: u128,
    index: usize,
}

impl View for MidiTrackCursor {
    type V = CursorView;

    closed spec fn view(&self) -> CursorView {
        CursorView { elapsed: self.elapsed as nat, index: self.index as nat }
    }
}

/// Replays a song, step by step.
#[derive(Debug, PartialEq)]
pub struct MidiPlayer {
    cursors: Vec<MidiTrackCursor>,
    tempo: u32,
}

impl View for MidiPlayer {
    type V = PlayerView;

    closed spec fn view(&self) -> PlayerView {
        PlayerView {
            cursors: self.cursors@.map_values(|c: MidiTrackCursor| c@),
            tempo: self.tempo as nat,
        }
    }
}

impl Clone for MidiPlayer {
    /// A player in the same state.
    fn clone(&self) -> (r: MidiPlayer)
        ensures
            r@ == self@,
    {
        let r = MidiPlayer { cursors: self.cursors.clone(), tempo: self.tempo };
        assert(r@.cursors =~= self@.cursors);
        r
    }
}

impl Default for MidiPlayer {
    /// A player for a song without tracks, at the default tempo.
    fn default() -> (r: MidiPlayer)
        ensures
            r@ == PlayerView::start(0),
    {
        let r = MidiPlayer { cursors: Vec::new(), tempo: DEFAULT_TEMPO };
        assert(r@.cursors =~= PlayerView::start(0).cursors);
        r
    }
}

impl MidiPlayer {
    /// The player fits the song, and every event of the song has its delta
    /// time.
    pub open spec fn wf(&self, song: &MidiSong) -> bool {
        song.wf() && self@.wf(song@)
    }

    /// A player at the start of `song`, at the default tempo.
    pub fn new(song: &MidiSong) -> (r: MidiPlayer)
        ensures
            r@ == PlayerView::start(song@.tracks.len()),
            song.wf() ==> r.wf(song),
    {
        let n: usize = song.tracks.len();
        let mut cursors: Vec<MidiTrackCursor> = Vec::new();
        let mut i: usize = 0;
        while i < n
            invariant
                i <= n,
                cursors.len() == i,
                forall|k: int| 0 <= k < i ==> cursors[k] == (MidiTrackCursor { elapsed: 0, index: 0 }),
            decreases n - i,
        {
            cursors.push(MidiTrackCursor { elapsed: 0, index: 0 });
            i = i + 1;
        }
        let r = MidiPlayer { cursors, tempo: DEFAULT_TEMPO };
        assert(r@.cursors =~= PlayerView::start(song@.tracks.len()).cursors);
        r
    }

    /// Starts over: the player is as `new` makes it.
    pub fn reset(&mut self, song: &MidiSong)
        ensures
            final(self)@ == PlayerView::start(song@.tracks.len()),
            song.wf() ==> final(self).wf(song),
    {
        *self = MidiPlayer::new(song);
    }

    /// Whether the player fits the song, so that `update` may be called.
    pub fn fits(&self, song: &MidiSong) -> (r: bool)
        ensures
            r == self.wf(song),
    {
        let n: usize = song.tracks.len();
        if self.cursors.len() != n || self.tempo == 0 {
            return false;
        }
        let mut i: usize = 0;
        while i < n
            invariant
                i <= n,
                n == song.tracks.len() == self.cursors.len(),
                forall|k: int| 0 <= k < i ==> (#[trigger] song@.tracks[k]).wf(),
                forall|k: int| 0 <= k < i ==> (#[trigger] self@.cursors[k]).wf(song@.tracks[k]),
            decreases n - i,
        {
            let track: &MidiTrack = &song.tracks[i];
            let cursor: &MidiTrackCursor = &self.cursors[i];
            assert(song@.tracks[i as int] == track@);
            assert(self@.cursors[i as int] == cursor@);
            let events: usize = track.events.len();
            if track.dts.len() != events || cursor.index > events || (cursor.index == events
                && cursor.elapsed != 0) || cursor.elapsed >= 0x1_0000_0000_0000_0000_0000_0000 {
                return false;
            }
            i = i + 1;
        }
        true
    }

    /// The tempo at this moment, in microseconds to the quarter note.
    pub fn microseconds_per_quarter_note(&self) -> (r: u32)
        ensures
            r == self@.tempo,
    {
        self.tempo
    }

    /// Lets `dt` microseconds pass.
    ///
    /// Track by track, in order, the events that are due fire. A tempo event
    /// that fires sets the tempo for all that follows, on this track and on
    /// the others, and goes no further; every other event that fires is sent
    /// to `midi_pipe`.
    pub fn update<P: Pipe<MidiEvent>>(&mut self, dt: u64, song: &MidiSong, midi_pipe: &mut P)
        requires
            old(self).wf(song),
        ensures
            final(self)@ == step(song@, old(self)@, dt as nat).player,
            views(final(midi_pipe).sent()) == views(old(midi_pipe).sent()) + step(
                song@,
                old(self)@,
                dt as nat,
            ).fired,
            final(self).wf(song),
    {
        let n: usize = self.cursors.len();
        let ghost mut fired: Seq<MidiEventView> = Seq::empty();
        let mut i: usize = 0;
        assert(views(midi_pipe.sent()) + fired =~= views(midi_pipe.sent()));
        while i < n
            invariant
                i <= n,
                n == self.cursors.len(),
                self.wf(song),
                step(song@, old(self)@, dt as nat).player == step_from(
                    song@,
                    self@,
                    dt as nat,
                    i as int,
                ).player,
                step(song@, old(self)@, dt as nat).fired == fired + step_from(
                    song@,
                    self@,
                    dt as nat,
                    i as int,
                ).fired,
                views(midi_pipe.sent()) == views(old(midi_pipe).sent()) + fired,
            decreases n - i,
        {
            let track: &MidiTrack = &song.tracks[i];
            let ghost before = self@;
            let ghost begin = wind(before.cursors[i as int], dt as nat, song.pulses_per_quarter_note as nat);
            let ghost tempo_begin = self.tempo as nat;
            let ghost mut fired_here: Seq<MidiEventView> = Seq::empty();
            assert(song@.tracks[i as int] == track@);
            assert(before.cursors[i as int] == self.cursors[i as int]@);
            assert(before.cursors[i as int].wf(track@));
            assert(dt as u128 * song.pulses_per_quarter_note as u128 <= 0xFFFF_FFFF_FFFF_FFFF
                * 0xFFFF_FFFF) by (nonlinear_arith)
                requires
                    dt <= 0xFFFF_FFFF_FFFF_FFFF,
                    song.pulses_per_quarter_note <= 0xFFFF_FFFF,
            ;
            let wound: u128 = (dt as u128) * (song.pulses_per_quarter_note as u128);
            let mut elapsed: u128 = self.cursors[i].elapsed + wound;
            let mut index: usize = self.cursors[i].index;
            let mut tempo: u32 = self.tempo;
            assert(fired_here + run_track(track@, begin, tempo_begin).fired =~= run_track(
                track@,
                begin,
                tempo_begin,
            ).fired);
            while index < track.events.len()
                invariant
                    track.wf(),
                    index <= track.events.len(),
                    0 < tempo,
                    run_track(track@, begin, tempo_begin).cursor == run_track(
                        track@,
                        CursorView { elapsed: elapsed as nat, index: index as nat },
                        tempo as nat,
                    ).cursor,
                    run_track(track@, begin, tempo_begin).tempo == run_track(
                        track@,
                        CursorView { elapsed: elapsed as nat, index: index as nat },
                        tempo as nat,
                    ).tempo,
                    run_track(track@, begin, tempo_begin).fired == fired_here + run_track(
                        track@,
                        CursorView { elapsed: elapsed as nat, index: index as nat },
                        tempo as nat,
                    ).fired,
                    views(midi_pipe.sent()) == views(old(midi_pipe).sent()) + fired + fired_here,
                ensures
                    index >= track.events.len() || track.dts[index as int] * tempo > elapsed,
                decreases track.events.len() - index,
            {
                let ticks: usize = track.dts[index];
                assert(ticks as u128 * tempo as u128 <= 0xFFFF_FFFF_FFFF_FFFF * 0xFFFF_FFFF)
                    by (nonlinear_arith)
                    requires
                        ticks <= 0xFFFF_FFFF_FFFF_FFFF,
                        tempo <= 0xFFFF_FFFF,
                ;
                let due: u128 = (ticks as u128) * (tempo as u128);
                if due > elapsed {
                    break ;
                }
                let event: MidiEvent = track.events[index].clone();
                assert(event@ == track@.events[index as int]);
                let ghost sent_before = midi_pipe.sent();
                let ghost here_before = fired_here;
                let ghost rest = run_track(
                    track@,
                    CursorView { elapsed: (elapsed - due) as nat, index: (index + 1) as nat },
                    tempo_after(event@, tempo as nat),
                );
                elapsed = elapsed - due;
                index = index + 1;
                match event {
                    MidiEvent::SetTempo { microseconds_per_quarter_note } => {
                        if microseconds_per_quarter_note > 0 {
                            tempo = microseconds_per_quarter_note;
                        }
                        proof {
                            assert(here_before + (forwarded(event@) + rest.fired) =~= fired_here
                                + rest.fired);
                        }
                    },
                    other => {
                        midi_pipe.send(other);
                        proof {
                            fired_here = here_before.push(event@);
                            assert(views(sent_before.push(other)) =~= views(sent_before).push(
                                event@,
                            ));
                            assert(views(old(midi_pipe).sent()) + fired + here_before.push(event@)
                                =~= (views(old(midi_pipe).sent()) + fired + here_before).push(
                                event@,
                            ));
                            assert(here_before + (forwarded(event@) + rest.fired) =~= fired_here
                                + rest.fired);
                        }
                    },
                }
            }
            if index >= track.events.len() {
                elapsed = 0;
            }
            let ghost run = run_track(track@, begin, tempo_begin);
            assert(run.cursor == (CursorView { elapsed: elapsed as nat, index: index as nat }));
            assert(run.tempo == tempo as nat);
            assert(run.fired =~= fired_here + Seq::<MidiEventView>::empty());
            self.cursors.set(i, MidiTrackCursor { elapsed, index });
            self.tempo = tempo;
            proof {
                let rest = step_from(
                    song@,
                    PlayerView {
                        cursors: before.cursors.update(i as int, run.cursor),
                        tempo: run.tempo,
                    },
                    dt as nat,
                    i + 1,
                );
                assert(self@.cursors =~= before.cursors.update(i as int, run.cursor));
                assert(track.dts@.len() == track.events@.len());
                assert(index < track.events.len() ==> track.dts[index as int] * tempo
                    <= 0xFFFF_FFFF_FFFF_FFFF * 0xFFFF_FFFF) by (nonlinear_arith)
                    requires
                        index < track.events.len() ==> track.dts[index as int]
                            <= 0xFFFF_FFFF_FFFF_FFFF,
                        tempo <= 0xFFFF_FFFF,
                ;
                assert(run.cursor.wf(track@));
                assert forall|k: int| 0 <= k < self@.cursors.len() implies (
                #[trigger] self@.cursors[k]).wf(song@.tracks[k]) by {
                    if k != i {
                        assert(self@.cursors[k] == before.cursors[k]);
                    }
                }
                assert(fired + (run.fired + rest.fired) =~= fired + fired_here + rest.fired);
                fired = fired + fired_here;
            }
            i = i + 1;
        }
        proof {
            assert(fired + Seq::<MidiEventView>::empty() =~= fired);
        }
    }
}

/// The cursor with `extra` units more on its clock.
pub open spec fn later(cursor: CursorView, extra: nat) -> CursorView {
    CursorView { elapsed: cursor.elapsed + extra, index: cursor.index }
}

/// The next event of a track fires exactly when it is due: when its delta
/// time, at the tempo of the moment, does not exceed the elapsed time. One
/// unit less than that, and the cursor stays where it is and nothing is sent.
pub proof fn lemma_fires_exactly_when_due(track: MidiTrackView, cursor: CursorView, tempo: nat)
    requires
        cursor.index < track.events.len(),
    ensures
        track.dts[cursor.index as int] * tempo <= cursor.elapsed ==> run_track(
            track,
            cursor,
            tempo,
        ).cursor.index > cursor.index,
        track.dts[cursor.index as int] * tempo > cursor.elapsed ==> run_track(
            track,
            cursor,
            tempo,
        ) == (TrackRun { cursor, tempo, fired: Seq::empty() }),
{
    if track.dts[cursor.index as int] * tempo <= cursor.elapsed {
        lemma_run_moves_on(
            track,
            CursorView {
                elapsed: (cursor.elapsed - track.dts[cursor.index as int] * tempo) as nat,
                index: cursor.index + 1,
            },
            tempo_after(track.events[cursor.index as int], tempo),
        );
    }
}

/// A cursor never moves back, nor beyond the end of its track.
pub proof fn lemma_run_moves_on(track: MidiTrackView, cursor: CursorView, tempo: nat)
    ensures
        cursor.index <= run_track(track, cursor, tempo).cursor.index,
        cursor.index <= track.events.len() ==> run_track(track, cursor, tempo).cursor.index
            <= track.events.len(),
    decreases track.events.len() - cursor.index,
{
    if cursor.index < track.events.len() && track.dts[cursor.index as int] * tempo
        <= cursor.elapsed {
        lemma_run_moves_on(
            track,
            CursorView {
                elapsed: (cursor.elapsed - track.dts[cursor.index as int] * tempo) as nat,
                index: cursor.index + 1,
            },
            tempo_after(track.events[cursor.index as int], tempo),
        );
    }
}

/// In a step no cursor moves back: the index of every track's next event
/// stays or grows, and the player keeps one cursor for each track.
pub proof fn lemma_step_moves_on(song: MidiSongView, player: PlayerView, dt: nat, i: int)
    requires
        player.cursors.len() == song.tracks.len(),
        0 <= i,
    ensures
        step_from(song, player, dt, i).player.cursors.len() == player.cursors.len(),
        forall|j: int|
            0 <= j < player.cursors.len() ==> player.cursors[j].index <= (#[trigger] step_from(
                song,
                player,
                dt,
                i,
            ).player.cursors[j]).index,
    decreases song.tracks.len() - i,
{
    if i < song.tracks.len() {
        let begin = wind(player.cursors[i], dt, song.pulses_per_quarter_note as nat);
        let run = run_track(song.tracks[i], begin, player.tempo);
        let next = PlayerView { cursors: player.cursors.update(i, run.cursor), tempo: run.tempo };
        lemma_run_moves_on(song.tracks[i], begin, player.tempo);
        lemma_step_moves_on(song, next, dt, i + 1);
        let rest = step_from(song, next, dt, i + 1).player;
        assert forall|j: int| 0 <= j < player.cursors.len() implies player.cursors[j].index <= (
        #[trigger] rest.cursors[j]).index by {
            assert(next.cursors[j].index <= rest.cursors[j].index);
        }
    }
}

/// On one track, time may pass in pieces: to run, let `extra` units pass and
/// run again fires the same events in the same order, and ends in the same
/// state, as to let them pass at once.
pub proof fn lemma_run_in_pieces(track: MidiTrackView, cursor: CursorView, tempo: nat, extra: nat)
    ensures
        ({
            let first = run_track(track, cursor, tempo);
            let second = run_track(track, later(first.cursor, extra), first.tempo);
            let whole = run_track(track, later(cursor, extra), tempo);
            &&& whole.cursor == second.cursor
            &&& whole.tempo == second.tempo
            &&& whole.fired == first.fired + second.fired
        }),
    decreases track.events.len() - cursor.index,
{
    let first = run_track(track, cursor, tempo);
    let second = run_track(track, later(first.cursor, extra), first.tempo);
    let whole = run_track(track, later(cursor, extra), tempo);
    if cursor.index >= track.events.len() {
        assert(whole.fired =~= first.fired + second.fired);
    } else if track.dts[cursor.index as int] * tempo > cursor.elapsed {
        assert(whole.fired =~= first.fired + second.fired);
    } else {
        let due = track.dts[cursor.index as int] * tempo;
        let event = track.events[cursor.index as int];
        let next = CursorView { elapsed: (cursor.elapsed - due) as nat, index: cursor.index + 1 };
        lemma_run_in_pieces(track, next, tempo_after(event, tempo), extra);
        let first_rest = run_track(track, next, tempo_after(event, tempo));
        let whole_rest = run_track(track, later(next, extra), tempo_after(event, tempo));
        assert(later(next, extra) == (CursorView {
            elapsed: (later(cursor, extra).elapsed - due) as nat,
            index: cursor.index + 1,
        }));
        assert(forwarded(event) + whole_rest.fired =~= (forwarded(event) + first_rest.fired)
            + second.fired);
    }
}

/// At most one track of the song holds events.
pub open spec fn one_voice(song: MidiSongView) -> bool {
    forall|i: int, j: int|
        0 <= i < j < song.tracks.len() ==> song.tracks[i].events.len() == 0
            || song.tracks[j].events.len() == 0
}

/// The cursor at the same event, with its clock at zero.
pub open spec fn parked(cursor: CursorView) -> CursorView {
    CursorView { elapsed: 0, index: cursor.index }
}

// One step of a song whose tracks other than `k` hold no events: track `k`
// runs, and every other cursor keeps no time.
spec fn solo_step(song: MidiSongView, player: PlayerView, dt: nat, k: int) -> PlayerRun {
    let run = run_track(
        song.tracks[k],
        wind(player.cursors[k], dt, song.pulses_per_quarter_note as nat),
        player.tempo,
    );
    PlayerRun {
        player: PlayerView {
            cursors: Seq::new(
                player.cursors.len(),
                |j: int|
                    if j == k {
                        run.cursor
                    } else {
                        parked(player.cursors[j])
                    },
            ),
            tempo: run.tempo,
        },
        fired: run.fired,
    }
}

proof fn lemma_solo_step_from(song: MidiSongView, player: PlayerView, dt: nat, k: int, i: int)
    requires
        player.cursors.len() == song.tracks.len(),
        0 <= k < song.tracks.len(),
        0 <= i <= song.tracks.len(),
        forall|j: int| 0 <= j < song.tracks.len() && j != k ==> song.tracks[j].events.len() == 0,
    ensures
        ({
            let solo = solo_step(song, player, dt, k);
            let rest = step_from(song, player, dt, i);
            &&& rest.player.cursors.len() == player.cursors.len()
            &&& forall|j: int| 0 <= j < i ==> rest.player.cursors[j] == player.cursors[j]
            &&& forall|j: int|
                i <= j < song.tracks.len() ==> rest.player.cursors[j] == solo.player.cursors[j]
            &&& i <= k ==> rest.player.tempo == solo.player.tempo && rest.fired == solo.fired
            &&& i > k ==> rest.player.tempo == player.tempo && rest.fired == Seq::<
                MidiEventView,
            >::empty()
        }),
    decreases song.tracks.len() - i,
{
    if i < song.tracks.len() {
        let run = run_track(
            song.tracks[i],
            wind(player.cursors[i], dt, song.pulses_per_quarter_note as nat),
            player.tempo,
        );
        let next = PlayerView { cursors: player.cursors.update(i, run.cursor), tempo: run.tempo };
        lemma_solo_step_from(song, next, dt, k, i + 1);
        let rest = step_from(song, next, dt, i + 1);
        let solo = solo_step(song, player, dt, k);
        let solo_next = solo_step(song, next, dt, k);
        if i != k {
            assert(run == (TrackRun {
                cursor: parked(wind(player.cursors[i], dt, song.pulses_per_quarter_note as nat)),
                tempo: player.tempo,
                fired: Seq::empty(),
            }));
            assert(next.cursors[k] == player.cursors[k]);
            assert(solo_next.fired == solo.fired);
            assert(solo_next.player.tempo == solo.player.tempo);
        }
        assert forall|j: int| i < j < song.tracks.len() implies solo_next.player.cursors[j]
            == solo.player.cursors[j] by {
            assert(next.cursors[j] == player.cursors[j]);
        }
        assert forall|j: int| 0 <= j < i implies rest.player.cursors[j] == player.cursors[j] by {
            assert(rest.player.cursors[j] == next.cursors[j]);
        }
        assert(rest.player.cursors[i] == next.cursors[i]);
        assert(next.cursors[i] == run.cursor);
        if i != k {
            assert(solo.player.cursors[i] == parked(player.cursors[i]));
        } else {
            assert(solo.player.cursors[i] == run.cursor);
        }
        assert(rest.player.cursors[i] == solo.player.cursors[i]);
        assert(run.fired + rest.fired =~= if i <= k {
            solo.fired
        } else {
            Seq::empty()
        });
    }
}

/// A song in which at most one track holds events replays the same whether
/// time passes in pieces or at once: two steps of `a` and of `b`
/// microseconds send the events that one step of `a + b` microseconds sends,
/// in the same order, and leave the player in the same state.
pub proof fn lemma_steps_add_up(song: MidiSongView, player: PlayerView, a: nat, b: nat)
    requires
        one_voice(song),
        player.cursors.len() == song.tracks.len(),
    ensures
        ({
            let first = step(song, player, a);
            let second = step(song, first.player, b);
            let whole = step(song, player, a + b);
            &&& whole.player == second.player
            &&& whole.fired == first.fired + second.fired
        }),
{
    let n = song.tracks.len() as int;
    let first = step(song, player, a);
    let second = step(song, first.player, b);
    let whole = step(song, player, a + b);
    if n == 0 {
        assert(whole.fired =~= first.fired + second.fired);
    } else {
        let k = if exists|i: int| 0 <= i < n && song.tracks[i].events.len() != 0 {
            choose|i: int| 0 <= i < n && song.tracks[i].events.len() != 0
        } else {
            0
        };
        assert forall|j: int| 0 <= j < n && j != k implies song.tracks[j].events.len() == 0 by {
            if song.tracks[j].events.len() != 0 {
                if j < k {
                    assert(song.tracks[j].events.len() == 0 || song.tracks[k].events.len() == 0);
                } else {
                    assert(song.tracks[k].events.len() == 0 || song.tracks[j].events.len() == 0);
                }
            }
        }
        let ppqn = song.pulses_per_quarter_note as nat;
        let track = song.tracks[k];
        let cursor = player.cursors[k];
        lemma_solo_step_from(song, player, a, k, 0);
        lemma_solo_step_from(song, first.player, b, k, 0);
        lemma_solo_step_from(song, player, a + b, k, 0);
        lemma_run_in_pieces(track, wind(cursor, a, ppqn), player.tempo, b * ppqn);
        assert((a + b) * ppqn == a * ppqn + b * ppqn) by (nonlinear_arith);
        assert(later(wind(cursor, a, ppqn), b * ppqn) == wind(cursor, a + b, ppqn));
        assert(later(first.player.cursors[k], b * ppqn) == wind(first.player.cursors[k], b, ppqn));
        assert(whole.player.cursors =~= second.player.cursors);
    }
}

/// The sum of some steps, in microseconds.
pub open spec fn total(dts: Seq<nat>) -> nat
    decreases dts.len(),
{
    if dts.len() == 0 {
        0
    } else {
        dts[0] + total(dts.drop_first())
    }
}

/// One step after the other, of `dts[0]` microseconds, then of `dts[1]`, and
/// so on: the state at the end, and all that was sent, in order.
pub open spec fn replay(song: MidiSongView, player: PlayerView, dts: Seq<nat>) -> PlayerRun
    decreases dts.len(),
{
    if dts.len() == 0 {
        PlayerRun { player, fired: Seq::empty() }
    } else {
        let first = step(song, player, dts[0]);
        let rest = replay(song, first.player, dts.drop_first());
        PlayerRun { player: rest.player, fired: first.fired + rest.fired }
    }
}

/// A song in which at most one track holds events replays the same in any
/// number of steps: one or more steps send the events that one step of
/// their sum sends, in the same order, and leave the player in the same
/// state.
pub proof fn lemma_replay_adds_up(song: MidiSongView, player: PlayerView, dts: Seq<nat>)
    requires
        one_voice(song),
        player.cursors.len() == song.tracks.len(),
        dts.len() > 0,
    ensures
        replay(song, player, dts) == step(song, player, total(dts)),
    decreases dts.len(),
{
    let first = step(song, player, dts[0]);
    let later_steps = dts.drop_first();
    if later_steps.len() == 0 {
        assert(total(later_steps) == 0);
        assert(replay(song, first.player, later_steps).fired == Seq::<MidiEventView>::empty());
        assert(first.fired + Seq::<MidiEventView>::empty() =~= first.fired);
    } else {
        lemma_step_moves_on(song, player, dts[0], 0);
        lemma_replay_adds_up(song, first.player, later_steps);
        lemma_steps_add_up(song, player, dts[0], total(later_steps));
    }
}

} // verus!
