//! The names of notes.

use vstd::prelude::*;

verus! {

/// The name of the note that is `step` semitones above a C, for a step
/// below twelve.
pub open spec fn step_name(step: int) -> Seq<char> {
    if step == 0 {
        "C"@
    } else if step == 1 {
        "C#"@
    } else if step == 2 {
        "D"@
    } else if step == 3 {
        "D#"@
    } else if step == 4 {
        "E"@
    } else if step == 5 {
        "F"@
    } else if step == 6 {
        "F#"@
    } else if step == 7 {
        "G"@
    } else if step == 8 {
        "G#"@
    } else if step == 9 {
        "A"@
    } else if step == 10 {
        "A#"@
    } else {
        "B"@
    }
}

/// Whether a semitone has a name: it is not negative, or it is a C.
pub open spec fn has_name(semitone: int) -> bool {
    semitone >= 0 || semitone % 12 == 0
}

fn name_of_step(step: usize) -> (r: &'static str)
    requires
        step < 12,
    ensures
        r@ == step_name(step as int),
{
    match step {
        0 => "C",
        1 => "C#",
        2 => "D",
        3 => "D#",
        4 => "E",
        5 => "F",
        6 => "F#",
        7 => "G",
        8 => "G#",
        9 => "A",
        10 => "A#",
        _ => "B",
    }
}

/// The name of a note and its octave: twelve semitones make an octave, and
/// the semitones of an octave are named from C upwards. A negative semitone
/// has a name only where it is a C.
pub fn note_name(semitone: isize) -> (r: Option<(&'static str, isize)>)
    ensures
        match r {
            Some((name, octave)) => has_name(semitone as int) && name@ == step_name(
                semitone as int % 12,
            ) && octave == semitone as int / 12,
            None => !has_name(semitone as int),
        },
{
    if semitone >= 0 {
        let up: usize = semitone as usize;
        Some((name_of_step(up % 12), (up / 12) as isize))
    } else if semitone == isize::MIN {
        assert(isize::MIN == -0x8000_0000 || isize::MIN == -0x8000_0000_0000_0000);
        None
    } else {
        let down: usize = (0 - semitone) as usize;
        if down % 12 == 0 {
            Some((name_of_step(0), 0 - (down / 12) as isize))
        } else {
            None
        }
    }
}

} // verus!
