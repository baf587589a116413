//! Pitch identities and their frequencies.

use vstd::prelude::*;

verus! {

/// A playable pitch over an octave and a half from middle C; `Rest` is the
/// sentinel for "no note". Names ending in `_5` are the sharp a half step
/// above the named natural.
#[derive(Clone, Copy, Debug, PartialEq, Eq, Structural)]
pub enum Note {
    Rest,
    C4,
    C4_5,
    D4,
    D4_5,
    E4,
    F4,
    F4_5,
    G4,
    G4_5,
    A4,
    A4_5,
    B4,
    C5,
    C5_5,
    D5,
    D5_5,
    E5,
    F5,
    F5_5,
    G5,
}

/// The fixed tuning table, in millihertz (equal temperament around A4 = 440 Hz).
pub open spec fn spec_freq_millihz(n: Note) -> int {
    match n {
        Note::Rest => 0,
        Note::C4 => 261626,
        Note::C4_5 => 277183,
        Note::D4 => 293665,
        Note::D4_5 => 311127,
        Note::E4 => 329628,
        Note::F4 => 349228,
        Note::F4_5 => 369994,
        Note::G4 => 392000,
        Note::G4_5 => 415305,
        Note::A4 => 440000,
        Note::A4_5 => 466164,
        Note::B4 => 493883,
        Note::C5 => 523251,
        Note::C5_5 => 554365,
        Note::D5 => 587330,
        Note::D5_5 => 622254,
        Note::E5 => 659255,
        Note::F5 => 698456,
        Note::F5_5 => 739989,
        Note::G5 => 783991,
    }
}

impl Note {
    /// The note's frequency in millihertz; zero exactly for `Rest`.
    pub fn freq_millihz(&self) -> (f: i64)
        ensures
            f == spec_freq_millihz(*self),
            0 <= f <= 800000,
            f == 0 <==> *self is Rest,
    {
        match self {
            Note::Rest => 0,
            Note::C4 => 261626,
            Note::C4_5 => 277183,
            Note::D4 => 293665,
            Note::D4_5 => 311127,
            Note::E4 => 329628,
            Note::F4 => 349228,
            Note::F4_5 => 369994,
            Note::G4 => 392000,
            Note::G4_5 => 415305,
            Note::A4 => 440000,
            Note::A4_5 => 466164,
            Note::B4 => 493883,
            Note::C5 => 523251,
            Note::C5_5 => 554365,
            Note::D5 => 587330,
            Note::D5_5 => 622254,
            Note::E5 => 659255,
            Note::F5 => 698456,
            Note::F5_5 => 739989,
            Note::G5 => 783991,
        }
    }
}

} // verus!
