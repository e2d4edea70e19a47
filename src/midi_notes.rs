//! The first, smaller note set of the ocarina, keyed from G3 (55) upwards.
use vstd::prelude::*;

verus! {

#[derive(Clone, Copy, Debug, PartialEq, Eq, Structural)]
pub enum Note {
    G3,
    Ab3,
    A3,
    Bb3,
    B3,
    C4,
    D4,
    E4,
    F4,
    Gb4,
    G4,
    Bb4,
    B4,
    /// No note: the signal was not a note-on.
    NoNote,
}

/// The note at index `i` of the set, in declaration order.
pub open spec fn note_at(i: int) -> Note {
    if i == 0 { Note::G3 }
    else if i == 1 { Note::Ab3 }
    else if i == 2 { Note::A3 }
    else if i == 3 { Note::Bb3 }
    else if i == 4 { Note::B3 }
    else if i == 5 { Note::C4 }
    else if i == 6 { Note::D4 }
    else if i == 7 { Note::E4 }
    else if i == 8 { Note::F4 }
    else if i == 9 { Note::Gb4 }
    else if i == 10 { Note::G4 }
    else if i == 11 { Note::Bb4 }
    else if i == 12 { Note::B4 }
    else { Note::NoNote }
}

pub open spec fn ordinal_spec(n: Note) -> u8 {
    match n {
        Note::G3 => 0,
        Note::Ab3 => 1,
        Note::A3 => 2,
        Note::Bb3 => 3,
        Note::B3 => 4,
        Note::C4 => 5,
        Note::D4 => 6,
        Note::E4 => 7,
        Note::F4 => 8,
        Note::Gb4 => 9,
        Note::G4 => 10,
        Note::Bb4 => 11,
        Note::B4 => 12,
        Note::NoNote => 13,
    }
}

pub open spec fn velocity_percentage_spec(velocity: u8) -> u8 {
    if velocity == 0 { 0 } else if velocity == 127 { 100 } else { velocity / 127 }
}

impl Note {
    pub const STATE_OFF: u8 = 128;
    pub const STATE_ON: u8 = 144;

    /// Position in declaration order.
    pub fn ordinal(&self) -> (r: u8)
        ensures
            r == ordinal_spec(*self),
    {
        match self {
            Note::G3 => 0,
            Note::Ab3 => 1,
            Note::A3 => 2,
            Note::Bb3 => 3,
            Note::B3 => 4,
            Note::C4 => 5,
            Note::D4 => 6,
            Note::E4 => 7,
            Note::F4 => 8,
            Note::Gb4 => 9,
            Note::G4 => 10,
            Note::Bb4 => 11,
            Note::B4 => 12,
            Note::NoNote => 13,
        }
    }

    /// The note `byte - 55` places in the set, if any; keys below 55 have none.
    pub fn from_byte(byte: u8) -> (r: Option<Note>)
        requires
            byte >= 55,
        ensures
            byte < 69 ==> r == Some(note_at(byte - 55)),
            byte >= 69 ==> r is None,
    {
        let i = byte - 55;
        if i >= 14 {
            return None;
        }
        let n = if i == 0 { Note::G3 }
            else if i == 1 { Note::Ab3 }
            else if i == 2 { Note::A3 }
            else if i == 3 { Note::Bb3 }
            else if i == 4 { Note::B3 }
            else if i == 5 { Note::C4 }
            else if i == 6 { Note::D4 }
            else if i == 7 { Note::E4 }
            else if i == 8 { Note::F4 }
            else if i == 9 { Note::Gb4 }
            else if i == 10 { Note::G4 }
            else if i == 11 { Note::Bb4 }
            else if i == 12 { Note::B4 }
            else { Note::NoNote };
        Some(n)
    }

    /// 0 for silence, 100 for full strength, and the whole part of
    /// `velocity / 127` otherwise.
    pub fn velocity_percentage(velocity: u8) -> (r: u8)
        ensures
            r == velocity_percentage_spec(velocity),
    {
        if velocity == 0 {
            0
        } else if velocity == 127 {
            100
        } else {
            velocity / 127
        }
    }
}

/// A note signal as first sent to the game: strength and note.
#[derive(Clone, Copy, Debug, PartialEq, Eq, Structural)]
pub struct MidiWrapper {
    pub velocity: u8,
    pub note: Note,
}

impl MidiWrapper {
    /// A note-on names its note (A3 when the key is past the set); any other
    /// status gives `NoNote`.
    pub fn new_from_bytes(state: u8, byte: u8, velocity: u8) -> (r: MidiWrapper)
        requires
            state == Note::STATE_ON ==> byte >= 55,
        ensures
            r.velocity == velocity,
            state == Note::STATE_ON && byte < 69 ==> r.note == note_at(byte - 55),
            state == Note::STATE_ON && byte >= 69 ==> r.note == Note::A3,
            state != Note::STATE_ON ==> r.note == Note::NoNote,
    {
        let note = if state == Note::STATE_ON {
            match Note::from_byte(byte) {
                Some(n) => n,
                None => Note::A3,
            }
        } else {
            Note::NoNote
        };
        MidiWrapper { velocity, note }
    }

    pub fn new_from_bytes_with_velocity_percentage(state: u8, byte: u8, velocity: u8) -> (r: MidiWrapper)
        requires
            state == Note::STATE_ON ==> byte >= 55,
        ensures
            r == MidiWrapper::new_from_bytes_spec(state, byte, velocity_percentage_spec(velocity)),
    {
        MidiWrapper::new_from_bytes(state, byte, Note::velocity_percentage(velocity))
    }

    pub open spec fn new_from_bytes_spec(state: u8, byte: u8, velocity: u8) -> MidiWrapper {
        MidiWrapper {
            velocity,
            note: if state != Note::STATE_ON { Note::NoNote } else if byte < 69 { note_at(byte - 55) } else { Note::A3 },
        }
    }
}

} // verus!
