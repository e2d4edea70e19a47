//! The notes an ocarina can play, as MIDI keys 55 (G3) to 72 (C5).
use vstd::prelude::*;

use crate::errors::{ArduinoCommResult, ArduinoCommunicationError};

verus! {

/// MIDI key of the lowest note.
pub const LOWEST_KEY: u8 = 55;

/// Number of notes.
pub const NOTE_COUNT: u8 = 18;

#[derive(Clone, Copy, Debug, PartialEq, Eq, Structural)]
pub enum Note {
    G3,
    Ab3,
    A3,
    Bb3,
    B3,
    C4,
    Db4,
    D4,
    Eb4,
    E4,
    F4,
    Gb4,
    G4,
    Ab4,
    A4,
    Bb4,
    B4,
    C5,
}

/// The note `i` semitones above G3.
pub open spec fn note_at(i: int) -> Note {
    if i == 0 { Note::G3 }
    else if i == 1 { Note::Ab3 }
    else if i == 2 { Note::A3 }
    else if i == 3 { Note::Bb3 }
    else if i == 4 { Note::B3 }
    else if i == 5 { Note::C4 }
    else if i == 6 { Note::Db4 }
    else if i == 7 { Note::D4 }
    else if i == 8 { Note::Eb4 }
    else if i == 9 { Note::E4 }
    else if i == 10 { Note::F4 }
    else if i == 11 { Note::Gb4 }
    else if i == 12 { Note::G4 }
    else if i == 13 { Note::Ab4 }
    else if i == 14 { Note::A4 }
    else if i == 15 { Note::Bb4 }
    else if i == 16 { Note::B4 }
    else { Note::C5 }
}

/// Flat notes, the ones whose name holds a `b`.
pub open spec fn is_flat(n: Note) -> bool {
    n == Note::Ab3 || n == Note::Bb3 || n == Note::Db4 || n == Note::Eb4 || n == Note::Gb4
        || n == Note::Ab4 || n == Note::Bb4
}

/// Position of a note's natural (its name without the `b`) among the eleven
/// natural notes counted down from C5.
pub open spec fn ordinal_spec(n: Note) -> u8 {
    match n {
        Note::C5 => 0,
        Note::B4 | Note::Bb4 => 1,
        Note::A4 | Note::Ab4 => 2,
        Note::G4 | Note::Gb4 => 3,
        Note::F4 => 4,
        Note::E4 | Note::Eb4 => 5,
        Note::D4 | Note::Db4 => 6,
        Note::C4 => 7,
        Note::B3 | Note::Bb3 => 8,
        Note::A3 | Note::Ab3 => 9,
        Note::G3 => 10,
    }
}

pub open spec fn name_spec(n: Note) -> Seq<char> {
    match n {
        Note::G3 => "G3"@,
        Note::Ab3 => "Ab3"@,
        Note::A3 => "A3"@,
        Note::Bb3 => "Bb3"@,
        Note::B3 => "B3"@,
        Note::C4 => "C4"@,
        Note::Db4 => "Db4"@,
        Note::D4 => "D4"@,
        Note::Eb4 => "Eb4"@,
        Note::E4 => "E4"@,
        Note::F4 => "F4"@,
        Note::Gb4 => "Gb4"@,
        Note::G4 => "G4"@,
        Note::Ab4 => "Ab4"@,
        Note::A4 => "A4"@,
        Note::Bb4 => "Bb4"@,
        Note::B4 => "B4"@,
        Note::C5 => "C5"@,
    }
}

impl Note {
    pub const STATE_OFF: u8 = 128;
    pub const STATE_ON: u8 = 144;

    /// The note's index among the natural notes, from C5 (0) down to G3 (10);
    /// a flat note takes the index of its natural.
    pub fn ordinal(&self) -> (r: u8)
        ensures
            r == ordinal_spec(*self),
            r <= 10,
    {
        match self {
            Note::C5 => 0,
            Note::B4 | Note::Bb4 => 1,
            Note::A4 | Note::Ab4 => 2,
            Note::G4 | Note::Gb4 => 3,
            Note::F4 => 4,
            Note::E4 | Note::Eb4 => 5,
            Note::D4 | Note::Db4 => 6,
            Note::C4 => 7,
            Note::B3 | Note::Bb3 => 8,
            Note::A3 | Note::Ab3 => 9,
            Note::G3 => 10,
        }
    }

    /// The note of a MIDI key; keys outside G3..C5 are not supported.
    pub fn from_byte(byte: u8) -> (r: ArduinoCommResult<Note>)
        ensures
            LOWEST_KEY <= byte < LOWEST_KEY + NOTE_COUNT ==> r == Ok::<Note, ArduinoCommunicationError>(note_at(byte - LOWEST_KEY)),
            !(LOWEST_KEY <= byte < LOWEST_KEY + NOTE_COUNT) ==> r == Err::<Note, ArduinoCommunicationError>(
                ArduinoCommunicationError::ByteNotSupported(byte)),
    {
        if byte < LOWEST_KEY || byte >= LOWEST_KEY + NOTE_COUNT {
            return Err(ArduinoCommunicationError::ByteNotSupported(byte));
        }
        let i = byte - LOWEST_KEY;
        let n = if i == 0 { Note::G3 }
            else if i == 1 { Note::Ab3 }
            else if i == 2 { Note::A3 }
            else if i == 3 { Note::Bb3 }
            else if i == 4 { Note::B3 }
            else if i == 5 { Note::C4 }
            else if i == 6 { Note::Db4 }
            else if i == 7 { Note::D4 }
            else if i == 8 { Note::Eb4 }
            else if i == 9 { Note::E4 }
            else if i == 10 { Note::F4 }
            else if i == 11 { Note::Gb4 }
            else if i == 12 { Note::G4 }
            else if i == 13 { Note::Ab4 }
            else if i == 14 { Note::A4 }
            else if i == 15 { Note::Bb4 }
            else if i == 16 { Note::B4 }
            else { Note::C5 };
        Ok(n)
    }

    /// Whether the note is a flat.
    pub fn is_bmol(&self) -> (r: bool)
        ensures
            r == is_flat(*self),
    {
        match self {
            Note::Ab3 | Note::Bb3 | Note::Db4 | Note::Eb4 | Note::Gb4 | Note::Ab4 | Note::Bb4 => true,
            _ => false,
        }
    }

    /// The note's name, such as `"Bb3"`.
    pub fn name(&self) -> (r: &'static str)
        ensures
            r@ == name_spec(*self),
    {
        match self {
            Note::G3 => "G3",
            Note::Ab3 => "Ab3",
            Note::A3 => "A3",
            Note::Bb3 => "Bb3",
            Note::B3 => "B3",
            Note::C4 => "C4",
            Note::Db4 => "Db4",
            Note::D4 => "D4",
            Note::Eb4 => "Eb4",
            Note::E4 => "E4",
            Note::F4 => "F4",
            Note::Gb4 => "Gb4",
            Note::G4 => "G4",
            Note::Ab4 => "Ab4",
            Note::A4 => "A4",
            Note::Bb4 => "Bb4",
            Note::B4 => "B4",
            Note::C5 => "C5",
        }
    }
}

/// A note together with the key it was read from.
#[derive(Clone, Copy, Debug, PartialEq, Eq, Structural)]
pub struct NoteWrapper {
    pub note: Note,
    pub byte: u8,
}

impl NoteWrapper {
    pub fn new(note: u8) -> (r: ArduinoCommResult<NoteWrapper>)
        ensures
            LOWEST_KEY <= note < LOWEST_KEY + NOTE_COUNT ==> r == Ok::<NoteWrapper, ArduinoCommunicationError>(
                NoteWrapper { note: note_at(note - LOWEST_KEY), byte: note }),
            !(LOWEST_KEY <= note < LOWEST_KEY + NOTE_COUNT) ==> r == Err::<NoteWrapper, ArduinoCommunicationError>(
                ArduinoCommunicationError::ByteNotSupported(note)),
    {
        match Note::from_byte(note) {
            Ok(n) => Ok(NoteWrapper { note: n, byte: note }),
            Err(e) => Err(e),
        }
    }
}

impl Default for NoteWrapper {
    /// A3, key 57.
    fn default() -> (r: NoteWrapper)
        ensures
            r == (NoteWrapper { note: Note::A3, byte: 57 }),
    {
        NoteWrapper { note: Note::A3, byte: 57 }
    }
}

} // verus!
