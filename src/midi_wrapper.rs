use vstd::prelude::*;

use crate::note::{note_at, NoteWrapper, Note, LOWEST_KEY, NOTE_COUNT};

verus! {

/// A signal read from the ocarina: breath strength, note and MIDI status byte.
#[derive(Clone, Copy, Debug, PartialEq, Eq, Structural)]
pub struct MidiWrapper {
    pub air_strength: u8,
    pub note: NoteWrapper,
    pub state: u8,
}

impl MidiWrapper {
    /// An unsupported key falls back to A3 (key 57).
    pub fn new_from_bytes(state: u8, byte: u8, velocity: u8) -> (r: MidiWrapper)
        ensures
            r.air_strength == velocity,
            r.state == state,
            LOWEST_KEY <= byte < LOWEST_KEY + NOTE_COUNT ==> r.note == (NoteWrapper { note: note_at(byte - LOWEST_KEY), byte }),
            !(LOWEST_KEY <= byte < LOWEST_KEY + NOTE_COUNT) ==> r.note == (NoteWrapper { note: Note::A3, byte: 57 }),
    {
        let note = match NoteWrapper::new(byte) {
            Ok(n) => n,
            Err(_) => NoteWrapper::default(),
        };
        MidiWrapper { air_strength: velocity, note, state }
    }
}

} // verus!
