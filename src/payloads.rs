//! The messages exchanged with the game's front end.
use vstd::prelude::*;

use crate::midi_wrapper::MidiWrapper;
use crate::note::{is_flat, name_spec, note_at, ordinal_spec, Note, LOWEST_KEY, NOTE_COUNT};

verus! {

/// A key that names no note of the ocarina.
#[derive(Clone, Copy, Debug, PartialEq, Eq, Structural)]
pub struct MidiNoteError {
    pub byte: u8,
}

/// How a playback ended or stands, as the front end hears it.
#[allow(non_camel_case_types)]
#[derive(Clone, Copy, Debug, PartialEq, Eq, Structural)]
pub enum MidiFileState {
    INTERRUPTED,
    FINISHED,
    PAUSED,
    PLAYING,
}

/// A note for the front end: its index among the naturals, whether it is a
/// flat, its name, its strength and whether it starts.
#[derive(Clone, Debug, PartialEq, Eq)]
pub struct MidiPayload {
    pub note_index: u8,
    pub is_bmol: bool,
    pub note_name: String,
    pub velocity: u8,
    pub state: bool,
}

impl MidiPayload {
    pub open spec fn describes(&self, note: Note, velocity: u8, state: bool) -> bool {
        &&& self.note_index == ordinal_spec(note)
        &&& self.is_bmol == is_flat(note)
        &&& self.note_name@ == name_spec(note)
        &&& self.velocity == velocity
        &&& self.state == state
    }

    fn of_note(note: Note, velocity: u8, state: bool) -> (r: MidiPayload)
        ensures
            r.describes(note, velocity, state),
    {
        MidiPayload {
            note_index: note.ordinal(),
            is_bmol: note.is_bmol(),
            note_name: note.name().to_owned(),
            velocity,
            state,
        }
    }

    /// The payload of a signal read from the ocarina: it starts a note when
    /// its status is note-on.
    pub fn from_midi_wrapper(midi_wrapper: MidiWrapper) -> (r: MidiPayload)
        ensures
            r.describes(midi_wrapper.note.note, midi_wrapper.air_strength, midi_wrapper.state == Note::STATE_ON),
    {
        MidiPayload::of_note(midi_wrapper.note.note, midi_wrapper.air_strength, midi_wrapper.state == Note::STATE_ON)
    }

    /// The payload of key `note`; a note of no strength never starts.
    pub fn from_note(note: u8, velocity: u8, state: bool) -> (r: Result<MidiPayload, MidiNoteError>)
        ensures
            LOWEST_KEY <= note < LOWEST_KEY + NOTE_COUNT ==> (r matches Ok(p)
                && p.describes(note_at(note - LOWEST_KEY), velocity, velocity != 0 && state)),
            !(LOWEST_KEY <= note < LOWEST_KEY + NOTE_COUNT) ==> r == Err::<MidiPayload, MidiNoteError>(MidiNoteError { byte: note }),
    {
        let s = if velocity == 0 { false } else { state };
        match Note::from_byte(note) {
            Ok(n) => Ok(MidiPayload::of_note(n, velocity, s)),
            Err(_) => Err(MidiNoteError { byte: note }),
        }
    }
}

/// Where a press fell against the note it was meant for.
#[derive(Clone, Copy, Debug, PartialEq, Eq, Structural)]
pub enum OnNotePrecision {
    Middle,
    Left,
    Right,
    Miss,
    EarlyMiss,
}

impl OnNotePrecision {
    /// A press that hit its note.
    pub fn is_hit(&self) -> (r: bool)
        ensures
            r <==> (*self == OnNotePrecision::Middle || *self == OnNotePrecision::Left
                || *self == OnNotePrecision::Right),
    {
        match self {
            OnNotePrecision::Middle | OnNotePrecision::Left | OnNotePrecision::Right => true,
            OnNotePrecision::Miss | OnNotePrecision::EarlyMiss => false,
        }
    }
}

/// A press of a note, as the front end sends it.
#[derive(Clone, Copy, Debug, PartialEq, Eq, Structural)]
pub struct OnNoteMessage {
    pub precision: u8,
}

/// The score after a press: the streak of hits, the total, and what the
/// last press gained or lost.
#[derive(Clone, Copy, Debug, PartialEq, Eq, Structural)]
pub struct OnNotePayload {
    pub hit_streak: u32,
    pub total_score: i64,
    pub latest_message_score: i32,
}

impl OnNotePayload {
    pub fn new(hit_streak: u32, total_score: i64, latest_message_score: i32) -> (r: OnNotePayload)
        ensures
            r == (OnNotePayload { hit_streak, total_score, latest_message_score }),
    {
        OnNotePayload { hit_streak, total_score, latest_message_score }
    }
}

/// How a list of scores is ordered.
#[allow(non_camel_case_types)]
#[derive(Clone, Copy, Debug, PartialEq, Eq, Structural)]
pub enum OrderType {
    DATE,
    SCORE,
    STREAK,
}

/// A score as the front end lists it.
#[derive(Clone, Debug, PartialEq, Eq)]
pub struct ScorePayload {
    pub total: i32,
    pub date_achieved: String,
    pub highest_streak: i32,
    pub finished: bool,
}

/// A piece of music the game offers, with its length in seconds.
#[derive(Clone, Debug, PartialEq, Eq)]
pub struct MidiMusic {
    pub name: String,
    pub id: i32,
    pub directory: String,
    pub duration: u64,
}

#[derive(Clone, Debug)]
pub struct MidiMusicList {
    pub files: Vec<MidiMusic>,
}

/// Why the list of music could not be read.
#[derive(Clone, Debug, PartialEq, Eq)]
pub enum MidiMusicError {
    InvalidJsonFile(String),
    DataFileDoesNotExist(String),
}

/// The credentials of a player.
#[derive(Clone, Debug, PartialEq, Eq)]
pub struct UserSign {
    pub email: String,
    pub pass: String,
}

} // verus!
