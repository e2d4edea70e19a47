//! Playback of parsed MIDI scores against wall-clock time, with pause, resume
//! and stop requests arriving from other threads, plus the small data types of
//! the ocarina game that drive it.
pub mod errors;
pub mod laws;
pub mod length;
pub mod midi_notes;
pub mod midi_wrapper;
pub mod monitoring;
pub mod note;
pub mod payloads;
pub mod playback;
pub mod score;
pub mod service_error;
pub mod session;
pub mod shared;
