use midi_reader::errors::ArduinoCommunicationError;
use midi_reader::length::{check_midi_file, format_resources_music_dir};
use midi_reader::midi_notes;
use midi_reader::midi_wrapper::MidiWrapper;
use midi_reader::monitoring::{MonitoringData, MonitoringState};
use midi_reader::note::{Note, NoteWrapper};
use midi_reader::payloads::{MidiNoteError, MidiPayload, OnNotePayload, OnNotePrecision};
use midi_reader::service_error::ServiceError;
use midi_reader::shared::MutableArc;

#[test]
fn note_from_byte_range() {
    assert_eq!(Note::from_byte(55), Ok(Note::G3));
    assert_eq!(Note::from_byte(58), Ok(Note::Bb3));
    assert_eq!(Note::from_byte(72), Ok(Note::C5));
    assert_eq!(Note::from_byte(73), Err(ArduinoCommunicationError::ByteNotSupported(73)));
    assert_eq!(Note::from_byte(54), Err(ArduinoCommunicationError::ByteNotSupported(54)));
}

#[test]
fn note_ordinal_and_flats() {
    assert_eq!(Note::C5.ordinal(), 0);
    assert_eq!(Note::G3.ordinal(), 10);
    assert_eq!(Note::Ab3.ordinal(), 9);
    assert_eq!(Note::Bb4.ordinal(), 1);
    assert!(Note::Eb4.is_bmol());
    assert!(!Note::E4.is_bmol());
    assert_eq!(Note::Gb4.name(), "Gb4");
}

#[test]
fn note_wrapper_and_default() {
    assert_eq!(NoteWrapper::new(57), Ok(NoteWrapper { note: Note::A3, byte: 57 }));
    assert!(NoteWrapper::new(10).is_err());
    let w = MidiWrapper::new_from_bytes(144, 200, 30);
    assert_eq!(w.note, NoteWrapper::default());
    assert_eq!(w.air_strength, 30);
    assert_eq!(MidiWrapper::new_from_bytes(128, 60, 1).note, NoteWrapper { note: Note::C4, byte: 60 });
}

#[test]
fn first_note_set() {
    assert_eq!(midi_notes::Note::from_byte(55), Some(midi_notes::Note::G3));
    assert_eq!(midi_notes::Note::from_byte(67), Some(midi_notes::Note::B4));
    assert_eq!(midi_notes::Note::from_byte(69), None);
    assert_eq!(midi_notes::Note::Bb4.ordinal(), 11);
    assert_eq!(midi_notes::Note::velocity_percentage(0), 0);
    assert_eq!(midi_notes::Note::velocity_percentage(127), 100);
    assert_eq!(midi_notes::Note::velocity_percentage(64), 0);
    let w = midi_notes::MidiWrapper::new_from_bytes(144, 80, 5);
    assert_eq!(w.note, midi_notes::Note::A3);
    let w = midi_notes::MidiWrapper::new_from_bytes(128, 60, 5);
    assert_eq!(w.note, midi_notes::Note::NoNote);
    let w = midi_notes::MidiWrapper::new_from_bytes_with_velocity_percentage(144, 56, 127);
    assert_eq!((w.note, w.velocity), (midi_notes::Note::Ab3, 100));
}

#[test]
fn payload_from_note() {
    let p = MidiPayload::from_note(58, 40, true).unwrap();
    assert_eq!(p.note_index, 8);
    assert!(p.is_bmol);
    assert_eq!(p.note_name, "Bb3");
    assert!(p.state);
    assert!(!MidiPayload::from_note(58, 0, true).unwrap().state);
    assert_eq!(MidiPayload::from_note(90, 1, true), Err(MidiNoteError { byte: 90 }));
    let w = MidiWrapper::new_from_bytes(144, 72, 9);
    let p = MidiPayload::from_midi_wrapper(w);
    assert_eq!((p.note_index, p.note_name.as_str(), p.velocity, p.state), (0, "C5", 9, true));
    let s = OnNotePayload::new(3, -4, 5);
    assert_eq!((s.hit_streak, s.total_score, s.latest_message_score), (3, -4, 5));
    assert!(OnNotePrecision::Left.is_hit());
    assert!(!OnNotePrecision::EarlyMiss.is_hit());
}

#[test]
fn service_errors() {
    let e = ServiceError::new_with_str("boom");
    assert_eq!((e.code.as_str(), e.message.as_str()), ("", "boom"));
    let e = ServiceError::new_with_code_str("X1");
    assert_eq!((e.code.as_str(), e.message.as_str()), ("X1", ""));
    assert_eq!(ServiceError::new("a".to_string(), "b".to_string()).message, "b");
    assert_eq!(ServiceError::new_with_message("m".to_string()).code, "");
    assert_eq!(ServiceError::new_with_code("c".to_string()).code, "c");
    assert_eq!(ServiceError::generic().code, "0");
    assert_eq!(ServiceError::default().message, "Unexpected internal error");
}

#[test]
fn checking_new_files() {
    let mut v = vec![0x4D, 0x54, 0x68, 0x64, 0, 0, 0, 6, 0, 0, 0, 1, 0, 100];
    v.extend_from_slice(&[0x4D, 0x54, 0x72, 0x6B, 0, 0, 0, 4, 0x00, 0xFF, 0x2F, 0x00]);
    assert_eq!(check_midi_file("song.mid", &v), Ok(0));
    let e = check_midi_file("song.txt", &v).unwrap_err();
    assert_eq!((e.code.as_str(), e.message.as_str()), ("F02", "File is not a midi"));
    assert_eq!(check_midi_file("song.mid", &vec![0, 1]).unwrap_err().code, "M03");
}

#[test]
fn breath_statistics() {
    let mut d = MonitoringData::new();
    d.receive_breath_data_at(10, true, 1_000);
    d.receive_breath_data_at(20, true, 2_000);
    d.receive_breath_data_at(20, true, 3_000);
    assert_eq!(d.current_breath_strengths, vec![10, 20]);
    d.receive_breath_data_at(0, true, 5_000);
    assert_eq!(d.total_breath_time, 4_000);
    assert_eq!(d.highest_breath_time, 4_000);
    assert_eq!(d.average_strength, 15);
    assert!(d.breath_strength_buffer.is_empty());
    d.receive_breath_data_at(0, false, 9_000);
    assert_eq!(d.total_breath_time, 4_000);
    d.receive_note(OnNotePrecision::Middle);
    d.receive_note(OnNotePrecision::Miss);
    assert_eq!((d.total_great_scores, d.total_early_misses), (1, 1));
    let mut s = MonitoringState::new();
    s.receive_score(OnNotePrecision::Right);
    assert_eq!(s.data.as_ref().unwrap().total_close_scores, 1);
    s.reset();
    assert!(s.data.is_none());
}

#[test]
fn shared_value() {
    let a = MutableArc::new(5u64);
    let b = a.clone();
    assert!(b.set_data(7));
    assert_eq!(a.get_data(), Some(7));
}

#[test]
fn music_directory() {
    assert_eq!(format_resources_music_dir("a.mid"), "resources//musics/a.mid");
}
