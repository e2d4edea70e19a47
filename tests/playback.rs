use midi_reader::errors::{InvalidScore, MidiReaderError};
use midi_reader::playback::{PlaybackDriver, PlayerAction, ReadingState, PAUSE_CHECK_MICROS};
use midi_reader::score::{Moment, Score, ScoreEvent, TempoClock, TimedEvent};
use midi_reader::session::{
    observed_state, requested_state, start_transition, still_playing, ControlRequest, MidiFile, PlayBackCallback,
};
use midi_reader::length::calculate_midi_length;
use midi_reader::service_error::ServiceError;

/// A single-track file at 100 ticks per beat: tempo 500000, note 60 on, and
/// off again 100 ticks later.
fn one_note_file() -> Vec<u8> {
    let mut v = vec![0x4D, 0x54, 0x68, 0x64, 0, 0, 0, 6, 0, 0, 0, 1, 0, 100];
    v.extend_from_slice(&[0x4D, 0x54, 0x72, 0x6B, 0, 0, 0, 19]);
    v.extend_from_slice(&[0x00, 0xFF, 0x51, 0x03, 0x07, 0xA1, 0x20]);
    v.extend_from_slice(&[0x00, 0x90, 0x3C, 0x64]);
    v.extend_from_slice(&[0x64, 0x80, 0x3C, 0x40]);
    v.extend_from_slice(&[0x00, 0xFF, 0x2F, 0x00]);
    v
}

fn one_note_score() -> Score {
    Score::parse(&one_note_file()).unwrap()
}

/// Steps the driver, reading the state from `states` at each step and
/// accepting every note, until it is done or `limit` steps were taken.
fn drive(driver: &mut PlaybackDriver, states: &dyn Fn(usize) -> ReadingState, limit: usize) -> Vec<PlayerAction> {
    let mut actions = Vec::new();
    let mut i = 0;
    while !driver.is_done() && i < limit {
        actions.push(driver.step(states(i), true));
        i += 1;
    }
    actions
}

fn notes(actions: &[PlayerAction]) -> Vec<PlayerAction> {
    actions.iter().filter(|a| matches!(a, PlayerAction::Note { .. })).cloned().collect()
}

#[test]
fn midi_read_test() {
    let score = one_note_score();
    assert_eq!(score.ticks_per_beat, 100);
    assert_eq!(
        score.events,
        vec![
            TimedEvent { delta: 0, event: ScoreEvent::Tempo(500000) },
            TimedEvent { delta: 0, event: ScoreEvent::NoteOn { key: 60, vel: 100 } },
            TimedEvent { delta: 100, event: ScoreEvent::NoteOff { key: 60, vel: 64 } },
        ]
    );
}

#[test]
fn parse_rejects_garbage() {
    let r = Score::parse(&vec![1, 2, 3, 4, 5]);
    assert_eq!(r.err(), Some(MidiReaderError::InvalidMidiFile(InvalidScore::Malformed)));
}

#[test]
fn parse_rejects_timecode() {
    let mut v = one_note_file();
    v[12] = 0xE7;
    v[13] = 0x28;
    let r = Score::parse(&v);
    assert_eq!(r.err(), Some(MidiReaderError::InvalidMidiFile(InvalidScore::UnsupportedTiming)));
}

#[test]
fn tempo_clock_converts_ticks() {
    let mut clock = TempoClock::new(100);
    assert_eq!(clock.duration_for(100), 0);
    clock.set_tempo(500000);
    assert_eq!(clock.duration_for(100), 500000);
    assert_eq!(clock.duration_for(1), 5000);
    assert_eq!(clock.duration_for(0), 0);
}

#[test]
fn total_length_of_one_note() {
    assert_eq!(one_note_score().total_length(), 500000);
    assert_eq!(calculate_midi_length(&one_note_file()), Ok(500000));
}

#[test]
fn timeline_from_moments() {
    let m = |events: Vec<ScoreEvent>| Moment { events };
    let moments = vec![
        m(vec![ScoreEvent::Other]),
        m(vec![]),
        m(vec![]),
        m(vec![ScoreEvent::NoteOn { key: 1, vel: 2 }, ScoreEvent::NoteOff { key: 1, vel: 0 }]),
    ];
    let s = Score::from_moments(10, &moments);
    assert_eq!(
        s.events,
        vec![
            TimedEvent { delta: 0, event: ScoreEvent::Other },
            TimedEvent { delta: 3, event: ScoreEvent::NoteOn { key: 1, vel: 2 } },
            TimedEvent { delta: 0, event: ScoreEvent::NoteOff { key: 1, vel: 0 } },
        ]
    );
}

#[test]
fn undisturbed_run_plays_everything() {
    let score = one_note_score();
    let mut d = PlaybackDriver::new(&score);
    let actions = drive(&mut d, &|_| ReadingState::Playing, 1000);
    assert_eq!(actions[0], PlayerAction::Note { on: true, key: 60, vel: 100 });
    let sleeps: Vec<u64> = actions
        .iter()
        .filter_map(|a| if let PlayerAction::Sleep(t) = a { Some(*t) } else { None })
        .collect();
    assert_eq!(sleeps.len(), 16);
    assert!(sleeps.iter().all(|t| *t <= PAUSE_CHECK_MICROS));
    assert_eq!(sleeps.iter().sum::<u64>(), 500000);
    assert_eq!(actions[actions.len() - 2], PlayerAction::Note { on: false, key: 60, vel: 64 });
    assert_eq!(actions[actions.len() - 1], PlayerAction::Finish);
    assert_eq!(d.elapsed(), score.total_length());
}

#[test]
fn runs_are_deterministic() {
    let score = one_note_score();
    let mut a = PlaybackDriver::new(&score);
    let mut b = PlaybackDriver::new(&score);
    let ra = drive(&mut a, &|_| ReadingState::Playing, 1000);
    let rb = drive(&mut b, &|_| ReadingState::Playing, 1000);
    assert_eq!(ra, rb);
    let mut c = PlaybackDriver::new(&score);
    let rc = drive(&mut c, &|i| if (3..9).contains(&i) { ReadingState::Paused } else { ReadingState::Playing }, 1000);
    assert_eq!(notes(&ra), notes(&rc));
}

#[test]
fn pause_keeps_elapsed_and_notifies_once() {
    let score = one_note_score();
    let mut d = PlaybackDriver::new(&score);
    d.step(ReadingState::Playing, true);
    d.step(ReadingState::Playing, true);
    let before = d.elapsed();
    assert_eq!(before, 33000);
    let mut notices = 0;
    for _ in 0..10 {
        match d.step(ReadingState::Paused, true) {
            PlayerAction::NotifyPause(t) => {
                notices += 1;
                assert_eq!(t, PAUSE_CHECK_MICROS);
            }
            PlayerAction::Sleep(t) => assert_eq!(t, PAUSE_CHECK_MICROS),
            other => panic!("unexpected {:?}", other),
        }
        assert_eq!(d.elapsed(), before);
    }
    assert_eq!(notices, 1);
}

#[test]
fn pause_resume_pause_notifies_twice() {
    let score = one_note_score();
    let mut d = PlaybackDriver::new(&score);
    let pattern = [
        ReadingState::Playing, ReadingState::Playing, ReadingState::Paused, ReadingState::Paused,
        ReadingState::Playing, ReadingState::Paused, ReadingState::Paused,
    ];
    let actions = drive(&mut d, &|i| pattern[i], pattern.len());
    let notices = actions.iter().filter(|a| matches!(a, PlayerAction::NotifyPause(_))).count();
    assert_eq!(notices, 2);
}

#[test]
fn stop_releases_held_notes() {
    let score = one_note_score();
    let mut d = PlaybackDriver::new(&score);
    assert_eq!(d.step(ReadingState::Playing, true), PlayerAction::Note { on: true, key: 60, vel: 100 });
    d.step(ReadingState::Playing, true);
    assert_eq!(d.step(ReadingState::Stoped, true), PlayerAction::Interrupt(vec![60]));
    assert!(d.is_done());
}

#[test]
fn refused_note_interrupts() {
    let score = one_note_score();
    let mut d = PlaybackDriver::new(&score);
    d.step(ReadingState::Playing, true);
    assert_eq!(d.step(ReadingState::Playing, false), PlayerAction::Interrupt(vec![60]));
}

#[test]
fn second_start_is_refused() {
    assert_eq!(start_transition(Some(ReadingState::NotRunning)), Ok(ReadingState::Playing));
    assert_eq!(start_transition(Some(ReadingState::Playing)), Err(MidiReaderError::AlreadyPlaying));
    assert_eq!(start_transition(Some(ReadingState::Paused)), Err(MidiReaderError::AlreadyPlaying));
    assert!(matches!(start_transition(None), Err(MidiReaderError::PlaybackError(_))));
}

struct Quiet;

impl PlayBackCallback for Quiet {
    fn on_note(&self, _on: bool, _key: u8, _vel: u8) -> bool {
        true
    }
    fn on_interrupted(&self) {}
    fn on_finished(&self) {}
    fn on_pause(&self) {}
}

#[test]
fn session_lifecycle() {
    let mut file = MidiFile::from_bytes_vector(one_note_file()).unwrap();
    assert_eq!(file.file_length(), 500000);
    assert_eq!(file.current_state(), ReadingState::NotRunning);
    let mut player = file.create_sheet_player(Quiet).ok().unwrap();
    assert_eq!(file.current_state(), ReadingState::Playing);
    assert!(file.is_still_playing());
    assert_eq!(file.create_sheet_player(Quiet).err(), Some(MidiReaderError::AlreadyPlaying));
    assert_eq!(file.pause(), Ok(ReadingState::Paused));
    assert_eq!(file.create_sheet_player(Quiet).err(), Some(MidiReaderError::AlreadyPlaying));
    assert_eq!(file.current_state(), ReadingState::Paused);
    assert_eq!(file.unpause(), Ok(ReadingState::Playing));
    let mut accepted = true;
    while !player.is_done() {
        match player.step(accepted) {
            PlayerAction::Note { on, key, vel } => accepted = player.callback().on_note(on, key, vel),
            _ => accepted = true,
        }
    }
    assert_eq!(file.current_state(), ReadingState::NotRunning);
    assert_eq!(file.remaining_time(), 500000);
    assert!(file.create_sheet_player(Quiet).is_ok());
}

#[test]
fn session_stop_through_handle() {
    let mut file = MidiFile::from_bytes_vector(one_note_file()).unwrap();
    let mut player = file.create_sheet_player(Quiet).ok().unwrap();
    assert!(matches!(player.step(true), PlayerAction::Note { on: true, .. }));
    assert_eq!(file.stop(), Ok(ReadingState::Stoped));
    assert_eq!(player.step(true), PlayerAction::Interrupt(vec![60]));
    assert!(!player.lock_failed());
    assert!(player.is_done());
    assert_eq!(file.current_state(), ReadingState::NotRunning);
}

fn two_track_file(format: u8) -> Vec<u8> {
    let mut v = vec![0x4D, 0x54, 0x68, 0x64, 0, 0, 0, 6, 0, format, 0, 2, 0, 100];
    v.extend_from_slice(&[0x4D, 0x54, 0x72, 0x6B, 0, 0, 0, 12]);
    v.extend_from_slice(&[0x00, 0x90, 0x3C, 0x40, 0x0A, 0x80, 0x3C, 0x40, 0x00, 0xFF, 0x2F, 0x00]);
    v.extend_from_slice(&[0x4D, 0x54, 0x72, 0x6B, 0, 0, 0, 12]);
    v.extend_from_slice(&[0x05, 0x90, 0x40, 0x40, 0x0A, 0x80, 0x40, 0x40, 0x00, 0xFF, 0x2F, 0x00]);
    v
}

fn deltas_and_keys(s: &Score) -> Vec<(u32, u8)> {
    s.events
        .iter()
        .map(|e| match e.event {
            ScoreEvent::NoteOn { key, .. } | ScoreEvent::NoteOff { key, .. } => (e.delta, key),
            _ => (e.delta, 0),
        })
        .collect()
}

#[test]
fn parallel_tracks_are_merged() {
    let s = Score::parse(&two_track_file(1)).unwrap();
    assert_eq!(deltas_and_keys(&s), vec![(0, 60), (5, 64), (5, 60), (5, 64)]);
}

#[test]
fn sequential_tracks_follow_each_other() {
    let s = Score::parse(&two_track_file(2)).unwrap();
    assert_eq!(deltas_and_keys(&s), vec![(0, 60), (10, 60), (6, 64), (10, 64)]);
}

#[test]
fn reader_errors_for_the_front_end() {
    let e = ServiceError::from_reader_error(MidiReaderError::AlreadyPlaying);
    assert_eq!((e.code.as_str(), e.message.as_str()), ("F07", "There is already a file being played"));
    let e = ServiceError::from_reader_error(MidiReaderError::InvalidMidiFile(InvalidScore::Malformed));
    assert_eq!(e.code, "M03");
    let e = ServiceError::from_reader_error(MidiReaderError::Interrupted);
    assert_eq!((e.code.as_str(), e.message.as_str()), ("", "File playback has been interrupted"));
    assert_eq!(ServiceError::from_reader_error(MidiReaderError::NoPortsFound).code, "M02");
}

#[test]
fn control_requests_and_reads() {
    assert_eq!(requested_state(ControlRequest::Pause), ReadingState::Paused);
    assert_eq!(requested_state(ControlRequest::Resume), ReadingState::Playing);
    assert_eq!(requested_state(ControlRequest::Stop), ReadingState::Stoped);
    assert!(still_playing(Some(ReadingState::Paused)));
    assert!(!still_playing(Some(ReadingState::Stoped)));
    assert!(!still_playing(None));
    assert_eq!(observed_state(None), ReadingState::Stoped);
    assert_eq!(observed_state(Some(ReadingState::Paused)), ReadingState::Paused);
}

#[test]
fn parse_rejects_zero_resolution_and_tempo() {
    let mut v = one_note_file();
    v[13] = 0;
    assert_eq!(Score::parse(&v).err(), Some(MidiReaderError::InvalidMidiFile(InvalidScore::UnsupportedTiming)));
    let mut v = one_note_file();
    v[26] = 0;
    v[27] = 0;
    v[28] = 0;
    assert_eq!(Score::parse(&v).err(), Some(MidiReaderError::InvalidMidiFile(InvalidScore::ZeroTempo)));
}

#[test]
fn finishing_with_a_held_note() {
    let score = Score {
        ticks_per_beat: 100,
        events: vec![TimedEvent { delta: 0, event: ScoreEvent::NoteOn { key: 61, vel: 9 } }],
    };
    let mut d = PlaybackDriver::new(&score);
    let actions = drive(&mut d, &|_| ReadingState::Playing, 10);
    assert_eq!(actions, vec![PlayerAction::Note { on: true, key: 61, vel: 9 }, PlayerAction::Finish]);
    assert!(d.is_done());
}
