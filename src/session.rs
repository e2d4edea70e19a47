//! A playable score, the shared state that controls it, and the player that
//! one session of playback runs.
use vstd::prelude::*;

use crate::errors::{MidiReaderError, MidiReaderResult};
use crate::playback::{step_spec, PlaybackDriver, PlayerAction, ReadingState};
use crate::score::Score;
use crate::shared::MutableArc;

verus! {

/// What the caller of a playback hears of it. Playback runs on one thread;
/// these are called there.
pub trait PlayBackCallback {
    /// A note starts (`on`) or stops; `false` asks playback to end early.
    fn on_note(&self, on: bool, key: u8, vel: u8) -> bool;

    /// Playback ended before the score did.
    fn on_interrupted(&self);

    /// Playback reached the end of the score.
    fn on_finished(&self);

    /// Playback was paused.
    fn on_pause(&self);
}

/// `r` is what starting a session for `score` gives when the shared state
/// reads `s` (`None`: its lock is poisoned).
pub open spec fn started_from<P>(s: Option<ReadingState>, r: MidiReaderResult<PlayerWrapper<P>>, score: Score) -> bool {
    &&& s == Some(ReadingState::NotRunning) ==> ((r matches Ok(p) && p.wf() && !p.lock_failed_spec()
        && p.events_spec() == score.events@
        && p.driver_spec().model() == crate::playback::initial_state(score.ticks_per_beat))
        || (r matches Err(MidiReaderError::PlaybackError(_))))
    &&& s is Some && s != Some(ReadingState::NotRunning)
        ==> r == Err::<PlayerWrapper<P>, MidiReaderError>(MidiReaderError::AlreadyPlaying)
    &&& s is None ==> r matches Err(MidiReaderError::PlaybackError(_))
}

/// Decides whether a session may start: only from `NotRunning`.
pub fn start_transition(current: Option<ReadingState>) -> (r: MidiReaderResult<ReadingState>)
    ensures
        current == Some(ReadingState::NotRunning) <==> r == Ok::<ReadingState, MidiReaderError>(ReadingState::Playing),
        current is Some && current != Some(ReadingState::NotRunning)
            ==> r == Err::<ReadingState, MidiReaderError>(MidiReaderError::AlreadyPlaying),
        current is None ==> r matches Err(MidiReaderError::PlaybackError(_)),
{
    match current {
        Some(ReadingState::NotRunning) => Ok(ReadingState::Playing),
        Some(_) => Err(MidiReaderError::AlreadyPlaying),
        None => Err(lock_error()),
    }
}

pub open spec fn requested_state_spec(req: ControlRequest) -> ReadingState {
    match req {
        ControlRequest::Pause => ReadingState::Paused,
        ControlRequest::Resume => ReadingState::Playing,
        ControlRequest::Stop => ReadingState::Stoped,
    }
}

/// A controller's request on a playback.
#[derive(Clone, Copy, Debug, PartialEq, Eq, Structural)]
pub enum ControlRequest {
    Pause,
    Resume,
    Stop,
}

/// The shared state a request asks for.
pub fn requested_state(req: ControlRequest) -> (r: ReadingState)
    ensures
        r == requested_state_spec(req),
{
    match req {
        ControlRequest::Pause => ReadingState::Paused,
        ControlRequest::Resume => ReadingState::Playing,
        ControlRequest::Stop => ReadingState::Stoped,
    }
}

/// Whether a session is under way, given the shared state as read (`None`:
/// its lock is poisoned, and no session can go on).
pub fn still_playing(current: Option<ReadingState>) -> (r: bool)
    ensures
        r <==> current == Some(ReadingState::Playing) || current == Some(ReadingState::Paused),
{
    match current {
        Some(ReadingState::Playing) | Some(ReadingState::Paused) => true,
        _ => false,
    }
}

/// The state the player acts on, given the shared state as read: an
/// unreadable state stops playback.
pub open spec fn observed(current: Option<ReadingState>) -> ReadingState {
    match current {
        Some(s) => s,
        None => ReadingState::Stoped,
    }
}

pub fn observed_state(current: Option<ReadingState>) -> (r: ReadingState)
    ensures
        r == observed(current),
{
    match current {
        Some(s) => s,
        None => ReadingState::Stoped,
    }
}

/// The error for a shared value whose lock is poisoned.
fn lock_error() -> (r: MidiReaderError)
    ensures
        r is PlaybackError,
{
    MidiReaderError::PlaybackError(String::from_str("state lock poisoned"))
}

/// A score ready to be played, with the state that controllers change and
/// the time played so far, both shared with the session that plays it.
pub struct MidiFile {
    score: Score,
    reading_state: MutableArc<ReadingState>,
    file_length: u64,
    elapsed_time: MutableArc<u64>,
}

impl MidiFile {
    pub closed spec fn score_spec(&self) -> Score {
        self.score
    }

    pub closed spec fn file_length_spec(&self) -> u64 {
        self.file_length
    }

    /// A file for `score`, not running; its length is computed without waiting.
    pub fn from_sheet_and_ticker(score: Score) -> (r: MidiFile)
        ensures
            r.score_spec() == score,
            r.file_length_spec() == score.length_spec(),
    {
        let file_length = score.total_length();
        MidiFile {
            score,
            reading_state: MutableArc::new(ReadingState::NotRunning),
            file_length,
            elapsed_time: MutableArc::new(0),
        }
    }

    /// Reads a standard MIDI file from its bytes.
    pub fn from_bytes_vector(vector: Vec<u8>) -> (r: MidiReaderResult<MidiFile>)
        ensures
            Score::parsed_as(vector@, match r {
                Ok(f) => Ok::<Score, MidiReaderError>(f.score_spec()),
                Err(e) => Err::<Score, MidiReaderError>(e),
            }),
            r matches Ok(f) ==> f.file_length_spec() == f.score_spec().length_spec(),
    {
        match Score::parse(&vector) {
            Ok(score) => Ok(MidiFile::from_sheet_and_ticker(score)),
            Err(e) => Err(e),
        }
    }

    /// Playing time of the whole score, in microseconds.
    pub fn file_length(&self) -> (r: u64)
        ensures
            r == self.file_length_spec(),
    {
        self.file_length
    }

    /// Microseconds played in the current or last session; the largest value
    /// when the shared counter cannot be read.
    pub fn remaining_time(&self) -> (r: u64) {
        match self.elapsed_time.get_data() {
            Some(t) => t,
            None => u64::MAX,
        }
    }

    /// The shared state; `NotRunning` when it cannot be read.
    pub fn current_state(&self) -> (r: ReadingState) {
        match self.reading_state.get_data() {
            Some(s) => s,
            None => ReadingState::NotRunning,
        }
    }

    /// Whether a session is playing or paused, as far as the state can be read.
    pub fn is_still_playing(&self) -> (r: bool) {
        still_playing(self.reading_state.get_data())
    }

    /// A handle on the shared state, for controllers on other threads.
    pub fn state_handle(&self) -> (r: MutableArc<ReadingState>) {
        self.reading_state.clone()
    }

    /// Starts a session that reports to `play_back_callback`; refused while
    /// another one is playing or paused, and then nothing is changed. Fails
    /// when the shared values cannot be written.
    pub fn create_sheet_player<P: PlayBackCallback>(&mut self, play_back_callback: P) -> (r: MidiReaderResult<PlayerWrapper<P>>)
        ensures
            exists|s: Option<ReadingState>| #[trigger] started_from(s, r, old(self).score_spec()),
            final(self).score_spec() == old(self).score_spec(),
            final(self).file_length_spec() == old(self).file_length_spec(),
    {
        let current = self.reading_state.get_data();
        match start_transition(current) {
            Ok(next) => {
                if !self.elapsed_time.set_data(0) || !self.reading_state.set_data(next) {
                    let e = lock_error();
                    assert(started_from(current, Err::<PlayerWrapper<P>, MidiReaderError>(e), old(self).score_spec()));
                    return Err(e);
                }
                let driver = PlaybackDriver::new(&self.score);
                let r = PlayerWrapper {
                    driver,
                    reading_state: self.reading_state.clone(),
                    elapsed_time: self.elapsed_time.clone(),
                    callback: play_back_callback,
                    lock_failed: false,
                };
                assert(started_from(current, Ok::<PlayerWrapper<P>, MidiReaderError>(r), old(self).score_spec()));
                Ok(r)
            },
            Err(e) => {
                assert(started_from(current, Err::<PlayerWrapper<P>, MidiReaderError>(e), old(self).score_spec()));
                Err(e)
            },
        }
    }

    /// Stores the state `req` asks for, and gives it back; fails when the
    /// shared state cannot be written.
    pub fn request(&mut self, req: ControlRequest) -> (r: MidiReaderResult<ReadingState>)
        ensures
            r is Ok ==> r == Ok::<ReadingState, MidiReaderError>(requested_state_spec(req)),
            r is Err ==> r matches Err(MidiReaderError::PlaybackError(_)),
            final(self).score_spec() == old(self).score_spec(),
            final(self).file_length_spec() == old(self).file_length_spec(),
    {
        let next = requested_state(req);
        if self.reading_state.set_data(next) {
            Ok(next)
        } else {
            Err(lock_error())
        }
    }

    /// Asks the session to pause.
    pub fn pause(&mut self) -> (r: MidiReaderResult<ReadingState>)
        ensures
            r is Ok ==> r == Ok::<ReadingState, MidiReaderError>(ReadingState::Paused),
            r is Err ==> r matches Err(MidiReaderError::PlaybackError(_)),
    {
        self.request(ControlRequest::Pause)
    }

    /// Asks the session to play on.
    pub fn unpause(&mut self) -> (r: MidiReaderResult<ReadingState>)
        ensures
            r is Ok ==> r == Ok::<ReadingState, MidiReaderError>(ReadingState::Playing),
            r is Err ==> r matches Err(MidiReaderError::PlaybackError(_)),
    {
        self.request(ControlRequest::Resume)
    }

    /// Asks the session to stop.
    pub fn stop(&mut self) -> (r: MidiReaderResult<ReadingState>)
        ensures
            r is Ok ==> r == Ok::<ReadingState, MidiReaderError>(ReadingState::Stoped),
            r is Err ==> r matches Err(MidiReaderError::PlaybackError(_)),
    {
        self.request(ControlRequest::Stop)
    }
}

/// One session of playback: the player, the shared state it reads and the
/// time it publishes, and the observer it reports to.
pub struct PlayerWrapper<P> {
    driver: PlaybackDriver,
    reading_state: MutableArc<ReadingState>,
    elapsed_time: MutableArc<u64>,
    callback: P,
    /// A shared value could not be written; playback ends at the next step.
    lock_failed: bool,
}

impl<P> PlayerWrapper<P> {
    pub closed spec fn lock_failed_spec(&self) -> bool {
        self.lock_failed
    }

    /// A shared value could not be written during this session.
    pub fn lock_failed(&self) -> (r: bool)
        ensures
            r == self.lock_failed_spec(),
    {
        self.lock_failed
    }

    pub closed spec fn driver_spec(&self) -> PlaybackDriver {
        self.driver
    }

    pub open spec fn events_spec(&self) -> Seq<crate::score::TimedEvent> {
        self.driver_spec().events_spec()
    }

    pub open spec fn wf(&self) -> bool {
        self.driver_spec().wf()
    }

    pub fn callback(&self) -> (r: &P) {
        &self.callback
    }

    /// Playback is over.
    pub fn is_done(&self) -> (r: bool)
        requires
            self.wf(),
        ensures
            r == self.driver_spec().model().done,
    {
        self.driver.is_done()
    }

    /// Reads the shared state and takes one step of the player (see
    /// `PlaybackDriver::step`). A state that cannot be read, or a shared value
    /// that could not be written before, stops playback. Publishes the time
    /// played, and once playback is over sets the state back to `NotRunning`;
    /// a write that fails is remembered.
    pub fn step(&mut self, accepted: bool) -> (r: PlayerAction)
        requires
            old(self).wf(),
            !old(self).driver_spec().model().done,
        ensures
            final(self).wf(),
            final(self).events_spec() == old(self).events_spec(),
            exists|s: Option<ReadingState>| (old(self).lock_failed_spec() ==> s is None)
                && (final(self).driver_spec().model(), r@)
                == #[trigger] step_spec(old(self).events_spec(), old(self).driver_spec().model(), observed(s), accepted),
            old(self).lock_failed_spec() ==> final(self).lock_failed_spec(),
    {
        let read = if self.lock_failed { None } else { self.reading_state.get_data() };
        let state = observed_state(read);
        let r = self.driver.step(state, accepted);
        if !self.elapsed_time.set_data(self.driver.elapsed()) {
            self.lock_failed = true;
        }
        if self.driver.is_done() {
            if !self.reading_state.set_data(ReadingState::NotRunning) {
                self.lock_failed = true;
            }
        }
        assert((self.driver.model(), r@) == step_spec(old(self).events_spec(), old(self).driver_spec().model(), observed(read), accepted));
        r
    }
}

} // verus!
