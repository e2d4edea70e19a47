use vstd::prelude::*;

use crate::errors::{InvalidScore, MidiReaderError};
use midly::{MidiMessage, Smf};
use nodi::{Event, MidiEvent, Sheet};

verus! {

/// One event of a score, as far as playback cares about it.
#[derive(Clone, Copy, Debug, PartialEq, Eq, Structural)]
pub enum ScoreEvent {
    NoteOn { key: u8, vel: u8 },
    NoteOff { key: u8, vel: u8 },
    /// A new tempo, in microseconds per quarter note.
    Tempo(u32),
    /// Anything else (controllers, signatures, ...): played through silently.
    Other,
}

/// The events that fall on one tick of the score.
#[derive(Clone, Debug)]
pub struct Moment {
    pub events: Vec<ScoreEvent>,
}

/// An event together with the ticks to wait before it.
#[derive(Clone, Copy, Debug, PartialEq, Eq, Structural)]
pub struct TimedEvent {
    pub delta: u32,
    pub event: ScoreEvent,
}

/// The timing and layout found in the header of a standard MIDI file.
#[derive(Clone, Copy, Debug, PartialEq, Eq, Structural)]
pub enum SmfTiming {
    Metrical(u16),
    Timecode,
}

#[derive(Clone, Copy, Debug, PartialEq, Eq, Structural)]
pub struct SmfHeader {
    pub parallel: bool,
    pub timing: SmfTiming,
}

/// What `midly::Smf::parse` reads from a file's header, or `None` where it fails.
pub uninterp spec fn smf_header_of(bytes: Seq<u8>) -> Option<SmfHeader>;

/// The moments of a parsed file, one per tick, as nodi lays out its tracks
/// (merged when `parallel`, one after the other otherwise).
pub uninterp spec fn smf_moments_of(bytes: Seq<u8>, parallel: bool) -> Seq<Moment>;

/// Microseconds that nodi's `Ticker` waits for `n_ticks` ticks at `tempo`
/// microseconds per beat.
pub uninterp spec fn ticker_micros(ticks_per_beat: u16, tempo: u32, n_ticks: u32) -> u64;

/// Relies on `midly::Smf::parse`: the header of a well-formed file, or `None`.
#[verifier::external_body]
fn read_smf_header(bytes: &[u8]) -> (r: Option<SmfHeader>)
    ensures
        r == smf_header_of(bytes@),
{
    let smf = Smf::parse(bytes).ok()?;
    let timing = match smf.header.timing {
        midly::Timing::Metrical(n) => SmfTiming::Metrical(n.as_int()),
        midly::Timing::Timecode(_, _) => SmfTiming::Timecode,
    };
    Some(SmfHeader { parallel: smf.header.format == midly::Format::Parallel, timing })
}

/// Relies on `midly::Smf::parse` and `nodi::Sheet::{parallel, sequential}`:
/// the file's events laid out as one moment per tick.
#[verifier::external_body]
fn read_smf_moments(bytes: &[u8], parallel: bool) -> (r: Vec<Moment>)
    requires
        smf_header_of(bytes@) is Some,
    ensures
        r@ == smf_moments_of(bytes@, parallel),
{
    let smf = Smf::parse(bytes).unwrap();
    let sheet = if parallel { Sheet::parallel(&smf.tracks) } else { Sheet::sequential(&smf.tracks) };
    sheet.iter().map(|m| Moment { events: m.events.iter().map(|e| match e {
        Event::Tempo(t) => ScoreEvent::Tempo(*t),
        Event::Midi(MidiEvent { message: MidiMessage::NoteOn { key, vel }, .. }) => ScoreEvent::NoteOn { key: key.as_int(), vel: vel.as_int() },
        Event::Midi(MidiEvent { message: MidiMessage::NoteOff { key, vel }, .. }) => ScoreEvent::NoteOff { key: key.as_int(), vel: vel.as_int() },
        _ => ScoreEvent::Other,
    }).collect() }).collect()
}

/// Relies on `nodi::timers::Ticker`: the wait for `n_ticks` ticks at `tempo`,
/// in whole microseconds; none for no ticks, and none while no tempo is set.
#[verifier::external_body]
fn ticker_sleep_micros(ticks_per_beat: u16, tempo: u32, n_ticks: u32) -> (r: u64)
    ensures
        r == ticker_micros(ticks_per_beat, tempo, n_ticks),
        n_ticks == 0 ==> r == 0,
        tempo == 0 ==> r == 0,
{
    let ticker = nodi::timers::Ticker::with_initial_tempo(ticks_per_beat, tempo);
    ticker.sleep_duration_without_readjustment(n_ticks).as_micros() as u64
}


/// Converts ticks into microseconds at the score's resolution and the tempo
/// last set; no tempo is set at first, so nothing waits before the first one.
#[derive(Clone, Copy, Debug, PartialEq, Eq, Structural)]
pub struct TempoClock {
    pub ticks_per_beat: u16,
    pub tempo: u32,
}

impl TempoClock {
    pub fn new(ticks_per_beat: u16) -> (r: TempoClock)
        ensures
            r == (TempoClock { ticks_per_beat, tempo: 0 }),
    {
        TempoClock { ticks_per_beat, tempo: 0 }
    }

    pub open spec fn duration_spec(&self, n_ticks: u32) -> u64 {
        ticker_micros(self.ticks_per_beat, self.tempo, n_ticks)
    }

    /// Microseconds to wait for `n_ticks` ticks at the current tempo.
    pub fn duration_for(&self, n_ticks: u32) -> (r: u64)
        ensures
            r == self.duration_spec(n_ticks),
            n_ticks == 0 || self.tempo == 0 ==> r == 0,
    {
        ticker_sleep_micros(self.ticks_per_beat, self.tempo, n_ticks)
    }

    /// Later waits use `tempo` microseconds per quarter note.
    pub fn set_tempo(&mut self, tempo: u32)
        ensures
            *final(self) == (TempoClock { ticks_per_beat: old(self).ticks_per_beat, tempo }),
    {
        self.tempo = tempo;
    }
}

/// Adds without overflow, stopping at the largest `u64`.
pub open spec fn sat_add(a: u64, b: u64) -> u64 {
    if a + b > u64::MAX { u64::MAX } else { (a + b) as u64 }
}

/// The timeline of the first `n` moments: each event with the ticks since the
/// previous one, and the ticks counted since the last non-empty moment.
pub open spec fn timeline_upto(moments: Seq<Moment>, n: int) -> (Seq<TimedEvent>, nat)
    decreases n,
{
    if n <= 0 {
        (Seq::empty(), 0)
    } else {
        let (prev, count) = timeline_upto(moments, n - 1);
        let evs = moments[n - 1].events@;
        if evs.len() == 0 {
            (prev, count + 1)
        } else {
            (prev + Seq::new(evs.len(), |i: int| TimedEvent {
                delta: if i == 0 { count as u32 } else { 0 },
                event: evs[i],
            }), 1)
        }
    }
}

/// The events of a score in playing order, each with the ticks to wait before it.
pub open spec fn timeline(moments: Seq<Moment>) -> Seq<TimedEvent> {
    timeline_upto(moments, moments.len() as int).0
}

/// The clock after `event`: a tempo event sets the tempo, others keep it.
pub open spec fn clock_after(clock: TempoClock, event: ScoreEvent) -> TempoClock {
    match event {
        ScoreEvent::Tempo(t) => TempoClock { ticks_per_beat: clock.ticks_per_beat, tempo: t },
        _ => clock,
    }
}

/// Playing time of the first `n` events, with the clock as it stands after
/// them: each wait is taken at the tempo that holds when it starts.
pub open spec fn length_upto(ticks_per_beat: u16, events: Seq<TimedEvent>, n: int) -> (u64, TempoClock)
    decreases n,
{
    if n <= 0 {
        (0, TempoClock { ticks_per_beat, tempo: 0 })
    } else {
        let (acc, clock) = length_upto(ticks_per_beat, events, n - 1);
        (sat_add(acc, clock.duration_spec(events[n - 1].delta)), clock_after(clock, events[n - 1].event))
    }
}

/// Some event of `events` sets a tempo of zero.
pub open spec fn has_zero_tempo(events: Seq<TimedEvent>) -> bool {
    exists|i: int| 0 <= i < events.len() && #[trigger] events[i].event == ScoreEvent::Tempo(0)
}

/// A parsed score: its resolution and its events in playing order.
#[derive(Clone, Debug)]
pub struct Score {
    pub ticks_per_beat: u16,
    pub events: Vec<TimedEvent>,
}

impl Score {
    pub open spec fn length_spec(&self) -> u64 {
        length_upto(self.ticks_per_beat, self.events@, self.events@.len() as int).0
    }

    /// Lays out `moments`, one per tick, as a timeline.
    pub fn from_moments(ticks_per_beat: u16, moments: &Vec<Moment>) -> (r: Score)
        requires
            moments@.len() < u32::MAX,
        ensures
            r.ticks_per_beat == ticks_per_beat,
            r.events@ == timeline(moments@),
    {
        let mut events: Vec<TimedEvent> = Vec::new();
        let mut count: u32 = 0;
        let mut i: usize = 0;
        while i < moments.len()
            invariant
                i <= moments@.len() < u32::MAX,
                (events@, count as nat) == timeline_upto(moments@, i as int),
                count <= i,
            decreases moments@.len() - i,
        {
            let evs = &moments[i].events;
            if evs.len() > 0 {
                let ghost prev = events@;
                let mut j: usize = 0;
                while j < evs.len()
                    invariant
                        j <= evs@.len(),
                        evs == moments@[i as int].events,
                        events@ == prev + Seq::new(j as nat, |k: int| TimedEvent {
                            delta: if k == 0 { count } else { 0 },
                            event: evs@[k],
                        }),
                    decreases evs@.len() - j,
                {
                    let delta: u32 = if j == 0 { count } else { 0 };
                    events.push(TimedEvent { delta, event: evs[j] });
                    j = j + 1;
                    assert(events@ =~= prev + Seq::new(j as nat, |k: int| TimedEvent {
                        delta: if k == 0 { count } else { 0 },
                        event: evs@[k],
                    }));
                }
                assert(events@ =~= timeline_upto(moments@, i + 1).0);
                count = 1;
            } else {
                count = count + 1;
            }
            i = i + 1;
        }
        Score { ticks_per_beat, events }
    }

    /// `r` is what reading `bytes` as a standard MIDI file gives.
    pub open spec fn parsed_as(bytes: Seq<u8>, r: Result<Score, MidiReaderError>) -> bool {
        match smf_header_of(bytes) {
            None => r == Err::<Score, MidiReaderError>(MidiReaderError::InvalidMidiFile(InvalidScore::Malformed)),
            Some(h) => match h.timing {
                SmfTiming::Timecode => r == Err::<Score, MidiReaderError>(
                    MidiReaderError::InvalidMidiFile(InvalidScore::UnsupportedTiming)),
                SmfTiming::Metrical(tpb) => {
                    let ms = smf_moments_of(bytes, h.parallel);
                    if tpb == 0 {
                        r == Err::<Score, MidiReaderError>(MidiReaderError::InvalidMidiFile(InvalidScore::UnsupportedTiming))
                    } else if ms.len() >= u32::MAX {
                        r == Err::<Score, MidiReaderError>(MidiReaderError::InvalidMidiFile(InvalidScore::TooLong))
                    } else if has_zero_tempo(timeline(ms)) {
                        r == Err::<Score, MidiReaderError>(MidiReaderError::InvalidMidiFile(InvalidScore::ZeroTempo))
                    } else {
                        r matches Ok(s) && s.ticks_per_beat == tpb && s.events@ == timeline(ms)
                    }
                },
            },
        }
    }

    /// Reads a standard MIDI file: its resolution from the header, its tracks
    /// merged by tick (parallel files) or one after the other (single-track
    /// and sequential files).
    pub fn parse(bytes: &Vec<u8>) -> (r: Result<Score, MidiReaderError>)
        ensures
            Score::parsed_as(bytes@, r),
    {
        let header = match read_smf_header(bytes.as_slice()) {
            Some(h) => h,
            None => return Err(MidiReaderError::InvalidMidiFile(InvalidScore::Malformed)),
        };
        let tpb = match header.timing {
            SmfTiming::Metrical(n) => n,
            SmfTiming::Timecode => return Err(MidiReaderError::InvalidMidiFile(InvalidScore::UnsupportedTiming)),
        };
        if tpb == 0 {
            return Err(MidiReaderError::InvalidMidiFile(InvalidScore::UnsupportedTiming));
        }
        let moments = read_smf_moments(bytes.as_slice(), header.parallel);
        if moments.len() >= 0xffff_ffff {
            return Err(MidiReaderError::InvalidMidiFile(InvalidScore::TooLong));
        }
        let score = Score::from_moments(tpb, &moments);
        if score.find_zero_tempo() {
            return Err(MidiReaderError::InvalidMidiFile(InvalidScore::ZeroTempo));
        }
        Ok(score)
    }

    /// Whether some event sets a tempo of zero.
    pub fn find_zero_tempo(&self) -> (r: bool)
        ensures
            r == has_zero_tempo(self.events@),
    {
        let mut i: usize = 0;
        while i < self.events.len()
            invariant
                i <= self.events@.len(),
                forall|k: int| 0 <= k < i ==> self.events@[k].event != ScoreEvent::Tempo(0),
            decreases self.events@.len() - i,
        {
            if self.events[i].event == ScoreEvent::Tempo(0) {
                return true;
            }
            i = i + 1;
        }
        false
    }

    /// Total playing time, in microseconds, computed without waiting: the sum
    /// of the waits before every event (the dry run of playback).
    pub fn total_length(&self) -> (r: u64)
        ensures
            r == self.length_spec(),
    {
        let mut clock = TempoClock::new(self.ticks_per_beat);
        let mut acc: u64 = 0;
        let mut i: usize = 0;
        while i < self.events.len()
            invariant
                i <= self.events@.len(),
                (acc, clock) == length_upto(self.ticks_per_beat, self.events@, i as int),
            decreases self.events@.len() - i,
        {
            let te = self.events[i];
            let d = clock.duration_for(te.delta);
            acc = acc.saturating_add(d);
            if let ScoreEvent::Tempo(t) = te.event {
                clock.set_tempo(t);
            }
            i = i + 1;
        }
        acc
    }
}

} // verus!
