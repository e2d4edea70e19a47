use vstd::prelude::*;

use crate::score::{
    clock_after, length_upto, sat_add, Score, ScoreEvent, TempoClock, TimedEvent,
};

verus! {

/// Longest single wait: pause and stop requests are seen at most this many
/// microseconds after they are made.
pub const PAUSE_CHECK_MICROS: u64 = 33_000;

/// Number of distinct note keys a byte can name.
pub const KEY_SLOTS: usize = 256;

/// The shared state of a playback, set by the player and by controllers.
#[derive(Clone, Copy, Debug, PartialEq, Eq, Structural)]
pub enum ReadingState {
    Playing,
    Paused,
    Stoped,
    NotRunning,
}

/// A state in which playback must end at once.
pub open spec fn stopping(s: ReadingState) -> bool {
    s == ReadingState::Stoped || s == ReadingState::NotRunning
}

/// What the player asks of whoever runs it, as a mathematical value.
pub enum Directive {
    Sleep(u64),
    NotifyPause(u64),
    Note(bool, u8, u8),
    Finish,
    Interrupt(Seq<u8>),
}

/// What the player asks of whoever runs it next.
#[derive(Clone, Debug, PartialEq, Eq)]
pub enum PlayerAction {
    /// Wait this many microseconds, then step again.
    Sleep(u64),
    /// Tell the observer that playback is paused, then wait this many microseconds.
    NotifyPause(u64),
    /// Hand this note to the observer, and its answer to the next step.
    Note { on: bool, key: u8, vel: u8 },
    /// The score is over: tell the observer it finished.
    Finish,
    /// Playback ended early: send a note-off for each of these keys, then tell
    /// the observer it was interrupted.
    Interrupt(Vec<u8>),
}

impl View for PlayerAction {
    type V = Directive;

    open spec fn view(&self) -> Directive {
        match self {
            PlayerAction::Sleep(d) => Directive::Sleep(*d),
            PlayerAction::NotifyPause(d) => Directive::NotifyPause(*d),
            PlayerAction::Note { on, key, vel } => Directive::Note(*on, *key, *vel),
            PlayerAction::Finish => Directive::Finish,
            PlayerAction::Interrupt(keys) => Directive::Interrupt(keys@),
        }
    }
}

/// The player's state as a mathematical value.
pub struct DriverState {
    /// Index of the next event to dispatch.
    pub pos: int,
    pub clock: TempoClock,
    /// The wait before the event at `pos` is over.
    pub waited: bool,
    /// A wait before the event at `pos` is under way.
    pub waiting: bool,
    /// Microseconds of that wait still to play.
    pub remaining: u64,
    /// The observer has heard of the pause now going on.
    pub notified: bool,
    /// For each key, whether it sounds.
    pub sounding: Seq<bool>,
    /// Microseconds played so far.
    pub elapsed: u64,
    /// The last action was a note whose answer has not come back yet.
    pub answer_due: bool,
    pub done: bool,
}

/// The keys below `n` that are set in `flags`, in increasing order.
pub open spec fn held_upto(flags: Seq<bool>, n: int) -> Seq<u8>
    decreases n,
{
    if n <= 0 {
        Seq::empty()
    } else {
        held_upto(flags, n - 1) + if flags[n - 1] { seq![(n - 1) as u8] } else { Seq::empty() }
    }
}

pub open spec fn held_notes(flags: Seq<bool>) -> Seq<u8> {
    held_upto(flags, KEY_SLOTS as int)
}

pub open spec fn silent() -> Seq<bool> {
    Seq::new(KEY_SLOTS as nat, |i: int| false)
}

/// Ends playback early: every sounding key is released.
pub open spec fn interrupt(m: DriverState) -> (DriverState, Directive) {
    (
        DriverState { done: true, waiting: false, sounding: silent(), ..m },
        Directive::Interrupt(held_notes(m.sounding)),
    )
}

/// One poll of a wait under way, on the state just observed.
pub open spec fn poll(m: DriverState, state: ReadingState) -> (DriverState, Directive) {
    if stopping(state) {
        interrupt(m)
    } else if state == ReadingState::Paused {
        if m.notified {
            (m, Directive::Sleep(PAUSE_CHECK_MICROS))
        } else {
            (DriverState { notified: true, ..m }, Directive::NotifyPause(PAUSE_CHECK_MICROS))
        }
    } else {
        let chunk = if m.remaining < PAUSE_CHECK_MICROS { m.remaining } else { PAUSE_CHECK_MICROS };
        let rem = (m.remaining - chunk) as u64;
        (
            DriverState {
                remaining: rem,
                waiting: rem > 0,
                waited: rem == 0,
                notified: false,
                elapsed: sat_add(m.elapsed, chunk),
                ..m
            },
            Directive::Sleep(chunk),
        )
    }
}

/// Dispatches events from `m.pos` on until one needs the outside world.
pub open spec fn dispatch(events: Seq<TimedEvent>, m: DriverState, state: ReadingState) -> (DriverState, Directive)
    decreases events.len() - m.pos, (if m.waited { 0int } else { 1int }),
{
    if m.pos < 0 || m.pos >= events.len() {
        (DriverState { done: true, sounding: silent(), ..m }, Directive::Finish)
    } else if !m.waited {
        let d = m.clock.duration_spec(events[m.pos].delta);
        if d == 0 {
            dispatch(events, DriverState { waited: true, ..m }, state)
        } else {
            poll(DriverState { waiting: true, remaining: d, notified: false, ..m }, state)
        }
    } else if stopping(state) {
        interrupt(m)
    } else {
        let next = DriverState { pos: m.pos + 1, waited: false, ..m };
        match events[m.pos].event {
            ScoreEvent::NoteOn { key, vel } => (
                DriverState { sounding: m.sounding.update(key as int, true), answer_due: true, ..next },
                Directive::Note(true, key, vel),
            ),
            ScoreEvent::NoteOff { key, vel } => (
                DriverState { sounding: m.sounding.update(key as int, false), answer_due: true, ..next },
                Directive::Note(false, key, vel),
            ),
            ScoreEvent::Tempo(t) => dispatch(events, DriverState { clock: clock_after(m.clock, ScoreEvent::Tempo(t)), ..next }, state),
            ScoreEvent::Other => dispatch(events, next, state),
        }
    }
}

/// One step of the player, given the shared state just read and the
/// observer's answer to the last note (ignored when no note was handed out).
pub open spec fn step_spec(events: Seq<TimedEvent>, m: DriverState, state: ReadingState, accepted: bool) -> (DriverState, Directive) {
    if m.answer_due && !accepted {
        interrupt(m)
    } else {
        let m1 = DriverState { answer_due: false, ..m };
        if m1.waiting {
            poll(m1, state)
        } else {
            dispatch(events, m1, state)
        }
    }
}

/// A state the player can be in: the next event lies within the score, a
/// flag for every key, and a wait under way has time left and no answer due.
pub open spec fn model_wf(events: Seq<TimedEvent>, m: DriverState) -> bool {
    &&& 0 <= m.pos <= events.len()
    &&& m.sounding.len() == KEY_SLOTS
    &&& m.waiting ==> m.remaining > 0 && !m.answer_due
}

/// The player at the start of a score.
pub open spec fn initial_state(ticks_per_beat: u16) -> DriverState {
    DriverState {
        pos: 0,
        clock: TempoClock { ticks_per_beat, tempo: 0 },
        waited: false,
        waiting: false,
        remaining: 0,
        notified: false,
        sounding: silent(),
        elapsed: 0,
        answer_due: false,
        done: false,
    }
}

/// Drives a score event by event: decides when to wait, when to hand a note
/// to the observer, and when playback is over. Whoever runs it performs each
/// action and steps again with the shared state it then reads.
pub struct PlaybackDriver {
    events: Vec<TimedEvent>,
    clock: TempoClock,
    pos: usize,
    waited: bool,
    waiting: bool,
    remaining: u64,
    notified: bool,
    /// One flag per key byte, so that a flush releases the held keys in
    /// increasing order (a hash set would hand them out in no stated order).
    sounding: Vec<bool>,
    elapsed: u64,
    answer_due: bool,
    done: bool,
}

/// One flag per key, none of them set.
fn silent_keys() -> (r: Vec<bool>)
    ensures
        r@ == silent(),
{
    let mut flags: Vec<bool> = Vec::new();
    let mut i: usize = 0;
    while i < KEY_SLOTS
        invariant
            i <= KEY_SLOTS,
            flags@ == Seq::new(i as nat, |k: int| false),
        decreases KEY_SLOTS - i,
    {
        flags.push(false);
        i = i + 1;
        assert(flags@ =~= Seq::new(i as nat, |k: int| false));
    }
    flags
}

impl PlaybackDriver {
    pub closed spec fn model(&self) -> DriverState {
        DriverState {
            pos: self.pos as int,
            clock: self.clock,
            waited: self.waited,
            waiting: self.waiting,
            remaining: self.remaining,
            notified: self.notified,
            sounding: self.sounding@,
            elapsed: self.elapsed,
            answer_due: self.answer_due,
            done: self.done,
        }
    }

    pub closed spec fn events_spec(&self) -> Seq<TimedEvent> {
        self.events@
    }

    /// The player's state is one that stepping can reach.
    pub open spec fn wf(&self) -> bool {
        model_wf(self.events_spec(), self.model())
    }

    pub fn new(score: &Score) -> (r: PlaybackDriver)
        ensures
            r.wf(),
            r.model() == initial_state(score.ticks_per_beat),
            r.events_spec() == score.events@,
    {
        let sounding = silent_keys();
        PlaybackDriver {
            events: score.events.clone(),
            clock: TempoClock::new(score.ticks_per_beat),
            pos: 0,
            waited: false,
            waiting: false,
            remaining: 0,
            notified: false,
            sounding,
            elapsed: 0,
            answer_due: false,
            done: false,
        }
    }

    /// Microseconds played so far; paused time is not counted.
    pub fn elapsed(&self) -> (r: u64)
        ensures
            r == self.model().elapsed,
    {
        self.elapsed
    }

    /// Playback has finished or been interrupted.
    pub fn is_done(&self) -> (r: bool)
        ensures
            r == self.model().done,
    {
        self.done
    }

    fn interrupt(&mut self) -> (r: PlayerAction)
        requires
            old(self).wf(),
        ensures
            final(self).wf(),
            final(self).events_spec() == old(self).events_spec(),
            (final(self).model(), r@) == interrupt(old(self).model()),
    {
        let mut keys: Vec<u8> = Vec::new();
        let mut k: usize = 0;
        while k < KEY_SLOTS
            invariant
                k <= KEY_SLOTS,
                self.sounding@.len() == KEY_SLOTS,
                self.sounding@ == old(self).sounding@,
                keys@ == held_upto(self.sounding@, k as int),
            decreases KEY_SLOTS - k,
        {
            if self.sounding[k] {
                keys.push(k as u8);
            }
            k = k + 1;
            assert(keys@ =~= held_upto(self.sounding@, k as int));
        }
        self.sounding = silent_keys();
        self.done = true;
        self.waiting = false;
        PlayerAction::Interrupt(keys)
    }

    fn poll(&mut self, state: ReadingState) -> (r: PlayerAction)
        requires
            old(self).wf(),
            old(self).waiting,
            !old(self).answer_due,
        ensures
            final(self).wf(),
            final(self).events_spec() == old(self).events_spec(),
            (final(self).model(), r@) == poll(old(self).model(), state),
    {
        match state {
            ReadingState::Stoped | ReadingState::NotRunning => self.interrupt(),
            ReadingState::Paused => {
                if self.notified {
                    PlayerAction::Sleep(PAUSE_CHECK_MICROS)
                } else {
                    self.notified = true;
                    PlayerAction::NotifyPause(PAUSE_CHECK_MICROS)
                }
            },
            ReadingState::Playing => {
                let chunk = if self.remaining < PAUSE_CHECK_MICROS { self.remaining } else { PAUSE_CHECK_MICROS };
                let rem = self.remaining - chunk;
                self.remaining = rem;
                self.waiting = rem > 0;
                self.waited = rem == 0;
                self.notified = false;
                self.elapsed = self.elapsed.saturating_add(chunk);
                PlayerAction::Sleep(chunk)
            },
        }
    }

    fn dispatch(&mut self, state: ReadingState) -> (r: PlayerAction)
        requires
            old(self).wf(),
            !old(self).waiting,
            !old(self).answer_due,
        ensures
            final(self).wf(),
            final(self).events_spec() == old(self).events_spec(),
            (final(self).model(), r@) == dispatch(old(self).events_spec(), old(self).model(), state),
    {
        loop
            invariant
                self.wf(),
                !self.waiting,
                !self.answer_due,
                self.events@ == old(self).events@,
                dispatch(self.events@, self.model(), state) == dispatch(old(self).events_spec(), old(self).model(), state),
            decreases self.events@.len() - self.pos, (if self.waited { 0int } else { 1int }),
        {
            if self.pos >= self.events.len() {
                self.sounding = silent_keys();
                self.done = true;
                return PlayerAction::Finish;
            }
            let te = self.events[self.pos];
            if !self.waited {
                let d = self.clock.duration_for(te.delta);
                if d == 0 {
                    self.waited = true;
                } else {
                    self.waiting = true;
                    self.remaining = d;
                    self.notified = false;
                    return self.poll(state);
                }
            } else {
                match state {
                    ReadingState::Stoped | ReadingState::NotRunning => {
                        return self.interrupt();
                    },
                    _ => {},
                }
                self.pos = self.pos + 1;
                self.waited = false;
                match te.event {
                    ScoreEvent::NoteOn { key, vel } => {
                        self.sounding.set(key as usize, true);
                        self.answer_due = true;
                        return PlayerAction::Note { on: true, key, vel };
                    },
                    ScoreEvent::NoteOff { key, vel } => {
                        self.sounding.set(key as usize, false);
                        self.answer_due = true;
                        return PlayerAction::Note { on: false, key, vel };
                    },
                    ScoreEvent::Tempo(t) => {
                        self.clock.set_tempo(t);
                    },
                    ScoreEvent::Other => {},
                }
            }
        }
    }

    /// One step: `state` is the shared state read just now, `accepted` the
    /// observer's answer to the note of the last action, if it was one.
    pub fn step(&mut self, state: ReadingState, accepted: bool) -> (r: PlayerAction)
        requires
            old(self).wf(),
            !old(self).model().done,
        ensures
            final(self).wf(),
            final(self).events_spec() == old(self).events_spec(),
            (final(self).model(), r@) == step_spec(old(self).events_spec(), old(self).model(), state, accepted),
    {
        if self.answer_due && !accepted {
            return self.interrupt();
        }
        self.answer_due = false;
        if self.waiting {
            self.poll(state)
        } else {
            self.dispatch(state)
        }
    }
}

} // verus!
