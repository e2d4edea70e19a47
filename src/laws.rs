//! What playback guarantees across steps and whole runs.
use vstd::prelude::*;

use crate::playback::{
    dispatch, held_notes, model_wf, held_upto, initial_state, interrupt, poll, silent, step_spec, stopping,
    Directive, DriverState, ReadingState, KEY_SLOTS, PAUSE_CHECK_MICROS,
};
use crate::score::{Score, clock_after, length_upto, sat_add, ScoreEvent, TimedEvent};

verus! {

/// The player stepped once per observation (shared state, observer's answer),
/// until it is done: its final state and every action it asked for.
pub open spec fn run(events: Seq<TimedEvent>, m: DriverState, obs: Seq<(ReadingState, bool)>) -> (DriverState, Seq<Directive>)
    decreases obs.len(),
{
    if obs.len() == 0 || m.done {
        (m, Seq::empty())
    } else {
        let (m1, d) = step_spec(events, m, obs[0].0, obs[0].1);
        let (m2, ds) = run(events, m1, obs.drop_first());
        (m2, seq![d] + ds)
    }
}

/// How many times the observer is told of a pause.
pub open spec fn pause_notices(ds: Seq<Directive>) -> nat
    decreases ds.len(),
{
    if ds.len() == 0 {
        0
    } else {
        (if ds[0] is NotifyPause { 1nat } else { 0nat }) + pause_notices(ds.drop_first())
    }
}

/// A wait asked for by an action, or zero.
pub open spec fn wait_of(d: Directive) -> u64 {
    match d {
        Directive::Sleep(t) => t,
        Directive::NotifyPause(t) => t,
        _ => 0,
    }
}

proof fn lemma_held_upto(flags: Seq<bool>, n: int)
    requires
        0 <= n <= flags.len() <= 256,
    ensures
        forall|i: int| 0 <= i < held_upto(flags, n).len() ==> (#[trigger] held_upto(flags, n)[i]) < n
            && flags[held_upto(flags, n)[i] as int],
        forall|k: int| 0 <= k < n && flags[k] ==> held_upto(flags, n).contains(k as u8),
        forall|i: int, j: int| 0 <= i < j < held_upto(flags, n).len() ==> held_upto(flags, n)[i] < held_upto(flags, n)[j],
    decreases n,
{
    if n > 0 {
        lemma_held_upto(flags, n - 1);
        let prev = held_upto(flags, n - 1);
        let cur = held_upto(flags, n);
        assert forall|k: int| 0 <= k < n && flags[k] implies cur.contains(k as u8) by {
            if k < n - 1 {
                let i = choose|i: int| 0 <= i < prev.len() && prev[i] == k as u8;
                assert(cur[i] == k as u8);
            } else {
                assert(cur[prev.len() as int] == k as u8);
            }
        }
    }
}

/// Ending early releases exactly the keys that sound: each once, in increasing
/// order, and afterwards no key sounds.
pub proof fn law_interrupt_releases_sounding_keys(m: DriverState)
    requires
        m.sounding.len() == KEY_SLOTS,
    ensures
        ({
            let (m2, d) = interrupt(m);
            &&& d == Directive::Interrupt(held_notes(m.sounding))
            &&& forall|i: int| 0 <= i < held_notes(m.sounding).len() ==> m.sounding[held_notes(m.sounding)[i] as int]
            &&& forall|k: u8| m.sounding[k as int] ==> held_notes(m.sounding).contains(k)
            &&& forall|i: int, j: int| 0 <= i < j < held_notes(m.sounding).len()
                ==> held_notes(m.sounding)[i] < held_notes(m.sounding)[j]
            &&& forall|k: int| 0 <= k < KEY_SLOTS ==> !m2.sounding[k]
            &&& m2.done
        }),
{
    lemma_held_upto(m.sounding, KEY_SLOTS as int);
    assert forall|k: u8| m.sounding[k as int] implies held_notes(m.sounding).contains(k) by {
        assert(0 <= k as int && (k as int) < 256);
    }
}

proof fn lemma_dispatch_stop(events: Seq<TimedEvent>, m: DriverState, state: ReadingState)
    requires
        stopping(state),
    ensures
        ({
            let (m2, d) = dispatch(events, m, state);
            d == Directive::Finish || (d == Directive::Interrupt(held_notes(m.sounding)) && m2.sounding == silent() && m2.done)
        }),
    decreases events.len() - m.pos, (if m.waited { 0int } else { 1int }),
{
    if m.pos < 0 || m.pos >= events.len() {
    } else if !m.waited {
        let d = m.clock.duration_spec(events[m.pos].delta);
        if d == 0 {
            lemma_dispatch_stop(events, DriverState { waited: true, ..m }, state);
        }
    }
}

/// A stop request ends playback at the very next step, releasing every key
/// that sounds (unless the score was over anyway); and no single wait is
/// longer than one polling slice, so a stop is seen within one slice.
pub proof fn law_stop_is_prompt(events: Seq<TimedEvent>, m: DriverState, state: ReadingState, accepted: bool)
    ensures
        ({
            let (m2, d) = step_spec(events, m, state, accepted);
            &&& wait_of(d) <= PAUSE_CHECK_MICROS
            &&& stopping(state) ==> (d == Directive::Finish
                || (d == Directive::Interrupt(held_notes(m.sounding)) && m2.sounding == silent() && m2.done))
        }),
{
    lemma_waits_bounded(events, DriverState { answer_due: false, ..m }, state);
    if stopping(state) && !(m.answer_due && !accepted) && !m.waiting {
        lemma_dispatch_stop(events, DriverState { answer_due: false, ..m }, state);
    }
}

proof fn lemma_waits_bounded(events: Seq<TimedEvent>, m: DriverState, state: ReadingState)
    ensures
        wait_of(dispatch(events, m, state).1) <= PAUSE_CHECK_MICROS,
        wait_of(poll(m, state).1) <= PAUSE_CHECK_MICROS,
    decreases events.len() - m.pos, (if m.waited { 0int } else { 1int }),
{
    if m.pos < 0 || m.pos >= events.len() {
    } else if !m.waited {
        let d = m.clock.duration_spec(events[m.pos].delta);
        if d == 0 {
            lemma_waits_bounded(events, DriverState { waited: true, ..m }, state);
        }
    } else if !stopping(state) {
        let next = DriverState { pos: m.pos + 1, waited: false, ..m };
        match events[m.pos].event {
            ScoreEvent::Tempo(t) => lemma_waits_bounded(events, DriverState { clock: clock_after(m.clock, ScoreEvent::Tempo(t)), ..next }, state),
            ScoreEvent::Other => lemma_waits_bounded(events, next, state),
            _ => {},
        }
    }
}

/// While playback stays paused, however many slices it lasts, the time
/// played does not grow, the wait in progress keeps what it has left, and the
/// observer hears of the pause once (none if it already had).
pub proof fn law_pause_holds_time(events: Seq<TimedEvent>, m: DriverState, obs: Seq<(ReadingState, bool)>)
    requires
        m.waiting,
        !m.answer_due,
        !m.done,
        forall|i: int| 0 <= i < obs.len() ==> obs[i].0 == ReadingState::Paused,
    ensures
        ({
            let (m2, ds) = run(events, m, obs);
            &&& m2.elapsed == m.elapsed
            &&& m2.remaining == m.remaining
            &&& m2.waiting && !m2.done
            &&& pause_notices(ds) == (if !m.notified && obs.len() > 0 { 1nat } else { 0nat })
        }),
    decreases obs.len(),
{
    if obs.len() > 0 {
        let m1 = DriverState { notified: true, ..m };
        assert(step_spec(events, m, obs[0].0, obs[0].1).0 == m1);
        law_pause_holds_time(events, m1, obs.drop_first());
        let (m2, ds) = run(events, m1, obs.drop_first());
        let d = step_spec(events, m, obs[0].0, obs[0].1).1;
        assert((seq![d] + ds).drop_first() =~= ds);
    }
}

/// Runs that see the same states and answers ask for the same actions: with
/// one list of observations a prefix of the other, so are the actions.
pub proof fn law_runs_agree(events: Seq<TimedEvent>, m: DriverState, obs1: Seq<(ReadingState, bool)>, obs2: Seq<(ReadingState, bool)>)
    requires
        obs1.len() <= obs2.len(),
        forall|i: int| 0 <= i < obs1.len() ==> obs1[i] == obs2[i],
    ensures
        run(events, m, obs1).1.len() <= run(events, m, obs2).1.len(),
        forall|i: int| 0 <= i < run(events, m, obs1).1.len() ==> run(events, m, obs1).1[i] == run(events, m, obs2).1[i],
    decreases obs1.len(),
{
    if obs1.len() > 0 && !m.done {
        let m1 = step_spec(events, m, obs1[0].0, obs1[0].1).0;
        law_runs_agree(events, m1, obs1.drop_first(), obs2.drop_first());
    }
}

/// The notes among some actions, in order.
pub open spec fn notes_of(ds: Seq<Directive>) -> Seq<Directive>
    decreases ds.len(),
{
    if ds.len() == 0 {
        Seq::empty()
    } else {
        (if ds[0] is Note { seq![ds[0]] } else { Seq::empty() }) + notes_of(ds.drop_first())
    }
}

/// The note an event hands to the observer, if any.
pub open spec fn note_directive(e: ScoreEvent) -> Seq<Directive> {
    match e {
        ScoreEvent::NoteOn { key, vel } => seq![Directive::Note(true, key, vel)],
        ScoreEvent::NoteOff { key, vel } => seq![Directive::Note(false, key, vel)],
        _ => Seq::empty(),
    }
}

/// The notes of the events from index `from` up to `to`, in order.
pub open spec fn score_notes(events: Seq<TimedEvent>, from: int, to: int) -> Seq<Directive>
    decreases to - from,
{
    if to <= from {
        Seq::empty()
    } else {
        score_notes(events, from, to - 1) + note_directive(events[to - 1].event)
    }
}

proof fn lemma_score_notes_concat(events: Seq<TimedEvent>, a: int, b: int, c: int)
    requires
        a <= b <= c,
    ensures
        score_notes(events, a, b) + score_notes(events, b, c) == score_notes(events, a, c),
    decreases c - b,
{
    if c > b {
        lemma_score_notes_concat(events, a, b, c - 1);
        assert(score_notes(events, a, b) + score_notes(events, b, c)
            =~= score_notes(events, a, b) + score_notes(events, b, c - 1) + note_directive(events[c - 1].event));
    } else {
        assert(score_notes(events, a, b) + score_notes(events, b, c) =~= score_notes(events, a, b));
    }
}

proof fn lemma_notes_of_single(d: Directive)
    ensures
        notes_of(seq![d]) == if d is Note { seq![d] } else { Seq::<Directive>::empty() },
{
    assert(seq![d].drop_first() =~= Seq::<Directive>::empty());
    assert(notes_of(Seq::<Directive>::empty()) == Seq::<Directive>::empty());
    if d is Note {
        assert(notes_of(seq![d]) =~= seq![d]);
    } else {
        assert(notes_of(seq![d]) =~= Seq::<Directive>::empty());
    }
}

proof fn lemma_score_notes_one(events: Seq<TimedEvent>, p: int)
    ensures
        score_notes(events, p, p) == Seq::<Directive>::empty(),
        score_notes(events, p, p + 1) == note_directive(events[p].event),
{
    assert(score_notes(events, p, p) =~= Seq::<Directive>::empty());
    assert(score_notes(events, p, p + 1) == score_notes(events, p, p) + note_directive(events[p].event));
    assert(Seq::<Directive>::empty() + note_directive(events[p].event) =~= note_directive(events[p].event));
}

proof fn lemma_dispatch_notes(events: Seq<TimedEvent>, m: DriverState, state: ReadingState)
    requires
        0 <= m.pos,
    ensures
        ({
            let (m2, d) = dispatch(events, m, state);
            &&& m.pos <= m2.pos
            &&& notes_of(seq![d]) == score_notes(events, m.pos, m2.pos)
            &&& d == Directive::Finish ==> m2.pos >= events.len()
        }),
    decreases events.len() - m.pos, (if m.waited { 0int } else { 1int }),
{
    let (m2, d) = dispatch(events, m, state);
    lemma_notes_of_single(d);
    lemma_score_notes_one(events, m.pos);
    if m.pos >= events.len() {
    } else if !m.waited {
        let dur = m.clock.duration_spec(events[m.pos].delta);
        if dur == 0 {
            lemma_dispatch_notes(events, DriverState { waited: true, ..m }, state);
        }
    } else if !stopping(state) {
        let next = DriverState { pos: m.pos + 1, waited: false, ..m };
        match events[m.pos].event {
            ScoreEvent::Tempo(t) => {
                let n2 = DriverState { clock: clock_after(m.clock, ScoreEvent::Tempo(t)), ..next };
                lemma_dispatch_notes(events, n2, state);
                lemma_score_notes_concat(events, m.pos, m.pos + 1, m2.pos);
            },
            ScoreEvent::Other => {
                lemma_dispatch_notes(events, next, state);
                lemma_score_notes_concat(events, m.pos, m.pos + 1, m2.pos);
            },
            _ => {},
        }
    }
}

proof fn lemma_step_notes(events: Seq<TimedEvent>, m: DriverState, state: ReadingState, accepted: bool)
    requires
        0 <= m.pos,
    ensures
        ({
            let (m2, d) = step_spec(events, m, state, accepted);
            &&& m.pos <= m2.pos
            &&& notes_of(seq![d]) == score_notes(events, m.pos, m2.pos)
            &&& d == Directive::Finish ==> m2.pos >= events.len()
        }),
{
    let (m2, d) = step_spec(events, m, state, accepted);
    lemma_notes_of_single(d);
    lemma_score_notes_one(events, m.pos);
    if !(m.answer_due && !accepted) && !m.waiting {
        lemma_dispatch_notes(events, DriverState { answer_due: false, ..m }, state);
    }
}

proof fn lemma_notes_of_concat(a: Seq<Directive>, b: Seq<Directive>)
    ensures
        notes_of(a + b) == notes_of(a) + notes_of(b),
    decreases a.len(),
{
    if a.len() == 0 {
        assert(a + b =~= b);
        assert(notes_of(a) + notes_of(b) =~= notes_of(b));
    } else {
        lemma_notes_of_concat(a.drop_first(), b);
        assert((a + b).drop_first() =~= a.drop_first() + b);
        assert(notes_of(a + b) =~= notes_of(a) + notes_of(b));
    }
}

proof fn lemma_run_notes(events: Seq<TimedEvent>, m: DriverState, obs: Seq<(ReadingState, bool)>)
    requires
        0 <= m.pos,
    ensures
        ({
            let (m2, ds) = run(events, m, obs);
            &&& m.pos <= m2.pos
            &&& notes_of(ds) == score_notes(events, m.pos, m2.pos)
            &&& ds.len() > 0 && ds.last() == Directive::Finish ==> m2.pos >= events.len()
        }),
    decreases obs.len(),
{
    let (m2, ds) = run(events, m, obs);
    if obs.len() == 0 || m.done {
        assert(score_notes(events, m.pos, m.pos) =~= Seq::<Directive>::empty());
    } else {
        let (m1, d) = step_spec(events, m, obs[0].0, obs[0].1);
        lemma_step_notes(events, m, obs[0].0, obs[0].1);
        lemma_run_notes(events, m1, obs.drop_first());
        let (m3, rest) = run(events, m1, obs.drop_first());
        lemma_notes_of_concat(seq![d], rest);
        lemma_score_notes_concat(events, m.pos, m1.pos, m3.pos);
        if rest.len() == 0 {
            assert(run(events, m1, obs.drop_first()).0 == m1);
            assert(ds =~= seq![d]);
        } else {
            assert((seq![d] + rest).last() == rest.last());
        }
    }
}

/// Whatever pauses it goes through and however long its waits last, a run
/// hands the observer the notes of the score in score order: a run that
/// finishes hands over exactly all of them, and any run a prefix of them.
pub proof fn law_notes_follow_score(events: Seq<TimedEvent>, tpb: u16, obs: Seq<(ReadingState, bool)>)
    ensures
        ({
            let (m2, ds) = run(events, initial_state(tpb), obs);
            &&& notes_of(ds) == score_notes(events, 0, m2.pos)
            &&& notes_of(ds).len() <= score_notes(events, 0, events.len() as int).len()
            &&& score_notes(events, 0, events.len() as int).subrange(0, notes_of(ds).len() as int) == notes_of(ds)
            &&& ds.len() > 0 && ds.last() == Directive::Finish ==> notes_of(ds) == score_notes(events, 0, events.len() as int)
        }),
{
    lemma_run_notes(events, initial_state(tpb), obs);
    lemma_run_pos_bounded(events, initial_state(tpb), obs);
    let (m2, ds) = run(events, initial_state(tpb), obs);
    lemma_score_notes_concat(events, 0, m2.pos, events.len() as int);
    let all = score_notes(events, 0, events.len() as int);
    assert(all.subrange(0, notes_of(ds).len() as int) =~= notes_of(ds));
}

proof fn lemma_run_pos_bounded(events: Seq<TimedEvent>, m: DriverState, obs: Seq<(ReadingState, bool)>)
    requires
        0 <= m.pos <= events.len(),
    ensures
        run(events, m, obs).0.pos <= events.len(),
    decreases obs.len(),
{
    if obs.len() > 0 && !m.done {
        let (m1, d) = step_spec(events, m, obs[0].0, obs[0].1);
        lemma_step_pos_bounded(events, m, obs[0].0, obs[0].1);
        lemma_step_notes(events, m, obs[0].0, obs[0].1);
        lemma_run_pos_bounded(events, m1, obs.drop_first());
    }
}

proof fn lemma_step_pos_bounded(events: Seq<TimedEvent>, m: DriverState, state: ReadingState, accepted: bool)
    requires
        0 <= m.pos <= events.len(),
    ensures
        step_spec(events, m, state, accepted).0.pos <= events.len(),
{
    if !(m.answer_due && !accepted) && !m.waiting {
        lemma_dispatch_pos_bounded(events, DriverState { answer_due: false, ..m }, state);
    }
}

proof fn lemma_dispatch_pos_bounded(events: Seq<TimedEvent>, m: DriverState, state: ReadingState)
    requires
        0 <= m.pos <= events.len(),
    ensures
        dispatch(events, m, state).0.pos <= events.len(),
    decreases events.len() - m.pos, (if m.waited { 0int } else { 1int }),
{
    if m.pos < events.len() {
        if !m.waited {
            let dur = m.clock.duration_spec(events[m.pos].delta);
            if dur == 0 {
                lemma_dispatch_pos_bounded(events, DriverState { waited: true, ..m }, state);
            }
        } else if !stopping(state) {
            let next = DriverState { pos: m.pos + 1, waited: false, ..m };
            match events[m.pos].event {
                ScoreEvent::Tempo(t) => lemma_dispatch_pos_bounded(events, DriverState { clock: clock_after(m.clock, ScoreEvent::Tempo(t)), ..next }, state),
                ScoreEvent::Other => lemma_dispatch_pos_bounded(events, next, state),
                _ => {},
            }
        }
    }
}

/// The bookkeeping of time played: everything before the next event, plus
/// what has been played of the wait before it.
pub open spec fn time_kept(events: Seq<TimedEvent>, tpb: u16, m: DriverState) -> bool {
    let (played, clock) = length_upto(tpb, events, m.pos);
    &&& 0 <= m.pos <= events.len()
    &&& m.clock == clock
    &&& if m.waiting {
        let d = clock.duration_spec(events[m.pos].delta);
        &&& m.pos < events.len()
        &&& !m.waited
        &&& 0 < m.remaining <= d
        &&& m.elapsed == sat_add(played, (d - m.remaining) as u64)
    } else if m.waited {
        &&& m.pos < events.len()
        &&& m.elapsed == sat_add(played, clock.duration_spec(events[m.pos].delta))
    } else {
        m.elapsed == played
    }
}

proof fn lemma_sat_add_assoc(a: u64, b: u64, c: u64)
    requires
        b + c <= u64::MAX,
    ensures
        sat_add(sat_add(a, b), c) == sat_add(a, (b + c) as u64),
{
}

proof fn lemma_poll_time(events: Seq<TimedEvent>, tpb: u16, m: DriverState, state: ReadingState)
    requires
        time_kept(events, tpb, m),
        m.waiting,
    ensures
        ({
            let (m2, d) = poll(m, state);
            &&& !m2.done ==> time_kept(events, tpb, m2)
            &&& d != Directive::Finish
        }),
{
    let (played, clock) = length_upto(tpb, events, m.pos);
    let d = clock.duration_spec(events[m.pos].delta);
    if !stopping(state) && state != ReadingState::Paused {
        let chunk = if m.remaining < PAUSE_CHECK_MICROS { m.remaining } else { PAUSE_CHECK_MICROS };
        lemma_sat_add_assoc(played, (d - m.remaining) as u64, chunk);
    }
}

proof fn lemma_dispatch_time(events: Seq<TimedEvent>, tpb: u16, m: DriverState, state: ReadingState)
    requires
        time_kept(events, tpb, m),
        !m.waiting,
    ensures
        ({
            let (m2, d) = dispatch(events, m, state);
            &&& !m2.done ==> time_kept(events, tpb, m2)
            &&& d == Directive::Finish ==> m2.elapsed == length_upto(tpb, events, events.len() as int).0
        }),
    decreases events.len() - m.pos, (if m.waited { 0int } else { 1int }),
{
    let (played, clock) = length_upto(tpb, events, m.pos);
    if m.pos < 0 || m.pos >= events.len() {
    } else if !m.waited {
        let d = m.clock.duration_spec(events[m.pos].delta);
        if d == 0 {
            lemma_dispatch_time(events, tpb, DriverState { waited: true, ..m }, state);
        } else {
            lemma_poll_time(events, tpb, DriverState { waiting: true, remaining: d, notified: false, ..m }, state);
        }
    } else if !stopping(state) {
        let next = DriverState { pos: m.pos + 1, waited: false, ..m };
        assert(length_upto(tpb, events, m.pos + 1) == (
            sat_add(played, clock.duration_spec(events[m.pos].delta)),
            clock_after(clock, events[m.pos].event),
        ));
        match events[m.pos].event {
            ScoreEvent::Tempo(t) => lemma_dispatch_time(events, tpb, DriverState { clock: clock_after(m.clock, ScoreEvent::Tempo(t)), ..next }, state),
            ScoreEvent::Other => lemma_dispatch_time(events, tpb, next, state),
            _ => {},
        }
    }
}

proof fn lemma_run_time(events: Seq<TimedEvent>, tpb: u16, m: DriverState, obs: Seq<(ReadingState, bool)>)
    requires
        !m.done ==> time_kept(events, tpb, m),
    ensures
        ({
            let (m2, ds) = run(events, m, obs);
            ds.len() > 0 && ds.last() == Directive::Finish ==> m2.elapsed == length_upto(tpb, events, events.len() as int).0
        }),
    decreases obs.len(),
{
    if obs.len() > 0 && !m.done {
        let m1 = DriverState { answer_due: false, ..m };
        if !(m.answer_due && !obs[0].1) {
            if m1.waiting {
                lemma_poll_time(events, tpb, m1, obs[0].0);
            } else {
                lemma_dispatch_time(events, tpb, m1, obs[0].0);
            }
        }
        let (m1s, d) = step_spec(events, m, obs[0].0, obs[0].1);
        lemma_run_time(events, tpb, m1s, obs.drop_first());
        let (m2, ds) = run(events, m1s, obs.drop_first());
        if ds.len() == 0 {
            assert(run(events, m1s, obs.drop_first()).0 == m1s);
        } else {
            assert((seq![d] + ds).last() == ds.last());
        }
    }
}

/// A run that finishes the score has played exactly as long as the dry run
/// of the score says, whatever pauses it went through.
pub proof fn law_finished_run_matches_length(score: Score, obs: Seq<(ReadingState, bool)>)
    ensures
        ({
            let (m2, ds) = run(score.events@, initial_state(score.ticks_per_beat), obs);
            ds.len() > 0 && ds.last() == Directive::Finish ==> m2.elapsed == score.length_spec()
        }),
{
    lemma_run_time(score.events@, score.ticks_per_beat, initial_state(score.ticks_per_beat), obs);
}

/// Observations of a run that nobody disturbs: playing, every note accepted.
pub open spec fn undisturbed(n: nat) -> Seq<(ReadingState, bool)> {
    Seq::new(n, |i: int| (ReadingState::Playing, true))
}

/// Where the player stands before the next event: waiting (1), past the
/// wait (0), or before it (2).
pub open spec fn phase_rank(m: DriverState) -> int {
    if m.waiting { 1 } else if m.waited { 0 } else { 2 }
}

/// `m2` is further along than `m`: a later event, or the same event with
/// less of its wait ahead.
pub open spec fn progressed(m: DriverState, m2: DriverState) -> bool {
    ||| m2.pos > m.pos
    ||| m2.pos == m.pos && phase_rank(m2) < phase_rank(m)
    ||| m2.pos == m.pos && phase_rank(m2) == phase_rank(m) && m2.remaining < m.remaining
}

/// An action that ends the session.
pub open spec fn ends_session(d: Directive) -> bool {
    d is Finish || d is Interrupt
}

proof fn lemma_dispatch_undisturbed(events: Seq<TimedEvent>, m: DriverState)
    requires
        model_wf(events, m),
        !m.waiting,
        !m.answer_due,
        !m.done,
    ensures
        ({
            let (m2, d) = dispatch(events, m, ReadingState::Playing);
            ||| d == Directive::Finish && m2.done
            ||| !m2.done && !ends_session(d) && progressed(m, m2) && model_wf(events, m2)
        }),
    decreases events.len() - m.pos, (if m.waited { 0int } else { 1int }),
{
    let state = ReadingState::Playing;
    if m.pos < 0 || m.pos >= events.len() {
    } else if !m.waited {
        let d = m.clock.duration_spec(events[m.pos].delta);
        if d == 0 {
            lemma_dispatch_undisturbed(events, DriverState { waited: true, ..m });
        }
    } else {
        let next = DriverState { pos: m.pos + 1, waited: false, ..m };
        match events[m.pos].event {
            ScoreEvent::Tempo(t) => lemma_dispatch_undisturbed(events, DriverState { clock: clock_after(m.clock, ScoreEvent::Tempo(t)), ..next }),
            ScoreEvent::Other => lemma_dispatch_undisturbed(events, next),
            _ => {},
        }
    }
}

proof fn lemma_step_undisturbed(events: Seq<TimedEvent>, m: DriverState)
    requires
        model_wf(events, m),
        !m.done,
    ensures
        ({
            let (m2, d) = step_spec(events, m, ReadingState::Playing, true);
            ||| d == Directive::Finish && m2.done
            ||| !m2.done && !ends_session(d) && progressed(m, m2) && model_wf(events, m2)
        }),
{
    let m1 = DriverState { answer_due: false, ..m };
    if !m1.waiting {
        lemma_dispatch_undisturbed(events, m1);
    }
}

proof fn lemma_undisturbed_finishes(events: Seq<TimedEvent>, m: DriverState)
    requires
        model_wf(events, m),
        !m.done,
    ensures
        exists|n: nat| #[trigger] run(events, m, undisturbed(n)).1.len() > 0
            && run(events, m, undisturbed(n)).1.last() == Directive::Finish,
    decreases events.len() - m.pos, phase_rank(m), m.remaining,
{
    let (m1, d) = step_spec(events, m, ReadingState::Playing, true);
    lemma_step_undisturbed(events, m);
    if d == Directive::Finish {
        let obs = undisturbed(1);
        assert(obs[0] == (ReadingState::Playing, true));
        assert(run(events, m1, obs.drop_first()).1 =~= Seq::<Directive>::empty());
        assert(run(events, m, obs).1 =~= seq![d]);
        assert(run(events, m, undisturbed(1)).1.last() == Directive::Finish);
    } else {
        lemma_undisturbed_finishes(events, m1);
        let n1 = choose|n: nat| #[trigger] run(events, m1, undisturbed(n)).1.len() > 0
            && run(events, m1, undisturbed(n)).1.last() == Directive::Finish;
        let obs = undisturbed(n1 + 1);
        assert(obs[0] == (ReadingState::Playing, true));
        assert(obs.drop_first() =~= undisturbed(n1));
        let rest = run(events, m1, undisturbed(n1)).1;
        assert(run(events, m, obs).1 == seq![d] + rest);
        assert((seq![d] + rest).last() == rest.last());
        assert(run(events, m, undisturbed((n1 + 1) as nat)).1.len() > 0);
    }
}

/// With nobody pausing or stopping it and every note accepted, playback
/// reaches the end of the score and hands the observer exactly the score's
/// notes, in order: every such run does the same.
pub proof fn law_undisturbed_run_finishes(events: Seq<TimedEvent>, tpb: u16)
    ensures
        exists|n: nat| {
            let ds = #[trigger] run(events, initial_state(tpb), undisturbed(n)).1;
            &&& ds.len() > 0
            &&& ds.last() == Directive::Finish
            &&& notes_of(ds) == score_notes(events, 0, events.len() as int)
        },
{
    assert(silent().len() == KEY_SLOTS);
    lemma_undisturbed_finishes(events, initial_state(tpb));
    let n = choose|n: nat| #[trigger] run(events, initial_state(tpb), undisturbed(n)).1.len() > 0
        && run(events, initial_state(tpb), undisturbed(n)).1.last() == Directive::Finish;
    law_notes_follow_score(events, tpb, undisturbed(n));
}

proof fn lemma_dispatch_end(events: Seq<TimedEvent>, m: DriverState, state: ReadingState)
    ensures
        ({
            let (m2, d) = dispatch(events, m, state);
            ends_session(d) ==> m2.done && m2.sounding == silent()
        }),
    decreases events.len() - m.pos, (if m.waited { 0int } else { 1int }),
{
    if m.pos < 0 || m.pos >= events.len() {
    } else if !m.waited {
        let d = m.clock.duration_spec(events[m.pos].delta);
        if d == 0 {
            lemma_dispatch_end(events, DriverState { waited: true, ..m }, state);
        }
    } else if !stopping(state) {
        let next = DriverState { pos: m.pos + 1, waited: false, ..m };
        match events[m.pos].event {
            ScoreEvent::Tempo(t) => lemma_dispatch_end(events, DriverState { clock: clock_after(m.clock, ScoreEvent::Tempo(t)), ..next }, state),
            ScoreEvent::Other => lemma_dispatch_end(events, next, state),
            _ => {},
        }
    }
}

/// However a session ends, finished or interrupted, it ends with no key
/// sounding.
pub proof fn law_session_ends_silent(events: Seq<TimedEvent>, m: DriverState, state: ReadingState, accepted: bool)
    ensures
        ({
            let (m2, d) = step_spec(events, m, state, accepted);
            ends_session(d) ==> m2.done && m2.sounding == silent()
        }),
{
    lemma_dispatch_end(events, DriverState { answer_due: false, ..m }, state);
}

/// During a wait, the observer hears of a pause exactly when a paused state
/// is seen and it has not yet heard of this pause; a playing state ends the
/// pause, so the next one is announced again.
pub proof fn law_pause_notice_per_episode(events: Seq<TimedEvent>, m: DriverState, state: ReadingState, accepted: bool)
    requires
        m.waiting,
        !m.answer_due,
    ensures
        ({
            let (m2, d) = step_spec(events, m, state, accepted);
            &&& d is NotifyPause <==> (state == ReadingState::Paused && !m.notified)
            &&& !stopping(state) ==> m2.notified == (state == ReadingState::Paused)
        }),
{
}

} // verus!
