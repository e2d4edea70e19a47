//! Statistics of one game: how the presses fell and how the player breathed.
use vstd::prelude::*;

use crate::payloads::OnNotePrecision;

verus! {

/// How many recent strengths are remembered while a breath lasts.
pub const BUFFER_SIZE: usize = 3;

/// Relies on `SystemTime::now`: microseconds since the Unix epoch, or zero
/// for a clock set before it. Nothing is promised of the clock.
#[verifier::external_body]
fn micros_since_epoch() -> (r: u64) {
    match std::time::SystemTime::now().duration_since(std::time::UNIX_EPOCH) {
        Ok(d) => d.as_micros() as u64,
        Err(_) => 0,
    }
}

/// Sum of a sequence of bytes.
pub open spec fn byte_sum(s: Seq<u8>) -> nat
    decreases s.len(),
{
    if s.len() == 0 { 0 } else { byte_sum(s.drop_last()) + s.last() as nat }
}

/// The running average after a breath of mean `avg`.
pub open spec fn next_average(old_avg: i32, avg: int) -> int {
    if old_avg > 0 { (old_avg + avg) / 2 } else { avg }
}

/// `b` is `a` after the breath signal `strength` (`state` false or zero
/// strength: the breath ends) arrived at time `now`; press counts are kept.
pub open spec fn breath_step(a: MonitoringData, b: MonitoringData, strength: u8, state: bool, now: u64) -> bool {
    let buf = a.breath_strength_buffer@;
    let cur = a.current_breath_strengths@;
    &&& b.total_great_scores == a.total_great_scores && b.total_ok_scores == a.total_ok_scores
    &&& b.total_close_scores == a.total_close_scores && b.total_misses == a.total_misses
    &&& b.total_early_misses == a.total_early_misses
    &&& if strength == 0 || !state {
        if buf.len() == 0 {
            &&& b.breath_strength_buffer@ == buf
            &&& b.current_breath_strengths@ == cur
            &&& b.average_strength == a.average_strength
            &&& b.total_breath_time == a.total_breath_time
            &&& b.highest_breath_time == a.highest_breath_time
            &&& b.breath_start_time == a.breath_start_time
        } else {
            let t = if now >= a.breath_start_time { (now - a.breath_start_time) as u64 } else { 0u64 };
            &&& b.total_breath_time == a.total_breath_time.saturating_add(t)
            &&& b.highest_breath_time == if a.highest_breath_time < t { t } else { a.highest_breath_time }
            &&& b.breath_start_time == 0
            &&& b.breath_strength_buffer@.len() == 0
            &&& b.current_breath_strengths@.len() == 0
            &&& b.average_strength == if cur.len() > 0 {
                next_average(a.average_strength, byte_sum(cur) as int / cur.len() as int)
            } else {
                a.average_strength as int
            }
        }
    } else {
        &&& b.average_strength == a.average_strength
        &&& b.total_breath_time == a.total_breath_time
        &&& b.highest_breath_time == a.highest_breath_time
        &&& if buf.len() == 0 {
            &&& b.breath_start_time == now
            &&& b.current_breath_strengths@ == cur.push(strength)
            &&& b.breath_strength_buffer@ == seq![strength]
        } else {
            &&& b.breath_start_time == a.breath_start_time
            &&& b.current_breath_strengths@ == if buf.contains(strength) { cur } else { cur.push(strength) }
            &&& b.breath_strength_buffer@ == if buf.len() >= BUFFER_SIZE { buf.drop_first().push(strength) } else { buf.push(strength) }
        }
    }
}

/// `b` is `a` after a press that fell at `precision`: its counter rises by
/// one (both kinds of miss count as early misses), stopping at the largest
/// value, and nothing else changes.
pub open spec fn note_step(a: MonitoringData, b: MonitoringData, precision: OnNotePrecision) -> bool {
    &&& b.total_great_scores == if precision == OnNotePrecision::Middle {
        a.total_great_scores.saturating_add(1) } else { a.total_great_scores }
    &&& b.total_ok_scores == if precision == OnNotePrecision::Left {
        a.total_ok_scores.saturating_add(1) } else { a.total_ok_scores }
    &&& b.total_close_scores == if precision == OnNotePrecision::Right {
        a.total_close_scores.saturating_add(1) } else { a.total_close_scores }
    &&& b.total_early_misses == if precision == OnNotePrecision::Miss || precision == OnNotePrecision::EarlyMiss {
        a.total_early_misses.saturating_add(1) } else { a.total_early_misses }
    &&& b.total_misses == a.total_misses
    &&& b.highest_breath_time == a.highest_breath_time
    &&& b.total_breath_time == a.total_breath_time
    &&& b.breath_start_time == a.breath_start_time
    &&& b.average_strength == a.average_strength
    &&& b.breath_strength_buffer@ == a.breath_strength_buffer@
    &&& b.current_breath_strengths@ == a.current_breath_strengths@
}

/// Statistics of a game that has not started: all counts and times zero,
/// no breath under way.
pub open spec fn is_fresh(d: MonitoringData) -> bool {
    &&& d.total_great_scores == 0 && d.total_ok_scores == 0 && d.total_close_scores == 0
    &&& d.total_misses == 0 && d.total_early_misses == 0
    &&& d.highest_breath_time == 0 && d.total_breath_time == 0 && d.breath_start_time == 0
    &&& d.average_strength == 0
    &&& d.breath_strength_buffer@.len() == 0
    &&& d.current_breath_strengths@.len() == 0
}

/// Times are in microseconds.
#[derive(Clone, Debug)]
pub struct MonitoringData {
    pub highest_breath_time: u64,
    pub total_breath_time: u64,
    pub total_great_scores: u32,
    pub total_ok_scores: u32,
    pub total_close_scores: u32,
    pub total_misses: u32,
    pub total_early_misses: u32,
    pub average_strength: i32,
    pub breath_strength_buffer: Vec<u8>,
    pub current_breath_strengths: Vec<u8>,
    pub breath_start_time: u64,
}

impl MonitoringData {
    pub fn new() -> (r: MonitoringData)
        ensures
            is_fresh(r),
    {
        MonitoringData {
            highest_breath_time: 0,
            total_breath_time: 0,
            total_great_scores: 0,
            total_ok_scores: 0,
            total_close_scores: 0,
            total_misses: 0,
            total_early_misses: 0,
            average_strength: 0,
            breath_strength_buffer: Vec::new(),
            current_breath_strengths: Vec::new(),
            breath_start_time: 0,
        }
    }

    /// Counts a press by where it fell; both kinds of miss count as early
    /// misses. Counters stop at their largest value.
    pub fn receive_note(&mut self, precision: OnNotePrecision)
        ensures
            note_step(*old(self), *final(self), precision),
    {
        match precision {
            OnNotePrecision::Middle => self.total_great_scores = self.total_great_scores.saturating_add(1),
            OnNotePrecision::Left => self.total_ok_scores = self.total_ok_scores.saturating_add(1),
            OnNotePrecision::Right => self.total_close_scores = self.total_close_scores.saturating_add(1),
            OnNotePrecision::Miss | OnNotePrecision::EarlyMiss => {
                self.total_early_misses = self.total_early_misses.saturating_add(1)
            },
        }
    }

    /// Takes the strength of the last breath signal at time `now`. A zero
    /// strength, or `state` false, ends the breath under way (if any): its
    /// time is counted and the mean of its distinct strengths joins the
    /// running average. Otherwise the strength joins the breath, starting one
    /// if none is under way.
    pub fn receive_breath_data_at(&mut self, strength_byte: u8, state: bool, now: u64)
        requires
            old(self).breath_strength_buffer@.len() <= BUFFER_SIZE,
        ensures
            final(self).breath_strength_buffer@.len() <= BUFFER_SIZE,
            breath_step(*old(self), *final(self), strength_byte, state, now),
    {
        if strength_byte == 0 || !state {
            if self.breath_strength_buffer.len() == 0 {
                return;
            }
            let breath_time = now.saturating_sub(self.breath_start_time);
            if self.highest_breath_time < breath_time {
                self.highest_breath_time = breath_time;
            }
            self.total_breath_time = self.total_breath_time.saturating_add(breath_time);
            self.breath_start_time = 0;
            let n = self.current_breath_strengths.len();
            if n > 0 {
                let mut sum: u128 = 0;
                let mut i: usize = 0;
                while i < n
                    invariant
                        n == self.current_breath_strengths@.len(),
                        i <= n,
                        sum == byte_sum(self.current_breath_strengths@.take(i as int)),
                        sum <= 255 * i,
                    decreases n - i,
                {
                    assert(self.current_breath_strengths@.take(i as int + 1).drop_last()
                        =~= self.current_breath_strengths@.take(i as int));
                    sum = sum + self.current_breath_strengths[i] as u128;
                    i = i + 1;
                }
                assert(self.current_breath_strengths@.take(n as int) =~= self.current_breath_strengths@);
                let avg = sum / (n as u128);
                assert(avg <= 255) by (nonlinear_arith)
                    requires avg == sum / (n as u128), sum <= 255 * n, n > 0;
                let a = avg as i32;
                self.average_strength = if self.average_strength > 0 {
                    ((self.average_strength as i64 + a as i64) / 2) as i32
                } else {
                    a
                };
            }
            self.breath_strength_buffer = Vec::new();
            self.current_breath_strengths = Vec::new();
            return;
        }
        let buffer_len = self.breath_strength_buffer.len();
        if buffer_len == 0 {
            self.breath_start_time = now;
            self.current_breath_strengths.push(strength_byte);
        } else {
            let mut seen = false;
            let mut i: usize = 0;
            while i < buffer_len
                invariant
                    buffer_len == self.breath_strength_buffer@.len(),
                    i <= buffer_len,
                    seen <==> exists|k: int| 0 <= k < i && self.breath_strength_buffer@[k] == strength_byte,
                decreases buffer_len - i,
            {
                if self.breath_strength_buffer[i] == strength_byte {
                    seen = true;
                }
                i = i + 1;
            }
            if !seen {
                self.current_breath_strengths.push(strength_byte);
            }
            if buffer_len >= BUFFER_SIZE {
                self.breath_strength_buffer.remove(0);
            }
        }
        self.breath_strength_buffer.push(strength_byte);
        proof {
            if buffer_len == 0 {
                assert(self.breath_strength_buffer@ =~= seq![strength_byte]);
            }
        }
    }
}

/// The statistics of the game under way, if one has sent anything yet.
pub struct MonitoringState {
    pub data: Option<MonitoringData>,
}

impl MonitoringState {
    pub fn new() -> (r: MonitoringState)
        ensures
            r.data is None,
    {
        MonitoringState { data: None }
    }

    /// The statistics, taken out; started afresh when there are none.
    fn take_data(&mut self) -> (r: MonitoringData)
        ensures
            old(self).data matches Some(d) ==> r == d,
            old(self).data is None ==> is_fresh(r),
    {
        match self.data.take() {
            Some(d) => d,
            None => MonitoringData::new(),
        }
    }

    /// Takes a breath signal received now.
    pub fn receive_breath_data(&mut self, strength_byte: u8, state: bool)
        requires
            old(self).data matches Some(d) ==> d.breath_strength_buffer@.len() <= BUFFER_SIZE,
        ensures
            final(self).data matches Some(d) && d.breath_strength_buffer@.len() <= BUFFER_SIZE,
            old(self).data matches Some(d) ==> exists|now: u64| #[trigger] breath_step(d, final(self).data->0, strength_byte, state, now),
            old(self).data is None ==> exists|f: MonitoringData, now: u64| is_fresh(f)
                && #[trigger] breath_step(f, final(self).data->0, strength_byte, state, now),
    {
        let now = micros_since_epoch();
        let mut d = self.take_data();
        let ghost first = d;
        d.receive_breath_data_at(strength_byte, state, now);
        self.data = Some(d);
        assert(breath_step(first, self.data->0, strength_byte, state, now));
    }

    /// Counts a press.
    pub fn receive_score(&mut self, precision: OnNotePrecision)
        ensures
            final(self).data is Some,
            old(self).data matches Some(d) ==> note_step(d, final(self).data->0, precision),
            old(self).data is None ==> exists|f: MonitoringData| is_fresh(f) && #[trigger] note_step(f, final(self).data->0, precision),
    {
        let mut d = self.take_data();
        let ghost first = d;
        d.receive_note(precision);
        self.data = Some(d);
        assert(note_step(first, self.data->0, precision));
    }

    /// Forgets the statistics.
    pub fn reset(&mut self)
        ensures
            final(self).data is None,
    {
        self.data = None;
    }
}

} // verus!
