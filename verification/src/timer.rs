//! The timer state machine.
//!
//! [`App`] holds an ordered, non-empty list of [`Slot`]s and a playhead. All
//! commands and queries take the current wall-clock time as a millisecond
//! timestamp, so the machine itself is pure: a driving loop reads the clock,
//! calls [`App::update`] on a fixed cadence, forwards key commands, and asks
//! the queries for the figures to render.
//!
//! Elapsed time for the current slot is measured from an anchor timestamp,
//! `slot_start_time`. While paused the elapsed time is frozen in
//! `time_elapsed_when_paused`; resuming moves the anchor so that counting
//! continues exactly from the frozen value. An absent anchor on the last slot
//! is the terminal "finished" state. All subtraction saturates at zero, so
//! every command and query is total.

use vstd::prelude::*;

verus! {

/// One named segment of the schedule, with its duration in whole minutes.
#[derive(Debug, Clone)]
pub struct Slot {
    pub name: String,
    pub duration_minutes: u64,
}

/// The duration of a slot in milliseconds.
pub open spec fn spec_duration_ms(s: Slot) -> int {
    s.duration_minutes * 60000
}

/// The sum, in milliseconds, of the durations of `slots[from ..]`.
pub open spec fn spec_total_ms(slots: Seq<Slot>, from: int) -> int
    decreases slots.len() - from,
{
    if 0 <= from < slots.len() {
        spec_duration_ms(slots[from]) + spec_total_ms(slots, from + 1)
    } else {
        0
    }
}

/// Every suffix sum of slot durations is non-negative.
pub proof fn lemma_total_ms_nonneg(slots: Seq<Slot>, from: int)
    ensures
        spec_total_ms(slots, from) >= 0,
    decreases slots.len() - from,
{
    if 0 <= from < slots.len() {
        lemma_total_ms_nonneg(slots, from + 1);
    }
}

/// Suffix sums of slot durations shrink as the suffix shrinks.
pub proof fn lemma_total_ms_suffix_le(slots: Seq<Slot>, i: int, j: int)
    requires
        0 <= i <= j,
    ensures
        spec_total_ms(slots, j) <= spec_total_ms(slots, i),
    decreases j - i,
{
    if i < j {
        lemma_total_ms_suffix_le(slots, i + 1, j);
        if i < slots.len() {
            lemma_total_ms_nonneg(slots, i + 1);
        }
    }
}

/// Each slot's duration is bounded by the suffix sum that starts at it.
pub proof fn lemma_duration_le_total_ms(slots: Seq<Slot>, i: int)
    requires
        0 <= i < slots.len(),
    ensures
        spec_duration_ms(slots[i]) <= spec_total_ms(slots, 0),
{
    lemma_total_ms_nonneg(slots, i + 1);
    lemma_total_ms_suffix_le(slots, 0, i);
}

impl Slot {
    /// The slot's duration in milliseconds.
    pub fn duration(&self) -> (d: u64)
        requires
            spec_duration_ms(*self) <= u64::MAX,
        ensures
            d == spec_duration_ms(*self),
    {
        self.duration_minutes * 60000
    }
}

/// `a - b`, saturating at zero.
pub open spec fn sat_sub(a: int, b: int) -> int {
    if a >= b {
        a - b
    } else {
        0
    }
}

/// The timer state machine: the slot list and the playhead.
#[verifier::ext_equal]
pub struct App {
    /// The schedule; fixed after construction, at least one slot.
    pub slots: Vec<Slot>,
    /// Index of the slot the playhead is on; always within the list.
    pub current_slot_index: usize,
    /// Timestamp (ms) from which the current slot's elapsed time is counted.
    /// `None` only in the terminal finished state, on the last slot.
    pub slot_start_time: Option<u64>,
    /// Whether the clock is paused.
    pub paused: bool,
    /// Set by the driving loop when the user asks to quit.
    pub should_quit: bool,
    /// The elapsed time (ms) captured when pause began; meaningful only
    /// while `paused`.
    pub time_elapsed_when_paused: u64,
}

impl App {
    /// Well-formedness: the invariant every command preserves.
    pub open spec fn wf(self) -> bool {
        &&& self.slots.len() >= 1
        &&& self.current_slot_index < self.slots.len()
        &&& spec_total_ms(self.slots@, 0) <= u64::MAX
        &&& (self.slot_start_time is None ==> self.current_slot_index == self.slots.len() - 1)
    }

    /// The terminal state: on the last slot with no running clock.
    pub open spec fn spec_is_finished(self) -> bool {
        self.current_slot_index >= self.slots.len() - 1 && self.slot_start_time is None
    }

    /// Elapsed time (ms) on the current slot at wall-clock time `now`:
    /// the frozen value while paused, `now - anchor` (saturating) while
    /// running, zero when finished.
    pub open spec fn spec_elapsed(self, now: int) -> int {
        if self.paused {
            self.time_elapsed_when_paused as int
        } else if self.slot_start_time is Some {
            sat_sub(now, self.slot_start_time.unwrap() as int)
        } else {
            0
        }
    }

    /// Remaining time (ms) on the current slot at time `now`; zero when
    /// finished.
    pub open spec fn spec_slot_remaining(self, now: int) -> int {
        if self.spec_is_finished() {
            0
        } else {
            sat_sub(
                spec_duration_ms(self.slots@[self.current_slot_index as int]),
                self.spec_elapsed(now),
            )
        }
    }

    /// Remaining time (ms) over the whole schedule at time `now`: what is
    /// left of the current slot plus the full durations of the slots after
    /// it; zero when finished.
    pub open spec fn spec_total_remaining(self, now: int) -> int {
        if self.spec_is_finished() {
            0
        } else {
            self.spec_slot_remaining(now) + spec_total_ms(
                self.slots@,
                self.current_slot_index + 1,
            )
        }
    }

    /// The state after a pause/resume toggle at time `now`: identity when
    /// finished; on pause-entry the elapsed time is frozen; on resume the
    /// anchor is moved to `now - frozen` so counting continues seamlessly.
    pub open spec fn spec_toggle_pause(self, now: u64) -> App {
        if self.spec_is_finished() {
            self
        } else if !self.paused {
            App {
                paused: true,
                time_elapsed_when_paused: if self.slot_start_time is Some {
                    sat_sub(now as int, self.slot_start_time.unwrap() as int) as u64
                } else {
                    self.time_elapsed_when_paused
                },
                ..self
            }
        } else {
            App {
                paused: false,
                slot_start_time: if self.slot_start_time is Some {
                    Some(sat_sub(now as int, self.time_elapsed_when_paused as int) as u64)
                } else {
                    self.slot_start_time
                },
                ..self
            }
        }
    }

    /// The state after restarting the current slot's clock at time `now`.
    pub open spec fn spec_reset_and_start(self, now: u64) -> App {
        App { paused: false, time_elapsed_when_paused: 0, slot_start_time: Some(now), ..self }
    }

    /// The state after a "next" command at time `now`: move to the following
    /// slot and restart its clock, or, already on the last slot, drop the
    /// anchor and finish.
    pub open spec fn spec_next_slot(self, now: u64) -> App {
        if self.current_slot_index < self.slots.len() - 1 {
            App {
                current_slot_index: (self.current_slot_index + 1) as usize,
                ..self
            }.spec_reset_and_start(now)
        } else {
            App { slot_start_time: None, ..self }
        }
    }

    /// The state after a "previous" command at time `now`: move to the
    /// preceding slot and restart its clock; identity at the first slot.
    pub open spec fn spec_previous_slot(self, now: u64) -> App {
        if self.current_slot_index > 0 {
            App {
                current_slot_index: (self.current_slot_index - 1) as usize,
                ..self
            }.spec_reset_and_start(now)
        } else {
            self
        }
    }

    /// The state after a periodic update at time `now`: identity while
    /// paused or finished; otherwise a "next" transition exactly when the
    /// elapsed time has reached the current slot's duration.
    pub open spec fn spec_update(self, now: u64) -> App {
        if self.paused || self.spec_is_finished() {
            self
        } else if self.spec_elapsed(now as int) >= spec_duration_ms(
            self.slots@[self.current_slot_index as int],
        ) {
            self.spec_next_slot(now)
        } else {
            self
        }
    }

    /// Build a timer over `slots`, starting the first slot's clock at `now_ms`.
    pub fn new(slots: Vec<Slot>, now_ms: u64) -> (app: App)
        requires
            slots@.len() >= 1,
            spec_total_ms(slots@, 0) <= u64::MAX,
        ensures
            app.wf(),
            app.slots == slots,
            app.current_slot_index == 0,
            app.slot_start_time == Some(now_ms),
            !app.paused,
            !app.should_quit,
            app.time_elapsed_when_paused == 0,
    {
        App {
            slots,
            current_slot_index: 0,
            slot_start_time: Some(now_ms),
            paused: false,
            should_quit: false,
            time_elapsed_when_paused: 0,
        }
    }

    /// Whether the timer has reached the terminal state.
    pub fn is_finished(&self) -> (f: bool)
        requires
            self.wf(),
        ensures
            f == self.spec_is_finished(),
    {
        self.current_slot_index >= self.slots.len() - 1 && self.slot_start_time.is_none()
    }

    /// Elapsed time (ms) on the current slot at wall-clock time `now_ms`.
    pub fn get_current_elapsed_time(&self, now_ms: u64) -> (e: u64)
        ensures
            e == self.spec_elapsed(now_ms as int),
    {
        if self.paused {
            self.time_elapsed_when_paused
        } else if let Some(start_time) = self.slot_start_time {
            if now_ms >= start_time {
                now_ms - start_time
            } else {
                0
            }
        } else {
            0
        }
    }

    /// Restart the current slot's clock at `now_ms`, unpaused.
    pub fn reset_and_start_slot(&mut self, now_ms: u64)
        requires
            old(self).slots.len() >= 1,
            old(self).current_slot_index < old(self).slots.len(),
            spec_total_ms(old(self).slots@, 0) <= u64::MAX,
        ensures
            *final(self) == old(self).spec_reset_and_start(now_ms),
            final(self).wf(),
    {
        self.paused = false;
        self.time_elapsed_when_paused = 0;
        self.slot_start_time = Some(now_ms);
        proof {
            assert(*self =~= old(self).spec_reset_and_start(now_ms));
        }
    }

    /// Toggle pause at time `now_ms`. No-op when finished. Pausing freezes
    /// the elapsed time; resuming moves the anchor so the elapsed time is
    /// continuous across the toggle.
    pub fn toggle_pause(&mut self, now_ms: u64)
        requires
            old(self).wf(),
        ensures
            *final(self) == old(self).spec_toggle_pause(now_ms),
            final(self).wf(),
    {
        if self.is_finished() {
            return ;
        }
        self.paused = !self.paused;
        if self.paused {
            if let Some(start_time) = self.slot_start_time {
                self.time_elapsed_when_paused = if now_ms >= start_time {
                    now_ms - start_time
                } else {
                    0
                };
            }
        } else {
            if self.slot_start_time.is_some() {
                self.slot_start_time = Some(
                    if now_ms >= self.time_elapsed_when_paused {
                        now_ms - self.time_elapsed_when_paused
                    } else {
                        0
                    },
                );
            }
        }
        proof {
            assert(*self =~= old(self).spec_toggle_pause(now_ms));
        }
    }

    /// Move to the next slot at time `now_ms`, or finish when already on the
    /// last slot. Once finished, further calls change nothing.
    pub fn next_slot(&mut self, now_ms: u64)
        requires
            old(self).wf(),
        ensures
            *final(self) == old(self).spec_next_slot(now_ms),
            final(self).wf(),
            old(self).current_slot_index == old(self).slots.len() - 1
                ==> final(self).spec_is_finished(),
            old(self).spec_is_finished() ==> *final(self) == *old(self),
    {
        if self.current_slot_index < self.slots.len() - 1 {
            self.current_slot_index += 1;
            self.reset_and_start_slot(now_ms);
        } else {
            self.slot_start_time = None;
        }
        proof {
            assert(*self =~= old(self).spec_next_slot(now_ms));
            if old(self).spec_is_finished() {
                assert(*self =~= *old(self));
            }
        }
    }

    /// Move to the previous slot at time `now_ms`; no-op at the first slot.
    /// From the finished state this restarts the second-to-last slot: the
    /// intended recovery path out of the terminal state.
    pub fn previous_slot(&mut self, now_ms: u64)
        requires
            old(self).wf(),
        ensures
            *final(self) == old(self).spec_previous_slot(now_ms),
            final(self).wf(),
            old(self).current_slot_index == 0 ==> *final(self) == *old(self),
    {
        if self.current_slot_index > 0 {
            self.current_slot_index -= 1;
            self.reset_and_start_slot(now_ms);
        }
        proof {
            assert(*self =~= old(self).spec_previous_slot(now_ms));
        }
    }

    /// Periodic update at time `now_ms`: while running, advance to the next
    /// slot as soon as the current slot's duration is used up.
    pub fn update(&mut self, now_ms: u64)
        requires
            old(self).wf(),
        ensures
            *final(self) == old(self).spec_update(now_ms),
            final(self).wf(),
    {
        if self.paused || self.is_finished() {
            return ;
        }
        let elapsed = self.get_current_elapsed_time(now_ms);
        proof {
            lemma_duration_le_total_ms(self.slots@, self.current_slot_index as int);
        }
        let current_slot_duration = self.slots[self.current_slot_index].duration();
        if elapsed >= current_slot_duration {
            self.next_slot(now_ms);
        }
    }

    /// Remaining time (ms) on the current slot at time `now_ms`; zero when
    /// finished.
    pub fn current_slot_remaining(&self, now_ms: u64) -> (r: u64)
        requires
            self.wf(),
        ensures
            r == self.spec_slot_remaining(now_ms as int),
    {
        if self.is_finished() {
            return 0;
        }
        let elapsed = self.get_current_elapsed_time(now_ms);
        proof {
            lemma_duration_le_total_ms(self.slots@, self.current_slot_index as int);
        }
        let duration = self.slots[self.current_slot_index].duration();
        if duration >= elapsed {
            duration - elapsed
        } else {
            0
        }
    }

    /// Remaining time (ms) over the whole schedule at time `now_ms`: the
    /// rest of the current slot plus the slots after it; zero when finished.
    pub fn total_time_remaining(&self, now_ms: u64) -> (r: u64)
        requires
            self.wf(),
        ensures
            r == self.spec_total_remaining(now_ms as int),
    {
        if self.is_finished() {
            return 0;
        }
        let current_slot_remaining = self.current_slot_remaining(now_ms);
        let mut total: u64 = current_slot_remaining;
        let mut i: usize = self.current_slot_index + 1;
        proof {
            lemma_duration_le_total_ms(self.slots@, self.current_slot_index as int);
            lemma_total_ms_suffix_le(self.slots@, 0, self.current_slot_index + 1);
        }
        while i < self.slots.len()
            invariant
                self.wf(),
                !self.spec_is_finished(),
                self.current_slot_index < i <= self.slots.len(),
                current_slot_remaining == self.spec_slot_remaining(now_ms as int),
                current_slot_remaining <= spec_duration_ms(
                    self.slots@[self.current_slot_index as int],
                ),
                total == current_slot_remaining + spec_total_ms(
                    self.slots@,
                    self.current_slot_index + 1,
                ) - spec_total_ms(self.slots@, i as int),
                spec_total_ms(self.slots@, i as int) <= u64::MAX,
            decreases self.slots.len() - i,
        {
            proof {
                lemma_duration_le_total_ms(self.slots@, i as int);
                lemma_total_ms_nonneg(self.slots@, i + 1);
                lemma_total_ms_nonneg(self.slots@, self.current_slot_index + 1);
                lemma_total_ms_suffix_le(self.slots@, self.current_slot_index + 1, i as int);
                lemma_total_ms_suffix_le(self.slots@, 0, self.current_slot_index as int);
            }
            let d = self.slots[i].duration();
            total = total + d;
            i += 1;
        }
        proof {
            lemma_total_ms_nonneg(self.slots@, i as int);
        }
        total
    }
}

/// A finished timer has nothing left: both the current slot's remaining time
/// and the total remaining time are zero.
pub proof fn lemma_finished_remaining_zero(s: App, now: int)
    requires
        s.spec_is_finished(),
    ensures
        s.spec_slot_remaining(now) == 0,
        s.spec_total_remaining(now) == 0,
{
}

/// Pause/resume round trip: toggling pause twice with no wall-clock time in
/// between leaves the elapsed time exactly as it was.
pub proof fn lemma_pause_resume_elapsed(s: App, now: u64)
    requires
        s.wf(),
        s.paused ==> s.time_elapsed_when_paused <= now,
    ensures
        s.spec_toggle_pause(now).spec_toggle_pause(now).spec_elapsed(now as int)
            == s.spec_elapsed(now as int),
{
}

/// While not paused, the elapsed time never decreases as the wall clock
/// advances.
pub proof fn lemma_elapsed_monotonic(s: App, now1: int, now2: int)
    requires
        !s.paused,
        now1 <= now2,
    ensures
        s.spec_elapsed(now1) <= s.spec_elapsed(now2),
{
}

/// At session start — playhead on the first slot, clock just anchored — the
/// total remaining time equals the sum of all slot durations.
pub proof fn lemma_total_remaining_at_start(s: App, now: u64)
    requires
        s.wf(),
        s.current_slot_index == 0,
        !s.paused,
        s.slot_start_time == Some(now),
    ensures
        s.spec_total_remaining(now as int) == spec_total_ms(s.slots@, 0),
{
}

} // verus!
