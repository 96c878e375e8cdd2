//! How a polling PTX follows the windows that its receiver advertises.
//!
//! Every ACK can carry a hint. A hint lets the PTX, as its policy says, skip
//! some slots, or lock its slots to the receiver's windows until it has missed
//! too many of them in a row.

use crate::mpsl_profile::{PtxScheduleGateConfig, PtxScheduleMode};
use crate::mpsl_schedule;
use crate::mpsl_schedule::{ScheduleHint, ScheduleTracker};
use crate::mpsl_timeslot;
use crate::mpsl_timeslot::TIMESLOT_DISTANCE_MAX_US;
use vstd::prelude::*;

verus! {

/// What has been counted of the schedule.
#[derive(Debug, Clone, Copy)]
pub struct PtxScheduleCounts {
    /// ACKs with a valid schedule hint.
    pub hint_count: u32,
    /// ACKs without one.
    pub hint_bad_count: u32,
    /// What the hints say of the receiver's windows.
    pub tracker: ScheduleTracker,
    /// Slots skipped by the schedule gate.
    pub skip_count: u32,
    /// Times the schedule was locked.
    pub lock_count: u32,
    /// Times the lock was lost.
    pub reacquire_count: u32,
}

/// How the schedule is followed.
#[derive(Debug, Clone, Copy)]
pub struct PtxSchedule {
    /// What has been counted.
    pub counts: PtxScheduleCounts,
    /// Window of the last hint.
    pub last_window_id: u32,
    /// Scheduling policy.
    pub gate: PtxScheduleGateConfig,
    /// Slots still to skip.
    pub skip_slots_remaining: u8,
    /// The slots are locked to the hints.
    pub lock_active: bool,
    /// Misses in a row while locked.
    pub lock_miss_streak: u8,
    /// Hinted period.
    pub period_us: u32,
    /// Distance of the next slot where it differs from the period.
    pub next_distance_us: u32,
}

/// Nothing counted.
pub open spec fn no_schedule_counts() -> PtxScheduleCounts {
    PtxScheduleCounts {
        hint_count: 0,
        hint_bad_count: 0,
        tracker: mpsl_schedule::new_tracker(),
        skip_count: 0,
        lock_count: 0,
        reacquire_count: 0,
    }
}

/// A schedule that has seen no hint yet.
pub open spec fn new_schedule(gate: PtxScheduleGateConfig) -> PtxSchedule {
    PtxSchedule {
        counts: no_schedule_counts(),
        last_window_id: 0,
        gate,
        skip_slots_remaining: 0,
        lock_active: false,
        lock_miss_streak: 0,
        period_us: 0,
        next_distance_us: 0,
    }
}

/// The larger of two numbers.
pub open spec fn larger(a: u32, b: u32) -> u32 {
    if a >= b {
        a
    } else {
        b
    }
}

impl PtxScheduleCounts {
    /// No count is at its limit.
    pub open spec fn has_room(self) -> bool {
        &&& self.hint_count < u32::MAX
        &&& self.hint_bad_count < u32::MAX
        &&& self.tracker.snapshot.has_room(0)
        &&& self.skip_count < u32::MAX
        &&& self.lock_count < u32::MAX
        &&& self.reacquire_count < u32::MAX - 1
    }

    /// Check that no count is at its limit.
    pub fn check_room(&self) -> (r: bool)
        ensures
            r == self.has_room(),
    {
        let s = self.tracker.snapshot;
        self.hint_count < u32::MAX && self.hint_bad_count < u32::MAX && s.valid_hint_count
            < u32::MAX && s.bad_hint_count < u32::MAX && s.repeat_count < u32::MAX && s.jump_count
            < u32::MAX && s.regress_count < u32::MAX && s.current_miss_streak < u32::MAX
            && self.skip_count < u32::MAX && self.lock_count < u32::MAX && self.reacquire_count
            < u32::MAX - 1
    }

    /// Nothing counted.
    pub fn zero() -> (c: Self)
        ensures
            c == no_schedule_counts(),
    {
        PtxScheduleCounts {
            hint_count: 0,
            hint_bad_count: 0,
            tracker: ScheduleTracker::new(),
            skip_count: 0,
            lock_count: 0,
            reacquire_count: 0,
        }
    }
}

impl PtxSchedule {
    /// The slots are locked to the hints.
    pub open spec fn locked(self) -> bool {
        self.gate.mode == PtxScheduleMode::PhaseLocked && self.lock_active
    }

    /// The windows that a hint skips can be counted.
    pub open spec fn has_room_for(self, hint: ScheduleHint) -> bool {
        self.counts.tracker.snapshot.has_room(self.counts.tracker.skipped(hint.window_id))
    }

    /// The schedule is followed no longer.
    pub open spec fn lost(self) -> PtxSchedule {
        PtxSchedule {
            counts: PtxScheduleCounts {
                reacquire_count: (self.counts.reacquire_count + 1) as u32,
                ..self.counts
            },
            lock_active: false,
            lock_miss_streak: 0,
            next_distance_us: 0,
            ..self
        }
    }

    /// Distance of the next slot, while locked.
    pub open spec fn wanted_distance(self) -> u32 {
        if self.next_distance_us > 0 {
            self.next_distance_us
        } else {
            self.period_us
        }
    }

    /// Distance of the next slot, if locked and if it can be asked for.
    pub open spec fn next_distance(self) -> Option<u32> {
        if self.locked() && 0 < self.wanted_distance() <= TIMESLOT_DISTANCE_MAX_US {
            Some(self.wanted_distance())
        } else {
            None
        }
    }

    /// The next slot has been asked for; a lock that gives no distance is lost.
    pub open spec fn after_request(self) -> PtxSchedule {
        if self.next_distance() is Some {
            PtxSchedule { next_distance_us: 0, ..self }
        } else if self.locked() {
            self.lost()
        } else {
            self
        }
    }

    /// The lock is lost, if there is one.
    pub open spec fn lost_if_locked(self) -> PtxSchedule {
        if self.locked() {
            self.lost()
        } else {
            self
        }
    }

    /// How far from the start of this slot the hinted window is, and never within
    /// this slot, which ends at `match_us`.
    pub open spec fn hinted_distance(
        self,
        hint: ScheduleHint,
        elapsed_us: u32,
        match_us: u32,
    ) -> u32 {
        larger(
            mpsl_timeslot::sat_add(
                mpsl_timeslot::sat_add(elapsed_us, hint.next_delay_us),
                self.gate.lock_tx_offset_us,
            ),
            mpsl_timeslot::sat_add(match_us, 100),
        )
    }

    /// A valid hint is counted.
    pub open spec fn hint_counted(self, hint: ScheduleHint) -> PtxSchedule {
        PtxSchedule {
            counts: PtxScheduleCounts {
                hint_count: (self.counts.hint_count + 1) as u32,
                tracker: self.counts.tracker.after_hint(hint.window_id),
                ..self.counts
            },
            last_window_id: hint.window_id,
            ..self
        }
    }

    /// The slots are locked to a hint.
    pub open spec fn locked_to(
        self,
        hint: ScheduleHint,
        elapsed_us: u32,
        match_us: u32,
    ) -> PtxSchedule {
        PtxSchedule {
            counts: PtxScheduleCounts {
                lock_count: if self.lock_active {
                    self.counts.lock_count
                } else {
                    (self.counts.lock_count + 1) as u32
                },
                ..self.counts
            },
            lock_active: true,
            lock_miss_streak: 0,
            period_us: hint.period_us,
            next_distance_us: self.hinted_distance(hint, elapsed_us, match_us),
            ..self
        }
    }

    /// A valid hint has come, `elapsed_us` into the slot.
    pub open spec fn hinted(
        self,
        hint: ScheduleHint,
        elapsed_us: u32,
        match_us: u32,
    ) -> PtxSchedule {
        let s = self.hint_counted(hint);
        match s.gate.mode {
            PtxScheduleMode::Disabled => s,
            PtxScheduleMode::FixedSkipAfterHint => PtxSchedule {
                skip_slots_remaining: s.gate.skip_after_hint_slots,
                ..s
            },
            PtxScheduleMode::PhaseLocked => s.locked_to(hint, elapsed_us, match_us),
        }
    }

    /// An ACK came without a valid hint.
    pub open spec fn unhinted(self) -> PtxSchedule {
        PtxSchedule {
            counts: PtxScheduleCounts {
                hint_bad_count: (self.counts.hint_bad_count + 1) as u32,
                tracker: self.counts.tracker.after_bad_hint(),
                ..self.counts
            },
            ..self
        }
    }

    /// What an ACK says of the schedule has been taken into account.
    pub open spec fn acked(
        self,
        hint: Option<ScheduleHint>,
        elapsed_us: u32,
        match_us: u32,
    ) -> PtxSchedule {
        match hint {
            Some(hint) => self.hinted(hint, elapsed_us, match_us),
            None => self.unhinted(),
        }
    }

    /// The streak of misses with one more.
    pub open spec fn longer_streak(self) -> u8 {
        if self.lock_miss_streak == u8::MAX {
            u8::MAX
        } else {
            (self.lock_miss_streak + 1) as u8
        }
    }

    /// No good ACK came. Too many of these in a row lose the lock.
    pub open spec fn missed(self) -> PtxSchedule {
        let s = PtxSchedule {
            counts: PtxScheduleCounts {
                tracker: self.counts.tracker.after_miss(),
                ..self.counts
            },
            ..self
        };
        if !s.locked() {
            s
        } else if s.longer_streak() >= s.gate.lock_miss_limit {
            s.lost()
        } else {
            PtxSchedule { lock_miss_streak: s.longer_streak(), ..s }
        }
    }

    /// This slot is to be skipped.
    pub open spec fn skips(self) -> bool {
        self.gate.mode == PtxScheduleMode::FixedSkipAfterHint && self.skip_slots_remaining > 0
    }

    /// This slot is skipped.
    pub open spec fn skipped(self) -> PtxSchedule {
        PtxSchedule {
            counts: PtxScheduleCounts {
                skip_count: (self.counts.skip_count + 1) as u32,
                ..self.counts
            },
            skip_slots_remaining: (self.skip_slots_remaining - 1) as u8,
            ..self
        }
    }

    /// A schedule that has seen no hint yet.
    pub fn new(gate: PtxScheduleGateConfig) -> (s: Self)
        ensures
            s == new_schedule(gate),
    {
        PtxSchedule {
            counts: PtxScheduleCounts::zero(),
            last_window_id: 0,
            gate,
            skip_slots_remaining: 0,
            lock_active: false,
            lock_miss_streak: 0,
            period_us: 0,
            next_distance_us: 0,
        }
    }

    /// Check that the windows that a hint skips can be counted.
    pub fn check_room_for(&self, hint: ScheduleHint) -> (r: bool)
        requires
            self.counts.has_room(),
        ensures
            r == self.has_room_for(hint),
    {
        let t = self.counts.tracker;
        let last: u32 = t.snapshot.last_window_id;
        let windows: u32 = if t.seen_hint && hint.window_id > last {
            hint.window_id - last - 1
        } else {
            0
        };
        t.snapshot.missed_window_count <= u32::MAX - windows
    }

    /// Stop following the schedule.
    pub fn lose_lock(&mut self)
        requires
            old(self).counts.reacquire_count < u32::MAX,
        ensures
            *final(self) == old(self).lost(),
    {
        self.lock_active = false;
        self.lock_miss_streak = 0;
        self.next_distance_us = 0;
        self.counts.reacquire_count = self.counts.reacquire_count + 1;
    }

    /// Whether the slots are locked to the hints.
    pub fn is_locked(&self) -> (r: bool)
        ensures
            r == self.locked(),
    {
        self.gate.mode == PtxScheduleMode::PhaseLocked && self.lock_active
    }

    /// Stop following the schedule, if it is followed.
    pub fn lose_lock_if_locked(&mut self)
        requires
            old(self).counts.reacquire_count < u32::MAX,
        ensures
            *final(self) == old(self).lost_if_locked(),
    {
        if self.is_locked() {
            self.lose_lock();
        }
    }

    /// The distance at which to request the next slot, or none where the
    /// earliest slot is to be requested.
    pub fn take_distance(&mut self) -> (d: Option<u32>)
        requires
            old(self).counts.reacquire_count < u32::MAX,
        ensures
            d == old(self).next_distance(),
            *final(self) == old(self).after_request(),
    {
        if !self.is_locked() {
            return None;
        }
        let distance_us: u32 = if self.next_distance_us > 0 {
            self.next_distance_us
        } else {
            self.period_us
        };
        if distance_us > 0 && distance_us <= TIMESLOT_DISTANCE_MAX_US {
            self.next_distance_us = 0;
            Some(distance_us)
        } else {
            self.lose_lock();
            None
        }
    }

    /// Count a valid hint.
    fn count_hint(&mut self, hint: ScheduleHint)
        requires
            old(self).counts.has_room(),
            old(self).has_room_for(hint),
        ensures
            *final(self) == old(self).hint_counted(hint),
    {
        self.counts.hint_count = self.counts.hint_count + 1;
        self.last_window_id = hint.window_id;
        self.counts.tracker.observe_hint(hint);
    }

    /// Lock the slots to a hint.
    fn lock_to(&mut self, hint: ScheduleHint, ack_offset_us: u32, match_us: u32)
        requires
            old(self).counts.lock_count < u32::MAX,
        ensures
            *final(self) == old(self).locked_to(hint, ack_offset_us, match_us),
    {
        if !self.lock_active {
            self.counts.lock_count = self.counts.lock_count + 1;
        }
        self.lock_active = true;
        self.lock_miss_streak = 0;
        self.period_us = hint.period_us;
        let least: u32 = match_us.saturating_add(100);
        let hinted: u32 = ack_offset_us.saturating_add(hint.next_delay_us).saturating_add(
            self.gate.lock_tx_offset_us,
        );
        self.next_distance_us = if hinted >= least {
            hinted
        } else {
            least
        };
    }

    /// Take a valid hint into account.
    pub fn observe_hint(&mut self, hint: ScheduleHint, ack_offset_us: u32, match_us: u32)
        requires
            old(self).counts.has_room(),
            old(self).has_room_for(hint),
        ensures
            *final(self) == old(self).hinted(hint, ack_offset_us, match_us),
    {
        self.count_hint(hint);
        match self.gate.mode {
            PtxScheduleMode::Disabled => {},
            PtxScheduleMode::FixedSkipAfterHint => {
                self.skip_slots_remaining = self.gate.skip_after_hint_slots;
            },
            PtxScheduleMode::PhaseLocked => {
                self.lock_to(hint, ack_offset_us, match_us);
            },
        }
    }

    /// Take what an ACK says of the schedule into account.
    pub fn observe_ack(
        &mut self,
        hint: Option<ScheduleHint>,
        ack_offset_us: u32,
        match_us: u32,
    )
        requires
            old(self).counts.has_room(),
            hint matches Some(h) ==> old(self).has_room_for(h),
        ensures
            *final(self) == old(self).acked(hint, ack_offset_us, match_us),
    {
        match hint {
            Some(hint) => {
                self.observe_hint(hint, ack_offset_us, match_us);
            },
            None => {
                self.counts.hint_bad_count = self.counts.hint_bad_count + 1;
                self.counts.tracker.observe_bad_hint();
            },
        }
    }

    /// Take a missing ACK into account.
    pub fn observe_miss(&mut self)
        requires
            old(self).counts.has_room(),
        ensures
            *final(self) == old(self).missed(),
    {
        self.counts.tracker.observe_miss();
        if self.is_locked() {
            let streak: u8 = self.lock_miss_streak.saturating_add(1);
            if streak >= self.gate.lock_miss_limit {
                self.lose_lock();
            } else {
                self.lock_miss_streak = streak;
            }
        }
    }

    /// Skip this slot, if the policy says so.
    pub fn skip_slot(&mut self) -> (skip: bool)
        requires
            old(self).counts.skip_count < u32::MAX,
        ensures
            skip == old(self).skips(),
            *final(self) == (if skip {
                old(self).skipped()
            } else {
                *old(self)
            }),
    {
        if self.gate.mode == PtxScheduleMode::FixedSkipAfterHint && self.skip_slots_remaining
            > 0 {
            self.skip_slots_remaining = self.skip_slots_remaining - 1;
            self.counts.skip_count = self.counts.skip_count + 1;
            true
        } else {
            false
        }
    }
}

/// The schedule after `n` misses in a row.
pub open spec fn misses(s: PtxSchedule, n: nat) -> PtxSchedule
    decreases n,
{
    if n == 0 {
        s
    } else {
        misses(s, (n - 1) as nat).missed()
    }
}

/// A lock survives fewer misses in a row than its limit, and is lost at the limit.
pub proof fn law_lock_survives_limit(s: PtxSchedule, n: nat)
    requires
        s.locked(),
        s.lock_miss_streak == 0,
        n <= s.gate.lock_miss_limit,
        s.gate.lock_miss_limit > 0,
    ensures
        misses(s, n).gate == s.gate,
        n < s.gate.lock_miss_limit ==> misses(s, n).locked() && misses(s, n).lock_miss_streak == n,
        n == s.gate.lock_miss_limit ==> !misses(s, n).lock_active && misses(
            s,
            n,
        ).counts.reacquire_count == (misses(s, (n - 1) as nat).counts.reacquire_count + 1) as u32,
    decreases n,
{
    if n > 0 {
        law_lock_survives_limit(s, (n - 1) as nat);
    }
}

/// A hint under a phase-locked gate leads to a request at a distance: past the end
/// of this slot, and at the hinted window if that is later.
pub proof fn law_hint_locks_next_slot(
    s: PtxSchedule,
    hint: ScheduleHint,
    elapsed_us: u32,
    match_us: u32,
)
    requires
        s.gate.mode == PtxScheduleMode::PhaseLocked,
        match_us + 100 <= TIMESLOT_DISTANCE_MAX_US,
        elapsed_us + hint.next_delay_us + s.gate.lock_tx_offset_us <= TIMESLOT_DISTANCE_MAX_US,
    ensures
        s.hinted(hint, elapsed_us, match_us).locked(),
        s.hinted(hint, elapsed_us, match_us).next_distance() matches Some(d) && {
            &&& d >= match_us + 100
            &&& d >= elapsed_us + hint.next_delay_us + s.gate.lock_tx_offset_us
            &&& d == match_us + 100 || d == elapsed_us + hint.next_delay_us
                + s.gate.lock_tx_offset_us
        },
{
}

/// After the slot at the hinted distance, a lock goes on at the hinted period.
pub proof fn law_lock_goes_on_at_period(s: PtxSchedule)
    requires
        s.next_distance() is Some,
        0 < s.period_us <= TIMESLOT_DISTANCE_MAX_US,
    ensures
        s.after_request().locked(),
        s.after_request().next_distance() == Some(s.period_us),
{
}

/// Without a phase-locked gate no slot is ever requested at a distance, whatever
/// is observed.
pub proof fn law_unlocked_gate_never_locks(
    s: PtxSchedule,
    hint: Option<ScheduleHint>,
    elapsed_us: u32,
    match_us: u32,
)
    requires
        s.gate.mode != PtxScheduleMode::PhaseLocked,
    ensures
        s.next_distance() is None,
        s.acked(hint, elapsed_us, match_us).gate == s.gate,
        s.acked(hint, elapsed_us, match_us).next_distance() is None,
        s.missed().gate == s.gate,
        s.missed().next_distance() is None,
{
}

/// The schedule after `n` slots, those that are skipped and those that are not.
pub open spec fn slots_run(s: PtxSchedule, n: nat) -> PtxSchedule
    decreases n,
{
    if n == 0 {
        s
    } else {
        let before = slots_run(s, (n - 1) as nat);
        if before.skips() {
            before.skipped()
        } else {
            before
        }
    }
}

/// Under a gate that skips after a hint, the configured number of slots after a hint
/// is skipped and counted, and no slot after those.
pub proof fn law_hint_skips_slots(
    s: PtxSchedule,
    hint: ScheduleHint,
    elapsed_us: u32,
    match_us: u32,
    n: nat,
)
    requires
        s.gate.mode == PtxScheduleMode::FixedSkipAfterHint,
        s.counts.skip_count + s.gate.skip_after_hint_slots <= u32::MAX,
    ensures
        ({
            let after = slots_run(s.hinted(hint, elapsed_us, match_us), n);
            &&& after.gate == s.gate
            &&& after.skips() == (n < s.gate.skip_after_hint_slots)
            &&& n <= s.gate.skip_after_hint_slots ==> after.counts.skip_count
                == s.counts.skip_count + n
            &&& n >= s.gate.skip_after_hint_slots ==> after.counts.skip_count
                == s.counts.skip_count + s.gate.skip_after_hint_slots
            &&& n <= s.gate.skip_after_hint_slots ==> after.skip_slots_remaining
                == s.gate.skip_after_hint_slots - n
            &&& n >= s.gate.skip_after_hint_slots ==> after.skip_slots_remaining == 0
        }),
    decreases n,
{
    if n > 0 {
        law_hint_skips_slots(s, hint, elapsed_us, match_us, (n - 1) as nat);
    }
}

/// Under any other gate no slot is ever skipped.
pub proof fn law_other_gates_skip_nothing(s: PtxSchedule)
    requires
        s.gate.mode != PtxScheduleMode::FixedSkipAfterHint,
    ensures
        !s.skips(),
{
}

/// Every ACK is counted once, as one with a hint or as one without, in the schedule
/// and in what is known of the receiver's windows. An ACK without a hint leaves what
/// the schedule follows as it is.
pub proof fn law_ack_is_counted_once(
    s: PtxSchedule,
    hint: Option<ScheduleHint>,
    elapsed_us: u32,
    match_us: u32,
)
    requires
        s.counts.has_room(),
    ensures
        ({
            let after = s.acked(hint, elapsed_us, match_us);
            let t = s.counts.tracker.snapshot;
            let u = after.counts.tracker.snapshot;
            &&& after.counts.hint_count - s.counts.hint_count == (if hint is Some {
                1int
            } else {
                0int
            })
            &&& after.counts.hint_bad_count - s.counts.hint_bad_count == (if hint is Some {
                0int
            } else {
                1int
            })
            &&& u.valid_hint_count - t.valid_hint_count == after.counts.hint_count
                - s.counts.hint_count
            &&& u.bad_hint_count - t.bad_hint_count == after.counts.hint_bad_count
                - s.counts.hint_bad_count
            &&& after.counts.skip_count == s.counts.skip_count
            &&& after.counts.reacquire_count == s.counts.reacquire_count
            &&& after.gate == s.gate
            &&& hint matches Some(h) ==> after.last_window_id == h.window_id && u.last_window_id
                == h.window_id
            &&& hint is None ==> {
                &&& after.last_window_id == s.last_window_id
                &&& after.counts.lock_count == s.counts.lock_count
                &&& after.lock_active == s.lock_active
                &&& after.lock_miss_streak == s.lock_miss_streak
                &&& after.period_us == s.period_us
                &&& after.next_distance_us == s.next_distance_us
                &&& after.skip_slots_remaining == s.skip_slots_remaining
            }
        }),
{
}

/// A phase-locked gate counts a lock when a hint starts one, and only then: a hint
/// that comes while the lock stands renews it, with no miss held against it.
pub proof fn law_lock_is_counted_once(
    s: PtxSchedule,
    hint: ScheduleHint,
    elapsed_us: u32,
    match_us: u32,
)
    requires
        s.counts.has_room(),
    ensures
        ({
            let after = s.hinted(hint, elapsed_us, match_us);
            &&& after.counts.lock_count - s.counts.lock_count == (if after.locked()
                && !s.locked() {
                1int
            } else {
                0int
            })
            &&& after.locked() == (s.gate.mode == PtxScheduleMode::PhaseLocked)
            &&& after.locked() ==> after.lock_miss_streak == 0 && after.period_us
                == hint.period_us
        }),
{
}

/// A lock that is lost is counted, and a lock that is kept is not, whatever ends the
/// slot: a miss, a request, or a request that came to nothing. A schedule that is not
/// locked asks for no distance.
pub proof fn law_lost_lock_is_counted_once(s: PtxSchedule)
    requires
        s.counts.has_room(),
    ensures
        s.missed().counts.reacquire_count - s.counts.reacquire_count == (if s.locked()
            && !s.missed().locked() {
            1int
        } else {
            0int
        }),
        s.after_request().counts.reacquire_count - s.counts.reacquire_count == (if s.locked()
            && !s.after_request().locked() {
            1int
        } else {
            0int
        }),
        s.lost_if_locked().counts.reacquire_count - s.counts.reacquire_count == (if s.locked() {
            1int
        } else {
            0int
        }),
        !s.lost_if_locked().locked(),
        s.next_distance() is Some ==> s.locked() && s.after_request().locked(),
        s.missed().counts.lock_count == s.counts.lock_count,
        s.missed().counts.hint_count == s.counts.hint_count,
        s.missed().counts.hint_bad_count == s.counts.hint_bad_count,
        s.missed().counts.skip_count == s.counts.skip_count,
        s.missed().counts.tracker.snapshot.current_miss_streak
            == s.counts.tracker.snapshot.current_miss_streak + 1,
        !s.locked() ==> s.next_distance() is None && s.missed().locked() == s.locked(),
{
}

} // verus!
