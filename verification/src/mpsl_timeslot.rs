//! Timeslot sessions on a multi-protocol service layer.
//!
//! The service layer grants short exclusive slots of the radio and signals what
//! happens to them. A session answers each signal with an action, a log of
//! operations and, where it has one, a request for the next slot. This file
//! holds what all sessions share, and the plainest of them, which only counts
//! its signals.

pub use crate::mpsl_profile::{
    BleCoexistenceHint, CoexistenceProfile, CoexistenceProfileConfig, PrxScheduleConfig,
    PrxSlotConfig, PtxEventConfig, PtxPollConfig, PtxScheduleGateConfig, PtxScheduleMode,
    TimeslotRequestConfig,
};
pub use crate::mpsl_radio::{RadioDisableResult, RadioQuiesceResult, RadioRecoveryPolicy};
pub use crate::prx_session::{PrxSlotResult, PrxSlotSession};
pub use crate::ptx_session::{
    PtxEventSession, PtxPollResult, PtxPollSession, PtxSendResult, PtxSlotResult,
};

use crate::error::Error;
use crate::hw;
use crate::hw::{HwOp, TimerOp};
use crate::mpsl_schedule;
use vstd::prelude::*;

verus! {

/// Longest distance that a request may ask for.
pub const TIMESLOT_DISTANCE_MAX_US: u32 = 255_999_999;

/// Longest timeout of a request for the earliest slot.
pub const TIMESLOT_EARLIEST_TIMEOUT_MAX_US: u32 = 255_999_999;

/// What the service layer signals to a session.
#[derive(Debug, Clone, Copy, PartialEq, Eq, Structural)]
pub enum TimeslotSignal {
    /// The slot starts.
    Start,
    /// TIMER0 interrupts.
    Timer0,
    /// The radio interrupts.
    Radio,
    /// The slot could not be extended.
    ExtendFailed,
    /// The slot was extended.
    ExtendSucceeded,
    /// The request was blocked.
    Blocked,
    /// The request was cancelled.
    Cancelled,
    /// No request is pending.
    SessionIdle,
    /// The last answer was not valid.
    InvalidReturn,
    /// The session is closed.
    SessionClosed,
    /// The slot was not given back in time.
    Overstayed,
    /// Anything else.
    Unknown,
}

/// The signal that a code of the service layer stands for.
pub open spec fn signal_of(code: u32) -> TimeslotSignal {
    match code {
        0u32 => TimeslotSignal::Start,
        1u32 => TimeslotSignal::Timer0,
        2u32 => TimeslotSignal::Radio,
        3u32 => TimeslotSignal::ExtendFailed,
        4u32 => TimeslotSignal::ExtendSucceeded,
        5u32 => TimeslotSignal::Blocked,
        6u32 => TimeslotSignal::Cancelled,
        7u32 => TimeslotSignal::SessionIdle,
        8u32 => TimeslotSignal::InvalidReturn,
        9u32 => TimeslotSignal::SessionClosed,
        10u32 => TimeslotSignal::Overstayed,
        _ => TimeslotSignal::Unknown,
    }
}

impl TimeslotSignal {
    /// Recognize the code of a signal.
    pub fn from_code(code: u32) -> (s: Self)
        ensures
            s == signal_of(code),
    {
        match code {
            0 => TimeslotSignal::Start,
            1 => TimeslotSignal::Timer0,
            2 => TimeslotSignal::Radio,
            3 => TimeslotSignal::ExtendFailed,
            4 => TimeslotSignal::ExtendSucceeded,
            5 => TimeslotSignal::Blocked,
            6 => TimeslotSignal::Cancelled,
            7 => TimeslotSignal::SessionIdle,
            8 => TimeslotSignal::InvalidReturn,
            9 => TimeslotSignal::SessionClosed,
            10 => TimeslotSignal::Overstayed,
            _ => TimeslotSignal::Unknown,
        }
    }
}

/// What a session wants done with its slot.
#[derive(Debug, Clone, Copy, PartialEq, Eq, Structural)]
pub enum SlotAction {
    /// Go on.
    Nothing,
    /// End the slot.
    End,
    /// End the slot and request the next one.
    Request,
}

/// A session's answer to a signal.
#[derive(Debug, Clone, Copy, PartialEq, Eq, Structural)]
pub struct SlotReply {
    /// The action, or no answer at all.
    pub action: Option<SlotAction>,
    /// The session's request is to be submitted now; `request_refused` is owed
    /// where that fails.
    pub submit: bool,
}

/// Priority of a request.
#[derive(Debug, Clone, Copy, PartialEq, Eq, Structural)]
pub enum SlotPriority {
    /// Yields to other protocols.
    Normal,
    /// Competes with them.
    High,
}

/// A request for the earliest slot.
#[derive(Debug, Clone, Copy, PartialEq, Eq, Structural)]
pub struct EarliestRequest {
    /// Priority.
    pub priority: SlotPriority,
    /// Length of the slot.
    pub length_us: u32,
    /// How long the request stands.
    pub timeout_us: u32,
}

/// A request for a slot.
#[derive(Debug, Clone, Copy, PartialEq, Eq, Structural)]
pub enum TimeslotRequest {
    /// As soon as possible.
    Earliest(EarliestRequest),
    /// At a distance from the start of the current slot.
    Normal {
        /// Priority.
        priority: SlotPriority,
        /// Distance from start to start.
        distance_us: u32,
        /// Length of the slot.
        length_us: u32,
    },
}

/// The verdict on a return code of the service layer: negative codes are errors.
pub open spec fn mpsl_verdict(ret: i32) -> Result<(), Error> {
    if ret >= 0 {
        Ok(())
    } else {
        Err(Error::Mpsl)
    }
}

/// Judge a return code of the service layer.
pub fn mpsl_ok(ret: i32) -> (r: Result<(), Error>)
    ensures
        r == mpsl_verdict(ret),
{
    if ret >= 0 {
        Ok(())
    } else {
        Err(Error::Mpsl)
    }
}

/// Signal counts across a timeslot session.
#[derive(Debug, Clone, Copy, PartialEq, Eq, Structural)]
pub struct SignalCounters {
    /// Slots started.
    pub start: u32,
    /// TIMER0 interrupts.
    pub timer0: u32,
    /// Radio interrupts.
    pub radio: u32,
    /// Blocked requests.
    pub blocked: u32,
    /// Cancelled requests.
    pub cancelled: u32,
    /// Times without a pending request.
    pub session_idle: u32,
    /// Closings.
    pub session_closed: u32,
    /// Slots not given back in time.
    pub overstayed: u32,
    /// Answers or requests that were refused.
    pub invalid_return: u32,
    /// Failed extensions.
    pub extend_failed: u32,
    /// Extensions.
    pub extend_succeeded: u32,
    /// Times the radio did not disable in time.
    pub radio_disable_timeout: u32,
}

/// Counters at zero.
pub open spec fn no_signals() -> SignalCounters {
    SignalCounters {
        start: 0,
        timer0: 0,
        radio: 0,
        blocked: 0,
        cancelled: 0,
        session_idle: 0,
        session_closed: 0,
        overstayed: 0,
        invalid_return: 0,
        extend_failed: 0,
        extend_succeeded: 0,
        radio_disable_timeout: 0,
    }
}

/// `a + b`, but never above the largest `u32`.
pub open spec fn sat_add(a: u32, b: u32) -> u32 {
    if a + b > u32::MAX {
        u32::MAX
    } else {
        (a + b) as u32
    }
}

impl SignalCounters {
    /// Counters at zero.
    pub fn zero() -> (c: Self)
        ensures
            c == no_signals(),
    {
        SignalCounters {
            start: 0,
            timer0: 0,
            radio: 0,
            blocked: 0,
            cancelled: 0,
            session_idle: 0,
            session_closed: 0,
            overstayed: 0,
            invalid_return: 0,
            extend_failed: 0,
            extend_succeeded: 0,
            radio_disable_timeout: 0,
        }
    }

    /// The counters with one more signal of a kind. An unknown signal is not counted.
    pub open spec fn plus(self, signal: TimeslotSignal) -> SignalCounters {
        match signal {
            TimeslotSignal::Start => SignalCounters { start: (self.start + 1) as u32, ..self },
            TimeslotSignal::Timer0 => SignalCounters { timer0: (self.timer0 + 1) as u32, ..self },
            TimeslotSignal::Radio => SignalCounters { radio: (self.radio + 1) as u32, ..self },
            TimeslotSignal::ExtendFailed => SignalCounters {
                extend_failed: (self.extend_failed + 1) as u32,
                ..self
            },
            TimeslotSignal::ExtendSucceeded => SignalCounters {
                extend_succeeded: (self.extend_succeeded + 1) as u32,
                ..self
            },
            TimeslotSignal::Blocked => SignalCounters {
                blocked: (self.blocked + 1) as u32,
                ..self
            },
            TimeslotSignal::Cancelled => SignalCounters {
                cancelled: (self.cancelled + 1) as u32,
                ..self
            },
            TimeslotSignal::SessionIdle => SignalCounters {
                session_idle: (self.session_idle + 1) as u32,
                ..self
            },
            TimeslotSignal::InvalidReturn => SignalCounters {
                invalid_return: (self.invalid_return + 1) as u32,
                ..self
            },
            TimeslotSignal::SessionClosed => SignalCounters {
                session_closed: (self.session_closed + 1) as u32,
                ..self
            },
            TimeslotSignal::Overstayed => SignalCounters {
                overstayed: (self.overstayed + 1) as u32,
                ..self
            },
            TimeslotSignal::Unknown => self,
        }
    }

    /// Count one more signal of a kind.
    pub fn count(&mut self, signal: TimeslotSignal)
        requires
            old(self).has_room(),
        ensures
            *final(self) == old(self).plus(signal),
    {
        match signal {
            TimeslotSignal::Start => {
                self.start = self.start + 1;
            },
            TimeslotSignal::Timer0 => {
                self.timer0 = self.timer0 + 1;
            },
            TimeslotSignal::Radio => {
                self.radio = self.radio + 1;
            },
            TimeslotSignal::ExtendFailed => {
                self.extend_failed = self.extend_failed + 1;
            },
            TimeslotSignal::ExtendSucceeded => {
                self.extend_succeeded = self.extend_succeeded + 1;
            },
            TimeslotSignal::Blocked => {
                self.blocked = self.blocked + 1;
            },
            TimeslotSignal::Cancelled => {
                self.cancelled = self.cancelled + 1;
            },
            TimeslotSignal::SessionIdle => {
                self.session_idle = self.session_idle + 1;
            },
            TimeslotSignal::InvalidReturn => {
                self.invalid_return = self.invalid_return + 1;
            },
            TimeslotSignal::SessionClosed => {
                self.session_closed = self.session_closed + 1;
            },
            TimeslotSignal::Overstayed => {
                self.overstayed = self.overstayed + 1;
            },
            TimeslotSignal::Unknown => {},
        }
    }

    /// No counter is at its limit.
    pub open spec fn has_room(self) -> bool {
        &&& self.start < u32::MAX
        &&& self.timer0 < u32::MAX
        &&& self.radio < u32::MAX
        &&& self.blocked < u32::MAX
        &&& self.cancelled < u32::MAX
        &&& self.session_idle < u32::MAX
        &&& self.session_closed < u32::MAX
        &&& self.overstayed < u32::MAX
        &&& self.invalid_return < u32::MAX
        &&& self.extend_failed < u32::MAX
        &&& self.extend_succeeded < u32::MAX
        &&& self.radio_disable_timeout < u32::MAX
    }

    /// Check that no counter is at its limit.
    pub fn check_room(&self) -> (r: bool)
        ensures
            r == self.has_room(),
    {
        self.start < u32::MAX && self.timer0 < u32::MAX && self.radio < u32::MAX && self.blocked
            < u32::MAX && self.cancelled < u32::MAX && self.session_idle < u32::MAX
            && self.session_closed < u32::MAX && self.overstayed < u32::MAX && self.invalid_return
            < u32::MAX && self.extend_failed < u32::MAX && self.extend_succeeded < u32::MAX
            && self.radio_disable_timeout < u32::MAX
    }

    /// The sums of two sets of counters, none above the largest `u32`.
    pub open spec fn plus_all(self, other: SignalCounters) -> SignalCounters {
        SignalCounters {
            start: sat_add(self.start, other.start),
            timer0: sat_add(self.timer0, other.timer0),
            radio: sat_add(self.radio, other.radio),
            blocked: sat_add(self.blocked, other.blocked),
            cancelled: sat_add(self.cancelled, other.cancelled),
            session_idle: sat_add(self.session_idle, other.session_idle),
            session_closed: sat_add(self.session_closed, other.session_closed),
            overstayed: sat_add(self.overstayed, other.overstayed),
            invalid_return: sat_add(self.invalid_return, other.invalid_return),
            extend_failed: sat_add(self.extend_failed, other.extend_failed),
            extend_succeeded: sat_add(self.extend_succeeded, other.extend_succeeded),
            radio_disable_timeout: sat_add(
                self.radio_disable_timeout,
                other.radio_disable_timeout,
            ),
        }
    }

    /// Counter by counter sum.
    pub fn saturating_add(self, other: Self) -> (c: Self)
        ensures
            c == self.plus_all(other),
    {
        SignalCounters {
            start: self.start.saturating_add(other.start),
            timer0: self.timer0.saturating_add(other.timer0),
            radio: self.radio.saturating_add(other.radio),
            blocked: self.blocked.saturating_add(other.blocked),
            cancelled: self.cancelled.saturating_add(other.cancelled),
            session_idle: self.session_idle.saturating_add(other.session_idle),
            session_closed: self.session_closed.saturating_add(other.session_closed),
            overstayed: self.overstayed.saturating_add(other.overstayed),
            invalid_return: self.invalid_return.saturating_add(other.invalid_return),
            extend_failed: self.extend_failed.saturating_add(other.extend_failed),
            extend_succeeded: self.extend_succeeded.saturating_add(other.extend_succeeded),
            radio_disable_timeout: self.radio_disable_timeout.saturating_add(
                other.radio_disable_timeout,
            ),
        }
    }

    /// The growth of each counter since `previous`.
    pub open spec fn since(self, previous: SignalCounters) -> SignalCounters {
        SignalCounters {
            start: mpsl_schedule::sat_sub(self.start, previous.start),
            timer0: mpsl_schedule::sat_sub(self.timer0, previous.timer0),
            radio: mpsl_schedule::sat_sub(self.radio, previous.radio),
            blocked: mpsl_schedule::sat_sub(self.blocked, previous.blocked),
            cancelled: mpsl_schedule::sat_sub(self.cancelled, previous.cancelled),
            session_idle: mpsl_schedule::sat_sub(self.session_idle, previous.session_idle),
            session_closed: mpsl_schedule::sat_sub(self.session_closed, previous.session_closed),
            overstayed: mpsl_schedule::sat_sub(self.overstayed, previous.overstayed),
            invalid_return: mpsl_schedule::sat_sub(self.invalid_return, previous.invalid_return),
            extend_failed: mpsl_schedule::sat_sub(self.extend_failed, previous.extend_failed),
            extend_succeeded: mpsl_schedule::sat_sub(
                self.extend_succeeded,
                previous.extend_succeeded,
            ),
            radio_disable_timeout: mpsl_schedule::sat_sub(
                self.radio_disable_timeout,
                previous.radio_disable_timeout,
            ),
        }
    }

    /// The growth of each counter since `previous`.
    pub fn saturating_sub(self, previous: Self) -> (c: Self)
        ensures
            c == self.since(previous),
    {
        SignalCounters {
            start: self.start.saturating_sub(previous.start),
            timer0: self.timer0.saturating_sub(previous.timer0),
            radio: self.radio.saturating_sub(previous.radio),
            blocked: self.blocked.saturating_sub(previous.blocked),
            cancelled: self.cancelled.saturating_sub(previous.cancelled),
            session_idle: self.session_idle.saturating_sub(previous.session_idle),
            session_closed: self.session_closed.saturating_sub(previous.session_closed),
            overstayed: self.overstayed.saturating_sub(previous.overstayed),
            invalid_return: self.invalid_return.saturating_sub(previous.invalid_return),
            extend_failed: self.extend_failed.saturating_sub(previous.extend_failed),
            extend_succeeded: self.extend_succeeded.saturating_sub(previous.extend_succeeded),
            radio_disable_timeout: self.radio_disable_timeout.saturating_sub(
                previous.radio_disable_timeout,
            ),
        }
    }
}

/// A report of growth and the counts before it add up to the counts now, as
/// long as no counter went back.
pub proof fn law_counter_reports_add_up(now: SignalCounters, before: SignalCounters)
    requires
        before.start <= now.start,
        before.radio <= now.radio,
        before.timer0 <= now.timer0,
    ensures
        sat_add(before.start, now.since(before).start) == now.start,
        sat_add(before.radio, now.since(before).radio) == now.radio,
        sat_add(before.timer0, now.since(before).timer0) == now.timer0,
        now.since(now) == no_signals(),
{
}

/// Per-pipe counts with the count of `pipe` one higher.
pub open spec fn pipe_counted(counts: [u32; 8], pipe: u8) -> [u32; 8] {
    if pipe < 8 {
        vstd::array::spec_array_update(counts, pipe as int, (counts@[pipe as int] + 1) as u32)
    } else {
        counts
    }
}

/// No per-pipe count is at its limit.
pub open spec fn pipes_have_room(counts: [u32; 8]) -> bool {
    forall|i: int| 0 <= i < 8 ==> (#[trigger] counts@[i]) < u32::MAX
}

/// Check that no per-pipe count is at its limit.
pub fn check_pipes_room(counts: &[u32; 8]) -> (r: bool)
    ensures
        r == pipes_have_room(*counts),
{
    let mut i: usize = 0;
    while i < 8
        invariant
            i <= 8,
            forall|j: int| 0 <= j < i ==> (#[trigger] counts@[j]) < u32::MAX,
        decreases 8 - i,
    {
        if counts[i] == u32::MAX {
            return false;
        }
        i = i + 1;
    }
    true
}

/// Count one more on `pipe`.
pub fn count_pipe(counts: &mut [u32; 8], pipe: u8)
    requires
        pipe < 8 ==> old(counts)@[pipe as int] < u32::MAX,
    ensures
        *final(counts) == pipe_counted(*old(counts), pipe),
{
    if pipe < 8 {
        let n: u32 = counts[pipe as usize];
        counts[pipe as usize] = n + 1;
    }
}

/// A session that counts the signals of one slot or of a chain of slots.
#[derive(Debug, Clone, Copy, PartialEq, Eq, Structural)]
pub struct TimeslotSession {
    /// The session is in use.
    pub busy: bool,
    /// What has been signalled.
    pub counters: SignalCounters,
    /// The session has ended.
    pub done: bool,
    /// The request for the next slot.
    pub request: EarliestRequest,
    /// The last action.
    pub action: SlotAction,
    /// When to end a slot.
    pub in_slot_match_us: u32,
    /// How many slots to chain; 0 for a single one.
    pub target_count: u32,
}

/// A session that has not been used.
pub open spec fn new_session() -> TimeslotSession {
    TimeslotSession {
        busy: false,
        counters: no_signals(),
        done: false,
        request: EarliestRequest {
            priority: SlotPriority::Normal,
            length_us: 0,
            timeout_us: 1_000_000,
        },
        action: SlotAction::Nothing,
        in_slot_match_us: 4500,
        target_count: 0,
    }
}

/// Arming the end of a slot.
pub open spec fn arm_slot_end_log(log: Seq<HwOp>, match_us: u32) -> Seq<HwOp> {
    let log = hw::timer0(log, TimerOp::ClearCompare(0));
    let log = hw::timer0(log, TimerOp::Compare { channel: 0, value: match_us });
    hw::timer0(log, TimerOp::EnableCompare(0))
}

/// Arm the end of a slot.
pub fn arm_slot_end(match_us: u32, ops: &mut Vec<HwOp>)
    ensures
        final(ops)@ == arm_slot_end_log(old(ops)@, match_us),
{
    ops.push(HwOp::Timer0(TimerOp::ClearCompare(0)));
    ops.push(HwOp::Timer0(TimerOp::Compare { channel: 0, value: match_us }));
    ops.push(HwOp::Timer0(TimerOp::EnableCompare(0)));
}

/// Disarming the end of a slot.
pub open spec fn disarm_slot_end_log(log: Seq<HwOp>) -> Seq<HwOp> {
    let log = hw::timer0(log, TimerOp::ClearCompare(0));
    hw::timer0(log, TimerOp::DisableCompare(0))
}

/// Disarm the end of a slot.
pub fn disarm_slot_end(ops: &mut Vec<HwOp>)
    ensures
        final(ops)@ == disarm_slot_end_log(old(ops)@),
{
    ops.push(HwOp::Timer0(TimerOp::ClearCompare(0)));
    ops.push(HwOp::Timer0(TimerOp::DisableCompare(0)));
}

impl TimeslotSession {
    /// Another slot is to follow the current one.
    pub open spec fn chains(self) -> bool {
        self.target_count > 0 && self.counters.start < self.target_count
    }

    /// The session after a signal, without the last action.
    pub open spec fn counted(self, signal: TimeslotSignal) -> TimeslotSession {
        let c = self.counters;
        match signal {
            TimeslotSignal::Start => TimeslotSession {
                counters: SignalCounters { start: (c.start + 1) as u32, ..c },
                ..self
            },
            TimeslotSignal::Timer0 => TimeslotSession {
                counters: SignalCounters { timer0: (c.timer0 + 1) as u32, ..c },
                done: self.done || !self.chains(),
                ..self
            },
            TimeslotSignal::Radio => TimeslotSession {
                counters: SignalCounters { radio: (c.radio + 1) as u32, ..c },
                ..self
            },
            TimeslotSignal::SessionIdle => TimeslotSession {
                counters: SignalCounters { session_idle: (c.session_idle + 1) as u32, ..c },
                ..self
            },
            TimeslotSignal::Blocked => TimeslotSession {
                counters: SignalCounters { blocked: (c.blocked + 1) as u32, ..c },
                request: urgent(self.request),
                ..self
            },
            TimeslotSignal::Cancelled => TimeslotSession {
                counters: SignalCounters { cancelled: (c.cancelled + 1) as u32, ..c },
                request: urgent(self.request),
                ..self
            },
            TimeslotSignal::SessionClosed => TimeslotSession {
                counters: SignalCounters { session_closed: (c.session_closed + 1) as u32, ..c },
                done: true,
                ..self
            },
            TimeslotSignal::Overstayed => TimeslotSession {
                counters: SignalCounters { overstayed: (c.overstayed + 1) as u32, ..c },
                done: true,
                ..self
            },
            TimeslotSignal::InvalidReturn => TimeslotSession {
                counters: SignalCounters { invalid_return: (c.invalid_return + 1) as u32, ..c },
                ..self
            },
            TimeslotSignal::ExtendFailed => TimeslotSession {
                counters: SignalCounters { extend_failed: (c.extend_failed + 1) as u32, ..c },
                ..self
            },
            TimeslotSignal::ExtendSucceeded => TimeslotSession {
                counters: SignalCounters {
                    extend_succeeded: (c.extend_succeeded + 1) as u32,
                    ..c
                },
                ..self
            },
            TimeslotSignal::Unknown => self,
        }
    }

    /// The action that a signal is answered with, if any.
    pub open spec fn answer(self, signal: TimeslotSignal) -> Option<SlotAction> {
        match signal {
            TimeslotSignal::Start
            | TimeslotSignal::Radio
            | TimeslotSignal::ExtendFailed
            | TimeslotSignal::ExtendSucceeded => Some(SlotAction::Nothing),
            TimeslotSignal::Timer0 => Some(
                if self.chains() {
                    SlotAction::Request
                } else {
                    SlotAction::End
                },
            ),
            TimeslotSignal::SessionIdle
            | TimeslotSignal::Blocked
            | TimeslotSignal::Cancelled
            | TimeslotSignal::SessionClosed => None,
            _ => Some(SlotAction::End),
        }
    }

    /// The operations that a signal is answered with.
    pub open spec fn signal_log(self, signal: TimeslotSignal, log: Seq<HwOp>) -> Seq<HwOp> {
        match signal {
            TimeslotSignal::Start => arm_slot_end_log(log, self.in_slot_match_us),
            TimeslotSignal::Timer0 => {
                let log = disarm_slot_end_log(log);
                if self.chains() {
                    log
                } else {
                    log.push(HwOp::WakeSession)
                }
            },
            TimeslotSignal::SessionIdle
            | TimeslotSignal::SessionClosed
            | TimeslotSignal::Overstayed => log.push(HwOp::WakeSession),
            _ => log,
        }
    }

    /// A session that has not been used.
    pub fn new() -> (s: Self)
        ensures
            s == new_session(),
    {
        TimeslotSession {
            busy: false,
            counters: SignalCounters::zero(),
            done: false,
            request: EarliestRequest {
                priority: SlotPriority::Normal,
                length_us: 0,
                timeout_us: 1_000_000,
            },
            action: SlotAction::Nothing,
            in_slot_match_us: 4500,
            target_count: 0,
        }
    }

    /// Claim the session.
    pub fn try_enter(&mut self) -> (r: Result<(), Error>)
        ensures
            r == (if old(self).busy {
                Err(Error::Busy)
            } else {
                Ok(())
            }),
            *final(self) == (TimeslotSession { busy: true, ..*old(self) }),
    {
        if self.busy {
            return Err(Error::Busy);
        }
        self.busy = true;
        Ok(())
    }

    /// Give the session up.
    pub fn leave(&mut self)
        ensures
            *final(self) == (TimeslotSession { busy: false, ..*old(self) }),
    {
        self.busy = false;
    }

    /// Prepare a single slot; its request is to be submitted next.
    pub fn run_single_slot(&mut self, slot_length_us: u32, in_slot_match_us: u32)
        ensures
            *final(self) == started_session(*old(self), slot_length_us, in_slot_match_us, 0),
    {
        self.run_chained_slots(slot_length_us, in_slot_match_us, 0);
    }

    /// Prepare a chain of `count` slots; the request for the first is to be
    /// submitted next.
    pub fn run_chained_slots(&mut self, slot_length_us: u32, in_slot_match_us: u32, count: u32)
        ensures
            *final(self) == started_session(*old(self), slot_length_us, in_slot_match_us, count),
    {
        self.counters = SignalCounters::zero();
        self.done = false;
        self.target_count = count;
        self.in_slot_match_us = in_slot_match_us;
        self.request = EarliestRequest {
            priority: SlotPriority::Normal,
            length_us: slot_length_us,
            timeout_us: 1_000_000,
        };
    }

    /// Answer a signal.
    pub fn timeslot_callback(&mut self, signal: TimeslotSignal, ops: &mut Vec<HwOp>) -> (reply:
        SlotReply)
        requires
            old(self).counters.has_room(),
        ensures
            reply == (SlotReply {
                action: old(self).answer(signal),
                submit: signal == TimeslotSignal::Blocked || signal == TimeslotSignal::Cancelled,
            }),
            *final(self) == (TimeslotSession {
                action: match old(self).answer(signal) {
                    Some(action) => action,
                    None => old(self).action,
                },
                ..old(self).counted(signal)
            }),
            final(ops)@ == old(self).signal_log(signal, old(ops)@),
    {
        match signal {
            TimeslotSignal::Start => {
                self.counters.start = self.counters.start + 1;
                arm_slot_end(self.in_slot_match_us, ops);
                self.action = SlotAction::Nothing;
                SlotReply { action: Some(SlotAction::Nothing), submit: false }
            },
            TimeslotSignal::Timer0 => {
                self.counters.timer0 = self.counters.timer0 + 1;
                disarm_slot_end(ops);
                if self.target_count > 0 && self.counters.start < self.target_count {
                    self.action = SlotAction::Request;
                } else {
                    self.done = true;
                    ops.push(HwOp::WakeSession);
                    self.action = SlotAction::End;
                }
                SlotReply { action: Some(self.action), submit: false }
            },
            TimeslotSignal::Radio => {
                self.counters.radio = self.counters.radio + 1;
                self.action = SlotAction::Nothing;
                SlotReply { action: Some(SlotAction::Nothing), submit: false }
            },
            TimeslotSignal::SessionIdle => {
                self.counters.session_idle = self.counters.session_idle + 1;
                ops.push(HwOp::WakeSession);
                SlotReply { action: None, submit: false }
            },
            TimeslotSignal::Blocked => {
                self.counters.blocked = self.counters.blocked + 1;
                self.request.priority = SlotPriority::High;
                self.request.timeout_us = TIMESLOT_EARLIEST_TIMEOUT_MAX_US;
                SlotReply { action: None, submit: true }
            },
            TimeslotSignal::Cancelled => {
                self.counters.cancelled = self.counters.cancelled + 1;
                self.request.priority = SlotPriority::High;
                self.request.timeout_us = TIMESLOT_EARLIEST_TIMEOUT_MAX_US;
                SlotReply { action: None, submit: true }
            },
            TimeslotSignal::SessionClosed => {
                self.counters.session_closed = self.counters.session_closed + 1;
                self.done = true;
                ops.push(HwOp::WakeSession);
                SlotReply { action: None, submit: false }
            },
            TimeslotSignal::Overstayed => {
                self.counters.overstayed = self.counters.overstayed + 1;
                self.done = true;
                ops.push(HwOp::WakeSession);
                self.action = SlotAction::End;
                SlotReply { action: Some(SlotAction::End), submit: false }
            },
            TimeslotSignal::InvalidReturn => {
                self.counters.invalid_return = self.counters.invalid_return + 1;
                self.action = SlotAction::End;
                SlotReply { action: Some(SlotAction::End), submit: false }
            },
            TimeslotSignal::ExtendFailed => {
                self.counters.extend_failed = self.counters.extend_failed + 1;
                self.action = SlotAction::Nothing;
                SlotReply { action: Some(SlotAction::Nothing), submit: false }
            },
            TimeslotSignal::ExtendSucceeded => {
                self.counters.extend_succeeded = self.counters.extend_succeeded + 1;
                self.action = SlotAction::Nothing;
                SlotReply { action: Some(SlotAction::Nothing), submit: false }
            },
            TimeslotSignal::Unknown => {
                self.action = SlotAction::End;
                SlotReply { action: Some(SlotAction::End), submit: false }
            },
        }
    }

    /// A request that was submitted from a signal was refused: the session ends.
    pub fn request_refused(&mut self, ops: &mut Vec<HwOp>)
        requires
            old(self).counters.has_room(),
        ensures
            *final(self) == (TimeslotSession {
                counters: SignalCounters {
                    invalid_return: (old(self).counters.invalid_return + 1) as u32,
                    ..old(self).counters
                },
                done: true,
                ..*old(self)
            }),
            final(ops)@ == old(ops)@.push(HwOp::WakeSession),
    {
        self.counters.invalid_return = self.counters.invalid_return + 1;
        self.done = true;
        ops.push(HwOp::WakeSession);
    }

    /// The counters, once the session has ended.
    pub fn poll_done(&self) -> (r: Option<SignalCounters>)
        ensures
            r == (if self.done {
                Some(self.counters)
            } else {
                None
            }),
    {
        if self.done {
            Some(self.counters)
        } else {
            None
        }
    }
}

/// A session prepared for a chain of slots.
pub open spec fn started_session(
    s: TimeslotSession,
    slot_length_us: u32,
    in_slot_match_us: u32,
    count: u32,
) -> TimeslotSession {
    TimeslotSession {
        counters: no_signals(),
        done: false,
        target_count: count,
        in_slot_match_us,
        request: EarliestRequest {
            priority: SlotPriority::Normal,
            length_us: slot_length_us,
            timeout_us: 1_000_000,
        },
        ..s
    }
}

/// The same slot, requested with priority and for as long as can be.
pub open spec fn urgent(request: EarliestRequest) -> EarliestRequest {
    EarliestRequest {
        priority: SlotPriority::High,
        timeout_us: TIMESLOT_EARLIEST_TIMEOUT_MAX_US,
        ..request
    }
}

/// `k` slots of a chain, each started and then ended by TIMER0.
pub open spec fn slots_run(s: TimeslotSession, k: nat) -> TimeslotSession
    decreases k,
{
    if k == 0 {
        s
    } else {
        slots_run(s, (k - 1) as nat).counted(TimeslotSignal::Start).counted(TimeslotSignal::Timer0)
    }
}

/// A chain of `count` slots ends with exactly the slot that was asked for last
/// (a chain of none with its single slot), and not before.
pub proof fn law_chain_runs_count_slots(
    s: TimeslotSession,
    slot_length_us: u32,
    in_slot_match_us: u32,
    count: u32,
    k: nat,
)
    requires
        k <= u32::MAX,
        k <= count || k <= 1,
    ensures
        ({
            let run = slots_run(started_session(s, slot_length_us, in_slot_match_us, count), k);
            &&& run.counters.start == k
            &&& run.counters.timer0 == k
            &&& run.target_count == count
            &&& run.done <==> k > 0 && k >= count
        }),
    decreases k,
{
    if k > 0 {
        law_chain_runs_count_slots(s, slot_length_us, in_slot_match_us, count, (k - 1) as nat);
    }
}

/// The code of a signal: the service layer numbers them from zero.
pub open spec fn code_of(signal: TimeslotSignal) -> Option<u32> {
    match signal {
        TimeslotSignal::Start => Some(0),
        TimeslotSignal::Timer0 => Some(1),
        TimeslotSignal::Radio => Some(2),
        TimeslotSignal::ExtendFailed => Some(3),
        TimeslotSignal::ExtendSucceeded => Some(4),
        TimeslotSignal::Blocked => Some(5),
        TimeslotSignal::Cancelled => Some(6),
        TimeslotSignal::SessionIdle => Some(7),
        TimeslotSignal::InvalidReturn => Some(8),
        TimeslotSignal::SessionClosed => Some(9),
        TimeslotSignal::Overstayed => Some(10),
        TimeslotSignal::Unknown => None,
    }
}

/// Every signal is recognized by its own code, and a code that no signal has is
/// unknown.
pub proof fn law_signal_codes(signal: TimeslotSignal, code: u32)
    ensures
        code_of(signal) matches Some(c) ==> signal_of(c) == signal,
        code_of(signal_of(code)) matches Some(c) ==> c == code,
        signal_of(code) == TimeslotSignal::Unknown <==> code > 10,
{
}

/// One where a condition holds.
pub open spec fn one_if(b: bool) -> int {
    if b {
        1
    } else {
        0
    }
}

/// A signal adds one to the counter of its kind and leaves every other as it is.
pub proof fn law_signal_counts_once(c: SignalCounters, signal: TimeslotSignal)
    requires
        c.has_room(),
    ensures
        c.plus(signal).start == c.start + one_if(signal == TimeslotSignal::Start),
        c.plus(signal).timer0 == c.timer0 + one_if(signal == TimeslotSignal::Timer0),
        c.plus(signal).radio == c.radio + one_if(signal == TimeslotSignal::Radio),
        c.plus(signal).blocked == c.blocked + one_if(signal == TimeslotSignal::Blocked),
        c.plus(signal).cancelled == c.cancelled + one_if(signal == TimeslotSignal::Cancelled),
        c.plus(signal).session_idle == c.session_idle + one_if(signal == TimeslotSignal::SessionIdle),
        c.plus(signal).session_closed == c.session_closed + one_if(signal == TimeslotSignal::SessionClosed),
        c.plus(signal).overstayed == c.overstayed + one_if(signal == TimeslotSignal::Overstayed),
        c.plus(signal).invalid_return == c.invalid_return + one_if(signal == TimeslotSignal::InvalidReturn),
        c.plus(signal).extend_failed == c.extend_failed + one_if(signal == TimeslotSignal::ExtendFailed),
        c.plus(signal).extend_succeeded == c.extend_succeeded + one_if(signal == TimeslotSignal::ExtendSucceeded),
        c.plus(signal).radio_disable_timeout == c.radio_disable_timeout,
{
}

/// No counter of `a` is above that of `b`.
pub open spec fn counters_at_most(a: SignalCounters, b: SignalCounters) -> bool {
    &&& a.start <= b.start
    &&& a.timer0 <= b.timer0
    &&& a.radio <= b.radio
    &&& a.blocked <= b.blocked
    &&& a.cancelled <= b.cancelled
    &&& a.session_idle <= b.session_idle
    &&& a.session_closed <= b.session_closed
    &&& a.overstayed <= b.overstayed
    &&& a.invalid_return <= b.invalid_return
    &&& a.extend_failed <= b.extend_failed
    &&& a.extend_succeeded <= b.extend_succeeded
    &&& a.radio_disable_timeout <= b.radio_disable_timeout
}

/// What was counted before, with all that has been counted since, is what is counted
/// now; and what is added can be told apart again.
pub proof fn law_counters_split_in_time(now: SignalCounters, before: SignalCounters)
    requires
        counters_at_most(before, now),
    ensures
        before.plus_all(now.since(before)) == now,
        now.since(before).plus_all(before) == now,
        now.since(now.since(before)) == before,
        now.plus_all(no_signals()) == now,
{
}

/// A packet on a pipe adds one to the count of that pipe alone; one on a pipe that
/// does not exist is not counted.
pub proof fn law_pipe_counts_once(counts: [u32; 8], pipe: u8, q: int)
    requires
        pipes_have_room(counts),
        0 <= q < 8,
    ensures
        pipe_counted(counts, pipe)@[q] == counts@[q] + one_if(q == pipe),
{
}

/// The plain session counts each signal as the counters do, keeps its request but for
/// its urgency, and is over when it says so: a slot that asks for the next one goes
/// on, and a session that becomes over wakes whoever waits for it.
pub proof fn law_session_answers(s: TimeslotSession, signal: TimeslotSignal, log: Seq<HwOp>)
    ensures
        ({
            let after = s.counted(signal);
            &&& after.counters == s.counters.plus(signal)
            &&& after.request.length_us == s.request.length_us
            &&& after.target_count == s.target_count
            &&& after.in_slot_match_us == s.in_slot_match_us
            &&& after.busy == s.busy
            &&& signal == TimeslotSignal::Blocked || signal == TimeslotSignal::Cancelled ==> {
                &&& after.request.priority == SlotPriority::High
                &&& after.request.timeout_us >= s.request.timeout_us || s.request.timeout_us
                    > TIMESLOT_EARLIEST_TIMEOUT_MAX_US
                &&& after.done == s.done
                &&& s.answer(signal) is None
            }
            &&& signal != TimeslotSignal::Blocked && signal != TimeslotSignal::Cancelled
                ==> after.request == s.request
            &&& s.answer(signal) == Some(SlotAction::Request) ==> after.done == s.done && signal
                == TimeslotSignal::Timer0 && s.counters.start < s.target_count
            &&& after.done && !s.done ==> s.signal_log(signal, log).last() == HwOp::WakeSession
            &&& signal == TimeslotSignal::Timer0 ==> s.answer(signal) is Some && s.answer(signal)
                != Some(SlotAction::Nothing) && (s.answer(signal) == Some(SlotAction::End)
                ==> after.done)
        }),
{
}

} // verus!
