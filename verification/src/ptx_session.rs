//! Opening, driving and reporting PTX timeslot sessions.

use crate::addresses::EsbAddresses;
use crate::config::EsbConfig;
use crate::error::Error;
use crate::mpsl_common;
use crate::mpsl_common::{
    advance_pid, delta_per_pipe, next_pipe_in_mask, write_counter_payload_packet, NUM_PIPES,
};
use crate::mpsl_profile;
use crate::mpsl_profile::{count_pipes, PtxEventConfig, PtxPollConfig, PtxScheduleGateConfig};
use crate::mpsl_schedule;
use crate::mpsl_schedule::ScheduleTrackerSnapshot;
use crate::mpsl_timeslot;
use crate::mpsl_timeslot::{SignalCounters, SlotAction, SlotPriority};
use crate::ptx_schedule;
use crate::ptx_schedule::{PtxSchedule, PtxScheduleCounts};
use crate::radio::EsbRadio;
use crate::slot_ptx;
use crate::slot_ptx::{
    request_earliest, PtxAckCounters, PtxOnDemand, PtxPacket, PtxPhase, PtxPlan, PtxPolling,
    PtxSlotState, PtxSlots, PtxTraffic,
};
use vstd::prelude::*;

verus! {

/// Result of a chain of PTX timeslots.
#[derive(Debug, Clone, Copy, PartialEq, Eq, Structural)]
pub struct PtxSlotResult {
    /// Signals.
    pub counters: SignalCounters,
    /// Packets transmitted.
    pub tx_count: u32,
    /// ACKs received.
    pub ack_ok_count: u32,
    /// ACKs that carried a counter.
    pub ack_payload_count: u32,
    /// ACK counters that went back.
    pub ack_inversions: u32,
    /// Last ACK counter.
    pub last_ack_counter: u32,
}

/// What a poll session reports of one reporting period.
#[derive(Debug, Clone, Copy)]
pub struct PtxPollResult {
    /// Signals.
    pub counters: SignalCounters,
    /// Packets transmitted.
    pub tx_count: u32,
    /// ACKs received.
    pub ack_ok_count: u32,
    /// Packets transmitted per pipe.
    pub tx_per_pipe: [u32; NUM_PIPES],
    /// ACKs received per pipe.
    pub ack_per_pipe: [u32; NUM_PIPES],
    /// ACKs that did not come in time.
    pub ack_timeout_count: u32,
    /// ACKs with a bad CRC.
    pub ack_crc_fail_count: u32,
    /// ACKs that did not come in time, per pipe.
    pub ack_timeout_per_pipe: [u32; NUM_PIPES],
    /// ACKs with a bad CRC, per pipe.
    pub ack_crc_fail_per_pipe: [u32; NUM_PIPES],
    /// ACKs with a valid schedule hint.
    pub schedule_hint_count: u32,
    /// ACKs without one.
    pub schedule_hint_bad_count: u32,
    /// Window of the last hint.
    pub last_schedule_window_id: u32,
    /// What the hints say of the receiver's windows.
    pub schedule: ScheduleTrackerSnapshot,
    /// Slots skipped by the schedule gate.
    pub schedule_skip_count: u32,
    /// Whether the slots are locked to the hints.
    pub schedule_lock_active: bool,
    /// Times the schedule was locked.
    pub schedule_lock_count: u32,
    /// Times the lock was lost.
    pub schedule_reacquire_count: u32,
    /// Misses in a row while locked.
    pub schedule_lock_miss_streak: u8,
    /// Hinted period.
    pub schedule_period_us: u32,
}

/// The counts at the last report.
#[derive(Debug, Clone, Copy)]
pub struct PtxBaseline {
    /// Signals.
    pub counters: SignalCounters,
    /// Packets and ACKs.
    pub traffic: PtxTraffic,
    /// Schedule.
    pub schedule: PtxScheduleCounts,
}

/// A poll session.
#[derive(Debug, Clone, Copy)]
pub struct PtxPollSession {
    /// Identifier of the session.
    pub session_id: u8,
    /// The counts at the last report.
    pub last: PtxBaseline,
}

/// Result of a single send of an on-demand session.
#[derive(Debug, Clone, Copy, PartialEq, Eq, Structural)]
pub struct PtxSendResult {
    /// Whether the packet was acknowledged.
    pub ack_ok: bool,
    /// Signals of this send.
    pub counters: SignalCounters,
}

/// An on-demand session.
#[derive(Debug, Clone, Copy, PartialEq, Eq, Structural)]
pub struct PtxEventSession {
    /// Identifier of the session.
    pub session_id: u8,
    /// PID of the next packet.
    pub pid: u8,
    /// Packets sent.
    pub tx_count: u32,
}

/// Nothing counted.
pub open spec fn no_traffic() -> PtxTraffic {
    PtxTraffic {
        tx_count: 0,
        ack_ok_count: 0,
        tx_per_pipe: [0u32; NUM_PIPES],
        ack_ok_per_pipe: [0u32; NUM_PIPES],
        ack_timeout_count: 0,
        ack_crc_fail_count: 0,
        ack_timeout_per_pipe: [0u32; NUM_PIPES],
        ack_crc_fail_per_pipe: [0u32; NUM_PIPES],
    }
}

/// No ACK counter seen.
pub open spec fn no_ack_counters() -> PtxAckCounters {
    PtxAckCounters { payload_count: 0, inversions: 0, last: 0 }
}

/// No pipe is polled.
pub open spec fn no_polling() -> PtxPolling {
    PtxPolling {
        pipes: 0,
        pipe_mask: 0,
        report_every: 0,
        slots_since_report: 0,
        report_ready: false,
    }
}

/// Nothing reported yet.
pub open spec fn no_baseline() -> PtxBaseline {
    PtxBaseline {
        counters: mpsl_timeslot::no_signals(),
        traffic: no_traffic(),
        schedule: ptx_schedule::no_schedule_counts(),
    }
}

/// A driver that no session has used.
pub open spec fn new_slots(fast_ramp_up: bool) -> PtxSlotState {
    PtxSlotState {
        busy: false,
        done: false,
        request: slot_ptx::earliest(SlotPriority::Normal, 0, 1_000_000),
        action: SlotAction::Nothing,
        plan: PtxPlan {
            slot_length_us: 0,
            in_slot_match_us: 5500,
            request_timeout_us: 1_000_000,
            target_count: 0,
            packets_per_slot: 1,
            max_retries: 3,
            ack_timeout_us: 600,
            retry_blocked_at_high_priority: true,
            config: None,
            addresses: None,
            radio: EsbRadio::fresh(fast_ramp_up),
        },
        counters: mpsl_timeslot::no_signals(),
        traffic: no_traffic(),
        packet: PtxPacket {
            phase: PtxPhase::Idle,
            pid: 0,
            tx_pipe: 0,
            payload_byte: 0,
            sent_this_slot: 0,
            retry_count: 0,
            acked_this_slot: false,
        },
        acks: no_ack_counters(),
        schedule: ptx_schedule::new_schedule(mpsl_profile::gate_disabled()),
        poll: no_polling(),
        event: PtxOnDemand { mode: false, pending: false, result_ready: false, ack_ok: false },
    }
}

/// Whether a session may be opened: the driver must be free, packets must hold a
/// counter, and the session's configuration must be valid.
pub open spec fn admission(busy: bool, config: EsbConfig, valid: bool) -> Result<(), Error> {
    if busy {
        Err(Error::Busy)
    } else if config.payload_length < 4 || !valid {
        Err(Error::InvalidParam)
    } else {
        Ok(())
    }
}

impl PtxSlotState {
    /// Free for the next session.
    pub open spec fn left(self) -> PtxSlotState {
        PtxSlotState { busy: false, ..self }
    }

    /// Ready for a chain of slots.
    pub open spec fn chain_started(
        self,
        config: EsbConfig,
        addresses: EsbAddresses,
        slot_length_us: u32,
        in_slot_match_us: u32,
        count: u32,
        tx_pipe: u8,
        packets_per_slot: u32,
    ) -> PtxSlotState {
        PtxSlotState {
            done: false,
            request: slot_ptx::earliest(SlotPriority::Normal, slot_length_us, 1_000_000),
            plan: PtxPlan {
                slot_length_us,
                in_slot_match_us,
                request_timeout_us: 1_000_000,
                target_count: count,
                packets_per_slot,
                retry_blocked_at_high_priority: true,
                config: Some(config),
                addresses: Some(addresses),
                ..self.plan
            },
            counters: mpsl_timeslot::no_signals(),
            traffic: PtxTraffic { tx_count: 0, ack_ok_count: 0, ..self.traffic },
            packet: PtxPacket {
                phase: PtxPhase::Idle,
                tx_pipe,
                payload_byte: 0,
                sent_this_slot: 0,
                ..self.packet
            },
            acks: no_ack_counters(),
            schedule: ptx_schedule::new_schedule(mpsl_profile::gate_disabled()),
            poll: no_polling(),
            ..self
        }
    }

    /// Ready for a poll session.
    pub open spec fn poll_started(
        self,
        config: EsbConfig,
        addresses: EsbAddresses,
        poll: PtxPollConfig,
    ) -> PtxSlotState {
        PtxSlotState {
            done: false,
            request: slot_ptx::earliest(
                SlotPriority::Normal,
                poll.slot_length_us,
                poll.request.timeout_us,
            ),
            plan: PtxPlan {
                slot_length_us: poll.slot_length_us,
                in_slot_match_us: poll.in_slot_match_us,
                request_timeout_us: poll.request.timeout_us,
                target_count: 0,
                packets_per_slot: 1,
                max_retries: poll.max_retries,
                ack_timeout_us: poll.ack_timeout_us,
                retry_blocked_at_high_priority: poll.request.retry_blocked_at_high_priority,
                config: Some(config),
                addresses: Some(addresses),
                ..self.plan
            },
            counters: mpsl_timeslot::no_signals(),
            traffic: no_traffic(),
            packet: PtxPacket {
                phase: PtxPhase::Idle,
                pid: 0,
                tx_pipe: first_pipe(poll.pipe_mask),
                payload_byte: 0,
                sent_this_slot: 0,
                retry_count: 0,
                acked_this_slot: false,
            },
            acks: no_ack_counters(),
            schedule: ptx_schedule::new_schedule(poll.schedule_gate),
            poll: PtxPolling {
                pipes: mpsl_profile::mask_size(poll.pipe_mask) as u8,
                pipe_mask: poll.pipe_mask,
                report_every: poll.report_every,
                slots_since_report: 0,
                report_ready: false,
            },
            ..self
        }
    }

    /// Ready for an on-demand session.
    pub open spec fn event_started(
        self,
        config: EsbConfig,
        addresses: EsbAddresses,
        event: PtxEventConfig,
    ) -> PtxSlotState {
        PtxSlotState {
            done: false,
            request: slot_ptx::earliest(
                SlotPriority::Normal,
                event.slot_length_us,
                event.request.timeout_us,
            ),
            plan: PtxPlan {
                slot_length_us: event.slot_length_us,
                in_slot_match_us: event.in_slot_match_us,
                request_timeout_us: event.request.timeout_us,
                target_count: 0,
                packets_per_slot: 1,
                max_retries: event.max_retries,
                ack_timeout_us: event.ack_timeout_us,
                retry_blocked_at_high_priority: event.request.retry_blocked_at_high_priority,
                config: Some(config),
                addresses: Some(addresses),
                ..self.plan
            },
            counters: mpsl_timeslot::no_signals(),
            traffic: no_traffic(),
            packet: PtxPacket {
                phase: PtxPhase::Idle,
                pid: 0,
                tx_pipe: event.pipe,
                payload_byte: 0,
                sent_this_slot: 0,
                retry_count: 0,
                acked_this_slot: false,
            },
            acks: no_ack_counters(),
            schedule: ptx_schedule::new_schedule(mpsl_profile::gate_disabled()),
            poll: no_polling(),
            event: PtxOnDemand { mode: true, pending: false, result_ready: false, ack_ok: false },
            ..self
        }
    }

    /// A packet waits for its slot.
    pub open spec fn staged(self) -> PtxSlotState {
        PtxSlotState {
            done: false,
            counters: mpsl_timeslot::no_signals(),
            event: PtxOnDemand { pending: true, result_ready: false, ack_ok: false, ..self.event },
            ..self
        }
    }

    /// The longest payload behind the counter.
    pub open spec fn max_app_payload(self) -> int {
        match self.plan.config {
            Some(c) => if c.payload_length < 4 {
                0
            } else {
                c.payload_length - 4
            },
            None => 0,
        }
    }
}

/// The first pipe of a mask, or 8 for an empty one.
pub open spec fn first_pipe(mask: u8) -> u8 {
    match mpsl_common::next_pipe(7, mask) {
        Some(pipe) => pipe,
        None => 8,
    }
}

impl PtxBaseline {
    /// The counts of a session.
    pub open spec fn of(state: PtxSlotState) -> PtxBaseline {
        PtxBaseline {
            counters: state.counters,
            traffic: state.traffic,
            schedule: state.schedule.counts,
        }
    }
}

/// `report` tells what `state` has gained since `last`, and how its schedule stands.
pub open spec fn reports(report: PtxPollResult, state: PtxSlotState, last: PtxBaseline) -> bool {
    let t = state.traffic;
    let c = state.schedule.counts;
    &&& report.counters == state.counters.since(last.counters)
    &&& report.tx_count == mpsl_schedule::sat_sub(t.tx_count, last.traffic.tx_count)
    &&& report.ack_ok_count == mpsl_schedule::sat_sub(t.ack_ok_count, last.traffic.ack_ok_count)
    &&& report.tx_per_pipe@ == mpsl_common::pipe_deltas(
        t.tx_per_pipe@,
        last.traffic.tx_per_pipe@,
    )
    &&& report.ack_per_pipe@ == mpsl_common::pipe_deltas(
        t.ack_ok_per_pipe@,
        last.traffic.ack_ok_per_pipe@,
    )
    &&& report.ack_timeout_count == mpsl_schedule::sat_sub(
        t.ack_timeout_count,
        last.traffic.ack_timeout_count,
    )
    &&& report.ack_crc_fail_count == mpsl_schedule::sat_sub(
        t.ack_crc_fail_count,
        last.traffic.ack_crc_fail_count,
    )
    &&& report.ack_timeout_per_pipe@ == mpsl_common::pipe_deltas(
        t.ack_timeout_per_pipe@,
        last.traffic.ack_timeout_per_pipe@,
    )
    &&& report.ack_crc_fail_per_pipe@ == mpsl_common::pipe_deltas(
        t.ack_crc_fail_per_pipe@,
        last.traffic.ack_crc_fail_per_pipe@,
    )
    &&& report.schedule_hint_count == mpsl_schedule::sat_sub(
        c.hint_count,
        last.schedule.hint_count,
    )
    &&& report.schedule_hint_bad_count == mpsl_schedule::sat_sub(
        c.hint_bad_count,
        last.schedule.hint_bad_count,
    )
    &&& report.last_schedule_window_id == state.schedule.last_window_id
    &&& report.schedule == c.tracker.snapshot.since(last.schedule.tracker.snapshot)
    &&& report.schedule_skip_count == mpsl_schedule::sat_sub(
        c.skip_count,
        last.schedule.skip_count,
    )
    &&& report.schedule_lock_active == state.schedule.lock_active
    &&& report.schedule_lock_count == mpsl_schedule::sat_sub(
        c.lock_count,
        last.schedule.lock_count,
    )
    &&& report.schedule_reacquire_count == mpsl_schedule::sat_sub(
        c.reacquire_count,
        last.schedule.reacquire_count,
    )
    &&& report.schedule_lock_miss_streak == state.schedule.lock_miss_streak
    &&& report.schedule_period_us == state.schedule.period_us
}

impl PtxTraffic {
    /// Nothing counted.
    pub fn zero() -> (t: Self)
        ensures
            t == no_traffic(),
    {
        PtxTraffic {
            tx_count: 0,
            ack_ok_count: 0,
            tx_per_pipe: [0u32;NUM_PIPES],
            ack_ok_per_pipe: [0u32;NUM_PIPES],
            ack_timeout_count: 0,
            ack_crc_fail_count: 0,
            ack_timeout_per_pipe: [0u32;NUM_PIPES],
            ack_crc_fail_per_pipe: [0u32;NUM_PIPES],
        }
    }
}

impl PtxSlots {
    /// A driver that no session has used.
    pub fn new(fast_ramp_up: bool) -> (s: Self)
        ensures
            s.state == new_slots(fast_ramp_up),
            s.tx@ == Seq::new(256, |i: int| 0u8),
    {
        PtxSlots {
            state: PtxSlotState {
                busy: false,
                done: false,
                request: request_earliest(SlotPriority::Normal, 0, 1_000_000),
                action: SlotAction::Nothing,
                plan: PtxPlan {
                    slot_length_us: 0,
                    in_slot_match_us: 5500,
                    request_timeout_us: 1_000_000,
                    target_count: 0,
                    packets_per_slot: 1,
                    max_retries: 3,
                    ack_timeout_us: 600,
                    retry_blocked_at_high_priority: true,
                    config: None,
                    addresses: None,
                    radio: EsbRadio::new(fast_ramp_up),
                },
                counters: SignalCounters::zero(),
                traffic: PtxTraffic::zero(),
                packet: PtxPacket {
                    phase: PtxPhase::Idle,
                    pid: 0,
                    tx_pipe: 0,
                    payload_byte: 0,
                    sent_this_slot: 0,
                    retry_count: 0,
                    acked_this_slot: false,
                },
                acks: PtxAckCounters { payload_count: 0, inversions: 0, last: 0 },
                schedule: PtxSchedule::new(PtxScheduleGateConfig::disabled()),
                poll: PtxPolling {
                    pipes: 0,
                    pipe_mask: 0,
                    report_every: 0,
                    slots_since_report: 0,
                    report_ready: false,
                },
                event: PtxOnDemand {
                    mode: false,
                    pending: false,
                    result_ready: false,
                    ack_ok: false,
                },
            },
            tx: [0u8;256],
        }
    }

    /// Take the driver into use, if it is free and the configuration allows it.
    fn enter(&mut self, config: &EsbConfig, valid: bool) -> (r: Result<(), Error>)
        ensures
            final(self).tx == old(self).tx,
            r == admission(old(self).state.busy, *config, valid),
            final(self).state == (PtxSlotState {
                busy: old(self).state.busy || r is Ok,
                ..old(self).state
            }),
    {
        if self.state.busy {
            return Err(Error::Busy);
        }
        if config.payload_length < 4 || !valid {
            return Err(Error::InvalidParam);
        }
        self.state.busy = true;
        Ok(())
    }

    /// Take the driver into use for a chain of slots. Where this succeeds, a session
    /// is opened next.
    pub fn enter_chain(&mut self, config: &EsbConfig) -> (r: Result<(), Error>)
        ensures
            final(self).tx == old(self).tx,
            r == admission(old(self).state.busy, *config, true),
            final(self).state == (PtxSlotState {
                busy: old(self).state.busy || r is Ok,
                ..old(self).state
            }),
    {
        self.enter(config, true)
    }

    /// Take the driver into use for a poll session.
    pub fn enter_poll(&mut self, config: &EsbConfig, poll_config: PtxPollConfig) -> (r: Result<
        (),
        Error,
    >)
        ensures
            final(self).tx == old(self).tx,
            r == admission(old(self).state.busy, *config, poll_config.is_valid()),
            final(self).state == (PtxSlotState {
                busy: old(self).state.busy || r is Ok,
                ..old(self).state
            }),
    {
        let valid: bool = poll_config.validate().is_ok();
        self.enter(config, valid)
    }

    /// Take the driver into use for an on-demand session.
    pub fn enter_event(&mut self, config: &EsbConfig, event_config: PtxEventConfig) -> (r: Result<
        (),
        Error,
    >)
        ensures
            final(self).tx == old(self).tx,
            r == admission(old(self).state.busy, *config, event_config.is_valid()),
            final(self).state == (PtxSlotState {
                busy: old(self).state.busy || r is Ok,
                ..old(self).state
            }),
    {
        let valid: bool = event_config.validate().is_ok();
        self.enter(config, valid)
    }

    /// Leave the driver to the next session.
    pub fn leave(&mut self)
        ensures
            final(self).tx == old(self).tx,
            final(self).state == old(self).state.left(),
    {
        self.state.busy = false;
    }

    /// Start a chain of `count` slots, each of which sends one packet. `opened` is
    /// what opening the session returned; the driver is left where that failed.
    /// The state's request is to be submitted next.
    pub fn run_ptx_slots(
        &mut self,
        config: &EsbConfig,
        addresses: &EsbAddresses,
        slot_length_us: u32,
        in_slot_match_us: u32,
        count: u32,
        tx_pipe: u8,
        packets_per_slot: u32,
        opened: Result<u8, Error>,
    ) -> (r: Result<u8, Error>)
        ensures
            r == opened,
            final(self).tx == old(self).tx,
            final(self).state == (if opened is Ok {
                old(self).state.chain_started(
                    *config,
                    *addresses,
                    slot_length_us,
                    in_slot_match_us,
                    count,
                    tx_pipe,
                    packets_per_slot,
                )
            } else {
                old(self).state.left()
            }),
    {
        if opened.is_err() {
            self.leave();
            return opened;
        }
        self.state.done = false;
        self.state.plan =
        PtxPlan {
            slot_length_us,
            in_slot_match_us,
            request_timeout_us: 1_000_000,
            target_count: count,
            packets_per_slot,
            max_retries: self.state.plan.max_retries,
            ack_timeout_us: self.state.plan.ack_timeout_us,
            retry_blocked_at_high_priority: true,
            config: Some(*config),
            addresses: Some(*addresses),
            radio: self.state.plan.radio,
        };
        self.state.counters = SignalCounters::zero();
        self.state.traffic.tx_count = 0;
        self.state.traffic.ack_ok_count = 0;
        self.state.packet =
        PtxPacket {
            phase: PtxPhase::Idle,
            pid: self.state.packet.pid,
            tx_pipe,
            payload_byte: 0,
            sent_this_slot: 0,
            retry_count: self.state.packet.retry_count,
            acked_this_slot: self.state.packet.acked_this_slot,
        };
        self.state.acks = PtxAckCounters { payload_count: 0, inversions: 0, last: 0 };
        self.state.schedule = PtxSchedule::new(PtxScheduleGateConfig::disabled());
        self.state.poll =
        PtxPolling {
            pipes: 0,
            pipe_mask: 0,
            report_every: 0,
            slots_since_report: 0,
            report_ready: false,
        };
        self.state.request = request_earliest(SlotPriority::Normal, slot_length_us, 1_000_000);
        opened
    }

    /// The result of a chain, once it has ended.
    pub fn poll_chain(&self) -> (r: Option<PtxSlotResult>)
        ensures
            r == (if self.state.done {
                Some(
                    PtxSlotResult {
                        counters: self.state.counters,
                        tx_count: self.state.traffic.tx_count,
                        ack_ok_count: self.state.traffic.ack_ok_count,
                        ack_payload_count: self.state.acks.payload_count,
                        ack_inversions: self.state.acks.inversions,
                        last_ack_counter: self.state.acks.last,
                    },
                )
            } else {
                None
            }),
    {
        if self.state.done {
            Some(
                PtxSlotResult {
                    counters: self.state.counters,
                    tx_count: self.state.traffic.tx_count,
                    ack_ok_count: self.state.traffic.ack_ok_count,
                    ack_payload_count: self.state.acks.payload_count,
                    ack_inversions: self.state.acks.inversions,
                    last_ack_counter: self.state.acks.last,
                },
            )
        } else {
            None
        }
    }

    /// Start a session that polls the pipes of a mask in turn. `opened` is what
    /// opening the session returned; the driver is left where that failed. The
    /// state's request is to be submitted next.
    pub fn open_ptx_poll_session(
        &mut self,
        config: &EsbConfig,
        addresses: &EsbAddresses,
        poll_config: PtxPollConfig,
        opened: Result<u8, Error>,
    ) -> (r: Result<PtxPollSession, Error>)
        ensures
            final(self).tx == old(self).tx,
            match opened {
                Ok(session_id) => r == Ok::<PtxPollSession, Error>(
                    PtxPollSession { session_id, last: no_baseline() },
                ) && final(self).state == old(self).state.poll_started(
                    *config,
                    *addresses,
                    poll_config,
                ),
                Err(e) => r == Err::<PtxPollSession, Error>(e) && final(self).state == old(
                    self,
                ).state.left(),
            },
    {
        let session_id: u8 = match opened {
            Ok(session_id) => session_id,
            Err(e) => {
                self.leave();
                return Err(e);
            },
        };
        let tx_pipe: u8 = match next_pipe_in_mask(7, poll_config.pipe_mask) {
            Some(pipe) => pipe,
            None => 8,
        };
        self.state.done = false;
        self.state.plan =
        PtxPlan {
            slot_length_us: poll_config.slot_length_us,
            in_slot_match_us: poll_config.in_slot_match_us,
            request_timeout_us: poll_config.request.timeout_us,
            target_count: 0,
            packets_per_slot: 1,
            max_retries: poll_config.max_retries,
            ack_timeout_us: poll_config.ack_timeout_us,
            retry_blocked_at_high_priority: poll_config.request.retry_blocked_at_high_priority,
            config: Some(*config),
            addresses: Some(*addresses),
            radio: self.state.plan.radio,
        };
        self.state.counters = SignalCounters::zero();
        self.reset_traffic(tx_pipe);
        self.state.schedule = PtxSchedule::new(poll_config.schedule_gate);
        self.state.poll =
        PtxPolling {
            pipes: count_pipes(poll_config.pipe_mask) as u8,
            pipe_mask: poll_config.pipe_mask,
            report_every: poll_config.report_every,
            slots_since_report: 0,
            report_ready: false,
        };
        self.state.request =
        request_earliest(
            SlotPriority::Normal,
            poll_config.slot_length_us,
            poll_config.request.timeout_us,
        );
        Ok(
            PtxPollSession {
                session_id,
                last: PtxBaseline {
                    counters: SignalCounters::zero(),
                    traffic: PtxTraffic::zero(),
                    schedule: PtxScheduleCounts::zero(),
                },
            },
        )
    }

    /// Forget the packets of an earlier session.
    fn reset_traffic(&mut self, tx_pipe: u8)
        ensures
            final(self).tx == old(self).tx,
            final(self).state == (PtxSlotState {
                traffic: no_traffic(),
                packet: PtxPacket {
                    phase: PtxPhase::Idle,
                    pid: 0,
                    tx_pipe,
                    payload_byte: 0,
                    sent_this_slot: 0,
                    retry_count: 0,
                    acked_this_slot: false,
                },
                acks: no_ack_counters(),
                ..old(self).state
            }),
    {
        self.state.traffic = PtxTraffic::zero();
        self.state.packet =
        PtxPacket {
            phase: PtxPhase::Idle,
            pid: 0,
            tx_pipe,
            payload_byte: 0,
            sent_this_slot: 0,
            retry_count: 0,
            acked_this_slot: false,
        };
        self.state.acks = PtxAckCounters { payload_count: 0, inversions: 0, last: 0 };
    }

    /// Start a session that sends on demand. `opened` is what opening the session
    /// returned; the driver is left where that failed. Nothing is requested yet.
    pub fn open_event_session(
        &mut self,
        config: &EsbConfig,
        addresses: &EsbAddresses,
        event_config: PtxEventConfig,
        opened: Result<u8, Error>,
    ) -> (r: Result<PtxEventSession, Error>)
        ensures
            final(self).tx == old(self).tx,
            match opened {
                Ok(session_id) => r == Ok::<PtxEventSession, Error>(
                    PtxEventSession { session_id, pid: 0, tx_count: 0 },
                ) && final(self).state == old(self).state.event_started(
                    *config,
                    *addresses,
                    event_config,
                ),
                Err(e) => r == Err::<PtxEventSession, Error>(e) && final(self).state == old(
                    self,
                ).state.left(),
            },
    {
        let session_id: u8 = match opened {
            Ok(session_id) => session_id,
            Err(e) => {
                self.leave();
                return Err(e);
            },
        };
        self.state.done = false;
        self.state.plan =
        PtxPlan {
            slot_length_us: event_config.slot_length_us,
            in_slot_match_us: event_config.in_slot_match_us,
            request_timeout_us: event_config.request.timeout_us,
            target_count: 0,
            packets_per_slot: 1,
            max_retries: event_config.max_retries,
            ack_timeout_us: event_config.ack_timeout_us,
            retry_blocked_at_high_priority: event_config.request.retry_blocked_at_high_priority,
            config: Some(*config),
            addresses: Some(*addresses),
            radio: self.state.plan.radio,
        };
        self.state.counters = SignalCounters::zero();
        self.reset_traffic(event_config.pipe);
        self.state.schedule = PtxSchedule::new(PtxScheduleGateConfig::disabled());
        self.state.poll =
        PtxPolling {
            pipes: 0,
            pipe_mask: 0,
            report_every: 0,
            slots_since_report: 0,
            report_ready: false,
        };
        self.state.event =
        PtxOnDemand { mode: true, pending: false, result_ready: false, ack_ok: false };
        self.state.request =
        request_earliest(
            SlotPriority::Normal,
            event_config.slot_length_us,
            event_config.request.timeout_us,
        );
        Ok(PtxEventSession { session_id, pid: 0, tx_count: 0 })
    }

    /// The service layer refused the first request of a session: its error, with
    /// the driver left.
    pub fn first_request_refused(&mut self, e: Error) -> (r: Error)
        ensures
            r == e,
            final(self).tx == old(self).tx,
            final(self).state == old(self).state.left(),
    {
        self.leave();
        e
    }

    /// Close an on-demand session.
    pub fn close_event_session(&mut self)
        ensures
            final(self).tx == old(self).tx,
            final(self).state == (PtxSlotState {
                event: PtxOnDemand { mode: false, pending: false, ..old(self).state.event },
                ..old(self).state
            }).left(),
    {
        self.state.event.mode = false;
        self.state.event.pending = false;
        self.leave();
    }
}

impl PtxPollSession {
    /// What the session has gained since the last report.
    fn report(&self, state: &PtxSlotState) -> (r: PtxPollResult)
        ensures
            reports(r, *state, self.last),
    {
        let t = state.traffic;
        let c = state.schedule.counts;
        let last = self.last;
        PtxPollResult {
            counters: state.counters.saturating_sub(last.counters),
            tx_count: t.tx_count.saturating_sub(last.traffic.tx_count),
            ack_ok_count: t.ack_ok_count.saturating_sub(last.traffic.ack_ok_count),
            tx_per_pipe: delta_per_pipe(&t.tx_per_pipe, &last.traffic.tx_per_pipe),
            ack_per_pipe: delta_per_pipe(&t.ack_ok_per_pipe, &last.traffic.ack_ok_per_pipe),
            ack_timeout_count: t.ack_timeout_count.saturating_sub(last.traffic.ack_timeout_count),
            ack_crc_fail_count: t.ack_crc_fail_count.saturating_sub(
                last.traffic.ack_crc_fail_count,
            ),
            ack_timeout_per_pipe: delta_per_pipe(
                &t.ack_timeout_per_pipe,
                &last.traffic.ack_timeout_per_pipe,
            ),
            ack_crc_fail_per_pipe: delta_per_pipe(
                &t.ack_crc_fail_per_pipe,
                &last.traffic.ack_crc_fail_per_pipe,
            ),
            schedule_hint_count: c.hint_count.saturating_sub(last.schedule.hint_count),
            schedule_hint_bad_count: c.hint_bad_count.saturating_sub(last.schedule.hint_bad_count),
            last_schedule_window_id: state.schedule.last_window_id,
            schedule: c.tracker.snapshot().saturating_sub(last.schedule.tracker.snapshot()),
            schedule_skip_count: c.skip_count.saturating_sub(last.schedule.skip_count),
            schedule_lock_active: state.schedule.lock_active,
            schedule_lock_count: c.lock_count.saturating_sub(last.schedule.lock_count),
            schedule_reacquire_count: c.reacquire_count.saturating_sub(
                last.schedule.reacquire_count,
            ),
            schedule_lock_miss_streak: state.schedule.lock_miss_streak,
            schedule_period_us: state.schedule.period_us,
        }
    }

    /// The next report, if it is due; an error once the session has ended.
    pub fn next_report(&mut self, slots: &mut PtxSlots) -> (r: Option<
        Result<PtxPollResult, Error>,
    >)
        ensures
            final(slots).tx == old(slots).tx,
            final(self).session_id == old(self).session_id,
            old(slots).state.done ==> {
                &&& r == Some(Err::<PtxPollResult, Error>(Error::Mpsl))
                &&& *final(self) == *old(self)
                &&& final(slots).state == old(slots).state
            },
            !old(slots).state.done && !old(slots).state.poll.report_ready ==> {
                &&& r is None
                &&& *final(self) == *old(self)
                &&& final(slots).state == old(slots).state
            },
            !old(slots).state.done && old(slots).state.poll.report_ready ==> {
                &&& r matches Some(Ok(report)) && reports(
                    report,
                    old(slots).state,
                    old(self).last,
                )
                &&& final(self).last == PtxBaseline::of(old(slots).state)
                &&& final(slots).state == (PtxSlotState {
                    poll: PtxPolling { report_ready: false, ..old(slots).state.poll },
                    ..old(slots).state
                })
            },
    {
        if slots.state.done {
            return Some(Err(Error::Mpsl));
        }
        if !slots.state.poll.report_ready {
            return None;
        }
        let report = self.report(&slots.state);
        slots.state.poll.report_ready = false;
        self.last =
        PtxBaseline {
            counters: slots.state.counters,
            traffic: slots.state.traffic,
            schedule: slots.state.schedule.counts,
        };
        Some(Ok(report))
    }
}

impl PtxEventSession {
    /// Stage a packet: its counter and `payload`. Where this succeeds, the state's
    /// request is submitted next, and the result awaited.
    pub fn send(&self, payload: &[u8], slots: &mut PtxSlots) -> (r: Result<(), Error>)
        ensures
            r == (if payload@.len() > old(slots).state.max_app_payload() || payload@.len() > 248 {
                Err::<(), Error>(Error::InvalidParam)
            } else {
                Ok(())
            }),
            r is Ok ==> final(slots).state == old(slots).state.staged() && final(slots).tx@
                == mpsl_common::counter_payload_packet(
                old(slots).tx@,
                self.pid,
                self.tx_count,
                payload@,
            ),
            r is Err ==> final(slots).state == old(slots).state && final(slots).tx@ == old(slots).tx@,
    {
        let max_app_payload: usize = match slots.state.plan.config {
            Some(c) => (c.payload_length as usize).saturating_sub(4),
            None => 0,
        };
        if payload.len() > max_app_payload {
            return Err(Error::InvalidParam);
        }
        if !write_counter_payload_packet(&mut slots.tx, self.pid, self.tx_count, payload) {
            return Err(Error::InvalidParam);
        }
        slots.state.event.pending = true;
        slots.state.event.result_ready = false;
        slots.state.event.ack_ok = false;
        slots.state.done = false;
        slots.state.counters = SignalCounters::zero();
        Ok(())
    }

    /// The service layer refused the request of a staged packet: its error, with
    /// the packet no longer staged.
    pub fn send_refused(&self, e: Error, slots: &mut PtxSlots) -> (r: Error)
        ensures
            r == e,
            final(slots).tx == old(slots).tx,
            final(slots).state == (PtxSlotState {
                event: PtxOnDemand {
                    pending: false,
                    result_ready: false,
                    ack_ok: false,
                    ..old(slots).state.event
                },
                ..old(slots).state
            }),
    {
        slots.state.event.pending = false;
        slots.state.event.result_ready = false;
        slots.state.event.ack_ok = false;
        e
    }

    /// The result of a send, once it is there; an error if the session ended first.
    /// An acknowledged packet is followed by one with the next PID.
    pub fn poll_send(&mut self, slots: &mut PtxSlots) -> (r: Option<Result<PtxSendResult, Error>>)
        requires
            old(self).tx_count < u32::MAX,
        ensures
            final(slots).tx == old(slots).tx,
            final(self).session_id == old(self).session_id,
            old(slots).state.event.result_ready ==> {
                &&& r == Some(
                    Ok::<PtxSendResult, Error>(
                        PtxSendResult {
                            ack_ok: old(slots).state.event.ack_ok,
                            counters: old(slots).state.counters,
                        },
                    ),
                )
                &&& final(self).tx_count == old(self).tx_count + 1
                &&& final(self).pid == (if old(slots).state.event.ack_ok {
                    ((old(self).pid + 1) % 4) as u8
                } else {
                    old(self).pid
                })
                &&& final(slots).state == (PtxSlotState {
                    event: PtxOnDemand {
                        result_ready: false,
                        pending: false,
                        ..old(slots).state.event
                    },
                    ..old(slots).state
                })
            },
            !old(slots).state.event.result_ready ==> {
                &&& r == (if old(slots).state.done {
                    Some(Err::<PtxSendResult, Error>(Error::Mpsl))
                } else {
                    None
                })
                &&& *final(self) == *old(self)
                &&& final(slots).state == old(slots).state
            },
    {
        if !slots.state.event.result_ready {
            if slots.state.done {
                return Some(Err(Error::Mpsl));
            }
            return None;
        }
        let ack_ok: bool = slots.state.event.ack_ok;
        if ack_ok {
            self.pid = advance_pid(self.pid);
        }
        self.tx_count = self.tx_count + 1;
        slots.state.event.result_ready = false;
        slots.state.event.pending = false;
        Some(Ok(PtxSendResult { ack_ok, counters: slots.state.counters }))
    }
}

} // verus!
