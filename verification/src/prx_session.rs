//! Opening, driving and reporting PRX timeslot sessions.

use crate::addresses::EsbAddresses;
use crate::config::EsbConfig;
use crate::error::Error;
use crate::mpsl_common;
use crate::mpsl_common::{delta_per_pipe, NUM_PIPES};
use crate::mpsl_profile::{PrxScheduleConfig, PrxSlotConfig};
use crate::mpsl_radio::RadioRecoveryPolicy;
use crate::mpsl_schedule;
use crate::mpsl_timeslot;
use crate::mpsl_timeslot::{SignalCounters, SlotAction, SlotPriority};
use crate::ptx_session;
use crate::radio::EsbRadio;
use crate::slot_prx::{
    PrxPhase, PrxProgress, PrxRequests, PrxSlotPlan, PrxSlotState, PrxSlots, PrxTraffic,
    PRX_REQ_EARLIEST,
};
use crate::slot_ptx;
use crate::slot_ptx::request_earliest;
use vstd::prelude::*;

verus! {

/// What a PRX session reports.
#[derive(Debug, Clone, Copy)]
pub struct PrxSlotResult {
    /// Signals.
    pub counters: SignalCounters,
    /// New packets.
    pub rx_count: u32,
    /// Repeated packets.
    pub dup_count: u32,
    /// Packets with a bad CRC.
    pub bad_crc_count: u32,
    /// New packets per pipe.
    pub rx_per_pipe: [u32; NUM_PIPES],
    /// Repeated packets per pipe.
    pub dup_per_pipe: [u32; NUM_PIPES],
    /// Packets with a bad CRC per pipe.
    pub bad_crc_per_pipe: [u32; NUM_PIPES],
    /// ACKs per pipe.
    pub ack_tx_per_pipe: [u32; NUM_PIPES],
    /// Length of a slot.
    pub slot_length_us: u32,
    /// When a slot ends.
    pub in_slot_match_us: u32,
    /// Slots per report.
    pub report_every: u32,
    /// Number of the phase within the slot.
    pub phase: u8,
    /// Whether a slot is running.
    pub slot_active: bool,
    /// Kind of the last request.
    pub last_request_kind: u8,
    /// Blocked requests for a slot at a distance.
    pub normal_blocked: u32,
    /// Blocked requests for the earliest slot.
    pub earliest_blocked: u32,
    /// Cancelled requests for a slot at a distance.
    pub normal_cancelled: u32,
    /// Cancelled requests for the earliest slot.
    pub earliest_cancelled: u32,
}

/// The counts at the last report.
#[derive(Debug, Clone, Copy)]
pub struct PrxBaseline {
    /// Signals.
    pub counters: SignalCounters,
    /// Packets.
    pub traffic: PrxTraffic,
    /// Failed requests.
    pub requests: PrxRequests,
}

/// A long-lived PRX session, which chains slots without end.
#[derive(Debug, Clone, Copy)]
pub struct PrxSlotSession {
    /// Identifier of the session.
    pub session_id: u8,
    /// The counts at the last report.
    pub last: PrxBaseline,
}

/// Nothing counted.
pub open spec fn no_prx_traffic() -> PrxTraffic {
    PrxTraffic {
        rx_count: 0,
        dup_count: 0,
        bad_crc_count: 0,
        rx_per_pipe: [0u32; NUM_PIPES],
        dup_per_pipe: [0u32; NUM_PIPES],
        bad_crc_per_pipe: [0u32; NUM_PIPES],
        ack_tx_per_pipe: [0u32; NUM_PIPES],
    }
}

/// No request has failed.
pub open spec fn no_failed_requests() -> PrxRequests {
    PrxRequests {
        last_kind: PRX_REQ_EARLIEST,
        normal_blocked: 0,
        earliest_blocked: 0,
        normal_cancelled: 0,
        earliest_cancelled: 0,
    }
}

/// Nothing has happened.
pub open spec fn no_progress() -> PrxProgress {
    PrxProgress {
        phase: PrxPhase::Idle,
        slot_active: false,
        last_report_start: 0,
        report_ready: false,
        windows_since_gap: 0,
    }
}

/// Nothing reported yet.
pub open spec fn no_prx_baseline() -> PrxBaseline {
    PrxBaseline {
        counters: mpsl_timeslot::no_signals(),
        traffic: no_prx_traffic(),
        requests: no_failed_requests(),
    }
}

/// Windows follow each other without a gap.
pub open spec fn continuous() -> PrxScheduleConfig {
    PrxScheduleConfig { normal_distance_us: 0, gap_after_windows: 0, gap_distance_us: 0 }
}

/// A driver that no session has used.
pub open spec fn new_prx_slots(fast_ramp_up: bool) -> PrxSlotState {
    PrxSlotState {
        busy: false,
        done: false,
        request: slot_ptx::earliest(SlotPriority::Normal, 0, 1_000_000),
        action: SlotAction::Nothing,
        plan: PrxSlotPlan {
            slot_length_us: 0,
            in_slot_match_us: 5500,
            request_timeout_us: 1_000_000,
            target_count: 0,
            config: None,
            addresses: None,
            enabled_pipes: 0x01,
            recovery_policy: RadioRecoveryPolicy::ForceResetAfterBoundedDisable,
            report_every: 0,
            schedule: continuous(),
            retry_blocked_at_high_priority: true,
        },
        radio: EsbRadio::fresh(fast_ramp_up),
        counters: mpsl_timeslot::no_signals(),
        traffic: no_prx_traffic(),
        requests: no_failed_requests(),
        progress: no_progress(),
        ack_counter: [0u32; NUM_PIPES],
    }
}

impl PrxSlotState {
    /// Free for the next session.
    pub open spec fn left(self) -> PrxSlotState {
        PrxSlotState { busy: false, ..self }
    }

    /// Ready for a session: nothing is known of earlier packets.
    pub open spec fn started(self, plan: PrxSlotPlan) -> PrxSlotState {
        PrxSlotState {
            busy: self.busy,
            done: false,
            request: slot_ptx::earliest(
                SlotPriority::Normal,
                plan.slot_length_us,
                plan.request_timeout_us,
            ),
            action: self.action,
            plan,
            radio: EsbRadio::fresh(self.radio.fast_ramp_up),
            counters: mpsl_timeslot::no_signals(),
            traffic: no_prx_traffic(),
            requests: no_failed_requests(),
            progress: no_progress(),
            ack_counter: [0u32; NUM_PIPES],
        }
    }

    /// The plan of a chain of slots.
    pub open spec fn chain_plan(
        self,
        config: EsbConfig,
        addresses: EsbAddresses,
        slot_length_us: u32,
        in_slot_match_us: u32,
        count: u32,
        enabled_pipes: u8,
    ) -> PrxSlotPlan {
        PrxSlotPlan {
            slot_length_us,
            in_slot_match_us,
            request_timeout_us: 1_000_000,
            target_count: count,
            config: Some(config),
            addresses: Some(addresses),
            enabled_pipes,
            recovery_policy: self.plan.recovery_policy,
            report_every: 0,
            schedule: continuous(),
            retry_blocked_at_high_priority: true,
        }
    }
}

/// The plan of a long-lived session.
pub open spec fn session_plan(
    config: EsbConfig,
    addresses: EsbAddresses,
    slot: PrxSlotConfig,
) -> PrxSlotPlan {
    PrxSlotPlan {
        slot_length_us: slot.slot_length_us,
        in_slot_match_us: slot.in_slot_match_us,
        request_timeout_us: slot.request.timeout_us,
        target_count: 0,
        config: Some(config),
        addresses: Some(addresses),
        enabled_pipes: slot.enabled_pipes,
        recovery_policy: slot.recovery,
        report_every: slot.report_every,
        schedule: slot.schedule,
        retry_blocked_at_high_priority: slot.request.retry_blocked_at_high_priority,
    }
}

impl PrxBaseline {
    /// The counts of a session.
    pub open spec fn of(state: PrxSlotState) -> PrxBaseline {
        PrxBaseline { counters: state.counters, traffic: state.traffic, requests: state.requests }
    }
}

/// `report` tells what `state` has gained since `last`, and how it stands.
pub open spec fn prx_reports(report: PrxSlotResult, state: PrxSlotState, last: PrxBaseline) -> bool {
    let t = state.traffic;
    let q = state.requests;
    &&& report.counters == state.counters.since(last.counters)
    &&& report.rx_count == mpsl_schedule::sat_sub(t.rx_count, last.traffic.rx_count)
    &&& report.dup_count == mpsl_schedule::sat_sub(t.dup_count, last.traffic.dup_count)
    &&& report.bad_crc_count == mpsl_schedule::sat_sub(
        t.bad_crc_count,
        last.traffic.bad_crc_count,
    )
    &&& report.rx_per_pipe@ == mpsl_common::pipe_deltas(
        t.rx_per_pipe@,
        last.traffic.rx_per_pipe@,
    )
    &&& report.dup_per_pipe@ == mpsl_common::pipe_deltas(
        t.dup_per_pipe@,
        last.traffic.dup_per_pipe@,
    )
    &&& report.bad_crc_per_pipe@ == mpsl_common::pipe_deltas(
        t.bad_crc_per_pipe@,
        last.traffic.bad_crc_per_pipe@,
    )
    &&& report.ack_tx_per_pipe@ == mpsl_common::pipe_deltas(
        t.ack_tx_per_pipe@,
        last.traffic.ack_tx_per_pipe@,
    )
    &&& report.slot_length_us == state.plan.slot_length_us
    &&& report.in_slot_match_us == state.plan.in_slot_match_us
    &&& report.report_every == state.plan.report_every
    &&& report.phase == state.progress.phase.number()
    &&& report.slot_active == state.progress.slot_active
    &&& report.last_request_kind == q.last_kind
    &&& report.normal_blocked == mpsl_schedule::sat_sub(
        q.normal_blocked,
        last.requests.normal_blocked,
    )
    &&& report.earliest_blocked == mpsl_schedule::sat_sub(
        q.earliest_blocked,
        last.requests.earliest_blocked,
    )
    &&& report.normal_cancelled == mpsl_schedule::sat_sub(
        q.normal_cancelled,
        last.requests.normal_cancelled,
    )
    &&& report.earliest_cancelled == mpsl_schedule::sat_sub(
        q.earliest_cancelled,
        last.requests.earliest_cancelled,
    )
}

/// What a chain reports at its end: everything it has counted.
pub open spec fn chain_result(state: PrxSlotState) -> PrxSlotResult {
    PrxSlotResult {
        counters: state.counters,
        rx_count: state.traffic.rx_count,
        dup_count: state.traffic.dup_count,
        bad_crc_count: state.traffic.bad_crc_count,
        rx_per_pipe: state.traffic.rx_per_pipe,
        dup_per_pipe: state.traffic.dup_per_pipe,
        bad_crc_per_pipe: state.traffic.bad_crc_per_pipe,
        ack_tx_per_pipe: state.traffic.ack_tx_per_pipe,
        slot_length_us: state.plan.slot_length_us,
        in_slot_match_us: state.plan.in_slot_match_us,
        report_every: state.plan.report_every,
        phase: state.progress.phase.number(),
        slot_active: state.progress.slot_active,
        last_request_kind: state.requests.last_kind,
        normal_blocked: state.requests.normal_blocked,
        earliest_blocked: state.requests.earliest_blocked,
        normal_cancelled: state.requests.normal_cancelled,
        earliest_cancelled: state.requests.earliest_cancelled,
    }
}

impl PrxTraffic {
    /// Nothing counted.
    pub fn zero() -> (t: Self)
        ensures
            t == no_prx_traffic(),
    {
        PrxTraffic {
            rx_count: 0,
            dup_count: 0,
            bad_crc_count: 0,
            rx_per_pipe: [0u32;NUM_PIPES],
            dup_per_pipe: [0u32;NUM_PIPES],
            bad_crc_per_pipe: [0u32;NUM_PIPES],
            ack_tx_per_pipe: [0u32;NUM_PIPES],
        }
    }
}

impl PrxRequests {
    /// No request has failed.
    pub fn zero() -> (q: Self)
        ensures
            q == no_failed_requests(),
    {
        PrxRequests {
            last_kind: PRX_REQ_EARLIEST,
            normal_blocked: 0,
            earliest_blocked: 0,
            normal_cancelled: 0,
            earliest_cancelled: 0,
        }
    }
}

impl PrxProgress {
    /// Nothing has happened.
    pub fn zero() -> (p: Self)
        ensures
            p == no_progress(),
    {
        PrxProgress {
            phase: PrxPhase::Idle,
            slot_active: false,
            last_report_start: 0,
            report_ready: false,
            windows_since_gap: 0,
        }
    }
}

impl PrxSlots {
    /// A driver that no session has used.
    pub fn new(fast_ramp_up: bool) -> (s: Self)
        ensures
            s.state == new_prx_slots(fast_ramp_up),
            s.ack@ == Seq::new(256, |i: int| 0u8),
    {
        PrxSlots {
            state: PrxSlotState {
                busy: false,
                done: false,
                request: request_earliest(SlotPriority::Normal, 0, 1_000_000),
                action: SlotAction::Nothing,
                plan: PrxSlotPlan {
                    slot_length_us: 0,
                    in_slot_match_us: 5500,
                    request_timeout_us: 1_000_000,
                    target_count: 0,
                    config: None,
                    addresses: None,
                    enabled_pipes: 0x01,
                    recovery_policy: RadioRecoveryPolicy::ForceResetAfterBoundedDisable,
                    report_every: 0,
                    schedule: PrxScheduleConfig::continuous(),
                    retry_blocked_at_high_priority: true,
                },
                radio: EsbRadio::new(fast_ramp_up),
                counters: SignalCounters::zero(),
                traffic: PrxTraffic::zero(),
                requests: PrxRequests::zero(),
                progress: PrxProgress::zero(),
                ack_counter: [0u32;NUM_PIPES],
            },
            ack: [0u8;256],
        }
    }

    /// Take the driver into use, if it is free and the configuration allows it.
    fn enter(&mut self, config: &EsbConfig, valid: bool) -> (r: Result<(), Error>)
        ensures
            final(self).ack == old(self).ack,
            r == ptx_session::admission(old(self).state.busy, *config, valid),
            final(self).state == (PrxSlotState {
                busy: old(self).state.busy || r is Ok,
                ..old(self).state
            }),
    {
        if self.state.busy {
            return Err(Error::Busy);
        }
        if config.payload_length < 4 || !valid {
            return Err(Error::InvalidParam);
        }
        self.state.busy = true;
        Ok(())
    }

    /// Take the driver into use for a chain of slots. Where this succeeds, a session
    /// is opened next.
    pub fn enter_chain(&mut self, config: &EsbConfig) -> (r: Result<(), Error>)
        ensures
            final(self).ack == old(self).ack,
            r == ptx_session::admission(old(self).state.busy, *config, true),
            final(self).state == (PrxSlotState {
                busy: old(self).state.busy || r is Ok,
                ..old(self).state
            }),
    {
        self.enter(config, true)
    }

    /// Take the driver into use for a long-lived session.
    pub fn enter_session(&mut self, config: &EsbConfig, slot_config: PrxSlotConfig) -> (r: Result<
        (),
        Error,
    >)
        ensures
            final(self).ack == old(self).ack,
            r == ptx_session::admission(old(self).state.busy, *config, slot_config.is_valid()),
            final(self).state == (PrxSlotState {
                busy: old(self).state.busy || r is Ok,
                ..old(self).state
            }),
    {
        let valid: bool = slot_config.validate().is_ok();
        self.enter(config, valid)
    }

    /// Leave the driver to the next session.
    pub fn leave(&mut self)
        ensures
            final(self).ack == old(self).ack,
            final(self).state == old(self).state.left(),
    {
        self.state.busy = false;
    }

    /// The service layer refused the first request of a session: its error, with
    /// the driver left.
    pub fn first_request_refused(&mut self, e: Error) -> (r: Error)
        ensures
            r == e,
            final(self).ack == old(self).ack,
            final(self).state == old(self).state.left(),
    {
        self.leave();
        e
    }

    /// Start a session.
    fn start(&mut self, plan: PrxSlotPlan)
        ensures
            final(self).ack == old(self).ack,
            final(self).state == old(self).state.started(plan),
    {
        self.state.done = false;
        self.state.request =
        request_earliest(SlotPriority::Normal, plan.slot_length_us, plan.request_timeout_us);
        self.state.plan = plan;
        self.state.radio.reset_detection_state();
        self.state.counters = SignalCounters::zero();
        self.state.traffic = PrxTraffic::zero();
        self.state.requests = PrxRequests::zero();
        self.state.progress = PrxProgress::zero();
        self.state.ack_counter = [0u32;NUM_PIPES];
    }

    /// Start a chain of `count` windows. `opened` is what opening the session
    /// returned; the driver is left where that failed. The state's request is to be
    /// submitted next.
    pub fn run_prx_slots(
        &mut self,
        config: &EsbConfig,
        addresses: &EsbAddresses,
        slot_length_us: u32,
        in_slot_match_us: u32,
        count: u32,
        enabled_pipes: u8,
        opened: Result<u8, Error>,
    ) -> (r: Result<u8, Error>)
        ensures
            r == opened,
            final(self).ack == old(self).ack,
            final(self).state == (if opened is Ok {
                old(self).state.started(
                    old(self).state.chain_plan(
                        *config,
                        *addresses,
                        slot_length_us,
                        in_slot_match_us,
                        count,
                        enabled_pipes,
                    ),
                )
            } else {
                old(self).state.left()
            }),
    {
        if opened.is_err() {
            self.leave();
            return opened;
        }
        self.start(
            PrxSlotPlan {
                slot_length_us,
                in_slot_match_us,
                request_timeout_us: 1_000_000,
                target_count: count,
                config: Some(*config),
                addresses: Some(*addresses),
                enabled_pipes,
                recovery_policy: self.state.plan.recovery_policy,
                report_every: 0,
                schedule: PrxScheduleConfig::continuous(),
                retry_blocked_at_high_priority: true,
            },
        );
        opened
    }

    /// The result of a chain, once it has ended.
    pub fn poll_chain(&self) -> (r: Option<PrxSlotResult>)
        ensures
            r == (if self.state.done {
                Some(chain_result(self.state))
            } else {
                None
            }),
    {
        if !self.state.done {
            return None;
        }
        let t = self.state.traffic;
        let q = self.state.requests;
        Some(
            PrxSlotResult {
                counters: self.state.counters,
                rx_count: t.rx_count,
                dup_count: t.dup_count,
                bad_crc_count: t.bad_crc_count,
                rx_per_pipe: t.rx_per_pipe,
                dup_per_pipe: t.dup_per_pipe,
                bad_crc_per_pipe: t.bad_crc_per_pipe,
                ack_tx_per_pipe: t.ack_tx_per_pipe,
                slot_length_us: self.state.plan.slot_length_us,
                in_slot_match_us: self.state.plan.in_slot_match_us,
                report_every: self.state.plan.report_every,
                phase: self.state.progress.phase.as_u8(),
                slot_active: self.state.progress.slot_active,
                last_request_kind: q.last_kind,
                normal_blocked: q.normal_blocked,
                earliest_blocked: q.earliest_blocked,
                normal_cancelled: q.normal_cancelled,
                earliest_cancelled: q.earliest_cancelled,
            },
        )
    }

    /// Start a session that chains windows without end. `opened` is what opening the
    /// session returned; the driver is left where that failed. The state's request
    /// is to be submitted next.
    pub fn open_prx_session(
        &mut self,
        config: &EsbConfig,
        addresses: &EsbAddresses,
        slot_config: PrxSlotConfig,
        opened: Result<u8, Error>,
    ) -> (r: Result<PrxSlotSession, Error>)
        ensures
            final(self).ack == old(self).ack,
            match opened {
                Ok(session_id) => r == Ok::<PrxSlotSession, Error>(
                    PrxSlotSession { session_id, last: no_prx_baseline() },
                ) && final(self).state == old(self).state.started(
                    session_plan(*config, *addresses, slot_config),
                ),
                Err(e) => r == Err::<PrxSlotSession, Error>(e) && final(self).state == old(
                    self,
                ).state.left(),
            },
    {
        let session_id: u8 = match opened {
            Ok(session_id) => session_id,
            Err(e) => {
                self.leave();
                return Err(e);
            },
        };
        self.start(
            PrxSlotPlan {
                slot_length_us: slot_config.slot_length_us,
                in_slot_match_us: slot_config.in_slot_match_us,
                request_timeout_us: slot_config.request.timeout_us,
                target_count: 0,
                config: Some(*config),
                addresses: Some(*addresses),
                enabled_pipes: slot_config.enabled_pipes,
                recovery_policy: slot_config.recovery,
                report_every: slot_config.report_every,
                schedule: slot_config.schedule,
                retry_blocked_at_high_priority: slot_config.request.retry_blocked_at_high_priority,
            },
        );
        Ok(
            PrxSlotSession {
                session_id,
                last: PrxBaseline {
                    counters: SignalCounters::zero(),
                    traffic: PrxTraffic::zero(),
                    requests: PrxRequests::zero(),
                },
            },
        )
    }
}

impl PrxSlotSession {
    /// What the session has gained since the last report.
    fn report(&self, state: &PrxSlotState) -> (r: PrxSlotResult)
        ensures
            prx_reports(r, *state, self.last),
    {
        let t = state.traffic;
        let q = state.requests;
        let last = self.last;
        PrxSlotResult {
            counters: state.counters.saturating_sub(last.counters),
            rx_count: t.rx_count.saturating_sub(last.traffic.rx_count),
            dup_count: t.dup_count.saturating_sub(last.traffic.dup_count),
            bad_crc_count: t.bad_crc_count.saturating_sub(last.traffic.bad_crc_count),
            rx_per_pipe: delta_per_pipe(&t.rx_per_pipe, &last.traffic.rx_per_pipe),
            dup_per_pipe: delta_per_pipe(&t.dup_per_pipe, &last.traffic.dup_per_pipe),
            bad_crc_per_pipe: delta_per_pipe(&t.bad_crc_per_pipe, &last.traffic.bad_crc_per_pipe),
            ack_tx_per_pipe: delta_per_pipe(&t.ack_tx_per_pipe, &last.traffic.ack_tx_per_pipe),
            slot_length_us: state.plan.slot_length_us,
            in_slot_match_us: state.plan.in_slot_match_us,
            report_every: state.plan.report_every,
            phase: state.progress.phase.as_u8(),
            slot_active: state.progress.slot_active,
            last_request_kind: q.last_kind,
            normal_blocked: q.normal_blocked.saturating_sub(last.requests.normal_blocked),
            earliest_blocked: q.earliest_blocked.saturating_sub(last.requests.earliest_blocked),
            normal_cancelled: q.normal_cancelled.saturating_sub(last.requests.normal_cancelled),
            earliest_cancelled: q.earliest_cancelled.saturating_sub(
                last.requests.earliest_cancelled,
            ),
        }
    }

    /// The next report, if it is due; an error once the session has ended.
    pub fn next_report(&mut self, slots: &mut PrxSlots) -> (r: Option<
        Result<PrxSlotResult, Error>,
    >)
        ensures
            final(slots).ack == old(slots).ack,
            final(self).session_id == old(self).session_id,
            old(slots).state.done ==> {
                &&& r == Some(Err::<PrxSlotResult, Error>(Error::Mpsl))
                &&& *final(self) == *old(self)
                &&& final(slots).state == old(slots).state
            },
            !old(slots).state.done && !old(slots).state.progress.report_ready ==> {
                &&& r is None
                &&& *final(self) == *old(self)
                &&& final(slots).state == old(slots).state
            },
            !old(slots).state.done && old(slots).state.progress.report_ready ==> {
                &&& r matches Some(Ok(report)) && prx_reports(
                    report,
                    old(slots).state,
                    old(self).last,
                )
                &&& final(self).last == PrxBaseline::of(old(slots).state)
                &&& final(slots).state == (PrxSlotState {
                    progress: PrxProgress { report_ready: false, ..old(slots).state.progress },
                    ..old(slots).state
                })
            },
    {
        if slots.state.done {
            return Some(Err(Error::Mpsl));
        }
        if !slots.state.progress.report_ready {
            return None;
        }
        let report = self.report(&slots.state);
        slots.state.progress.report_ready = false;
        self.last =
        PrxBaseline {
            counters: slots.state.counters,
            traffic: slots.state.traffic,
            requests: slots.state.requests,
        };
        Some(Ok(report))
    }
}

} // verus!
