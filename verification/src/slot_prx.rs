//! PRX inside timeslots.
//!
//! Each slot is a window in which packets are received and acknowledged. An ACK
//! carries a counter and a hint that tells the sender when the next window comes.

use crate::addresses::EsbAddresses;
use crate::config::EsbConfig;
use crate::header;
use crate::header::EsbHeader;
use crate::hw;
use crate::hw::{DmaBuffer, FenceOrder, HwOp, RadioEvent, RadioOp};
use crate::mpsl_common;
use crate::mpsl_common::{write_counter_schedule_packet, NUM_PIPES};
use crate::mpsl_profile::PrxScheduleConfig;
use crate::mpsl_radio::{RadioQuiesceResult, RadioRecoveryPolicy};
use crate::mpsl_schedule;
use crate::mpsl_schedule::{ScheduleHint, SCHEDULE_HINT_VERSION};
use crate::mpsl_timeslot;
use crate::mpsl_timeslot::{
    arm_slot_end, check_pipes_room, count_pipe, disarm_slot_end, SignalCounters, SlotAction,
    SlotPriority, SlotReply, TimeslotRequest, TimeslotSignal, TIMESLOT_EARLIEST_TIMEOUT_MAX_US,
};
use crate::radio;
use crate::radio::EsbRadio;
use crate::slot_ptx;
use crate::slot_ptx::request_earliest;
use vstd::prelude::*;

verus! {

/// The last request was for the earliest slot.
pub const PRX_REQ_EARLIEST: u8 = 1;

/// The last request was for a slot at a distance.
pub const PRX_REQ_NORMAL: u8 = 2;

/// Phase within a single PRX timeslot.
#[derive(Debug, Clone, Copy, PartialEq, Eq, Structural)]
pub enum PrxPhase {
    /// Outside a slot.
    Idle,
    /// Receiving.
    Receiving,
    /// Acknowledging a new packet.
    TxAck,
    /// Acknowledging a repeated packet.
    TxRepeatedAck,
}

impl PrxPhase {
    /// The number of a phase in reports.
    pub open spec fn number(self) -> u8 {
        match self {
            PrxPhase::Idle => 0,
            PrxPhase::Receiving => 1,
            PrxPhase::TxAck => 2,
            PrxPhase::TxRepeatedAck => 3,
        }
    }

    /// The number of a phase in reports.
    pub fn as_u8(self) -> (n: u8)
        ensures
            n == self.number(),
    {
        match self {
            PrxPhase::Idle => 0,
            PrxPhase::Receiving => 1,
            PrxPhase::TxAck => 2,
            PrxPhase::TxRepeatedAck => 3,
        }
    }
}

/// What the peripherals show when a signal comes.
#[derive(Debug, Clone, Copy, PartialEq, Eq, Structural)]
pub struct PrxSlotSample {
    /// EVENTS_DISABLED is set.
    pub disabled: bool,
    /// CRCSTATUS: the last received packet's CRC matched.
    pub crc_ok: bool,
    /// RXMATCH.
    pub pipe: u8,
    /// RXCRC.
    pub crc: u16,
    /// TIMER0: microseconds since the start of the slot.
    pub elapsed_us: u32,
}

/// What a session was opened with.
#[derive(Debug, Clone, Copy)]
pub struct PrxSlotPlan {
    /// Length of a slot.
    pub slot_length_us: u32,
    /// When to end a slot.
    pub in_slot_match_us: u32,
    /// How long a request stands.
    pub request_timeout_us: u32,
    /// How many slots to chain.
    pub target_count: u32,
    /// ESB configuration.
    pub config: Option<EsbConfig>,
    /// ESB addresses.
    pub addresses: Option<EsbAddresses>,
    /// Pipes to receive on.
    pub enabled_pipes: u8,
    /// How the radio is handed back.
    pub recovery_policy: RadioRecoveryPolicy,
    /// Slots per report; 0 for a fixed chain.
    pub report_every: u32,
    /// Pacing of the windows.
    pub schedule: PrxScheduleConfig,
    /// Whether a blocked request is repeated with priority.
    pub retry_blocked_at_high_priority: bool,
}

/// Packets counted.
#[derive(Debug, Clone, Copy)]
pub struct PrxTraffic {
    /// New packets.
    pub rx_count: u32,
    /// Repeated packets.
    pub dup_count: u32,
    /// Packets with a bad CRC.
    pub bad_crc_count: u32,
    /// New packets per pipe.
    pub rx_per_pipe: [u32; NUM_PIPES],
    /// Repeated packets per pipe.
    pub dup_per_pipe: [u32; NUM_PIPES],
    /// Packets with a bad CRC per pipe.
    pub bad_crc_per_pipe: [u32; NUM_PIPES],
    /// ACKs per pipe.
    pub ack_tx_per_pipe: [u32; NUM_PIPES],
}

/// Requests that failed.
#[derive(Debug, Clone, Copy, PartialEq, Eq, Structural)]
pub struct PrxRequests {
    /// Kind of the last request.
    pub last_kind: u8,
    /// Blocked requests for a slot at a distance.
    pub normal_blocked: u32,
    /// Blocked requests for the earliest slot.
    pub earliest_blocked: u32,
    /// Cancelled requests for a slot at a distance.
    pub normal_cancelled: u32,
    /// Cancelled requests for the earliest slot.
    pub earliest_cancelled: u32,
}

/// Where a session stands.
#[derive(Debug, Clone, Copy, PartialEq, Eq, Structural)]
pub struct PrxProgress {
    /// Phase within the slot.
    pub phase: PrxPhase,
    /// A slot is running.
    pub slot_active: bool,
    /// Slots started at the last report.
    pub last_report_start: u32,
    /// A report is due.
    pub report_ready: bool,
    /// Windows since the last gap.
    pub windows_since_gap: u32,
}

/// State of a PRX timeslot session.
#[derive(Debug, Clone, Copy)]
pub struct PrxSlotState {
    /// The session is in use.
    pub busy: bool,
    /// The session has ended.
    pub done: bool,
    /// The request for the next slot.
    pub request: TimeslotRequest,
    /// The last action.
    pub action: SlotAction,
    /// What the session was opened with.
    pub plan: PrxSlotPlan,
    /// Radio layer, with the last packet of each pipe.
    pub radio: EsbRadio,
    /// Signals.
    pub counters: SignalCounters,
    /// Packets.
    pub traffic: PrxTraffic,
    /// Failed requests.
    pub requests: PrxRequests,
    /// Where the session stands.
    pub progress: PrxProgress,
    /// Counter of the last ACK per pipe.
    pub ack_counter: [u32; NUM_PIPES],
}

/// A PRX timeslot session and its ACK buffer.
pub struct PrxSlots {
    /// State.
    pub state: PrxSlotState,
    /// ACK buffer.
    pub ack: [u8; 256],
}

/// A PRX timeslot session with the operations that it has asked for.
#[verifier::ext_equal]
pub struct PrxSlotWorld {
    /// State.
    pub state: PrxSlotState,
    /// Contents of the ACK buffer.
    pub ack: Seq<u8>,
    /// The operations so far.
    pub log: Seq<HwOp>,
}

/// The world of a session and a log.
pub open spec fn prx_slot_world(s: PrxSlots, log: Seq<HwOp>) -> PrxSlotWorld {
    PrxSlotWorld { state: s.state, ack: s.ack@, log }
}

/// The hint in an ACK: the window it was sent in, the time left to the next one if
/// windows follow each other, and the length of both.
pub open spec fn window_hint(
    window_id: u32,
    next_delay_us: u32,
    period_us: u32,
    window_us: u32,
) -> ScheduleHint {
    ScheduleHint {
        version: SCHEDULE_HINT_VERSION,
        flags: 0,
        window_id,
        next_delay_us,
        period_us,
        window_us,
    }
}

/// Make `buf` an ACK with a counter and a hint.
pub fn write_ack_counter_packet(
    buf: &mut [u8; 256],
    counter: u32,
    window_id: u32,
    next_delay_us: u32,
    period_us: u32,
    window_us: u32,
)
    ensures
        final(buf)@ == mpsl_common::counter_schedule_packet(
            old(buf)@,
            0,
            counter,
            window_hint(window_id, next_delay_us, period_us, window_us),
        ),
{
    let hint = ScheduleHint::new(0, window_id, next_delay_us, period_us, window_us);
    write_counter_schedule_packet(buf, 0, counter, hint);
}

impl PrxTraffic {
    /// No count is at its limit.
    pub open spec fn has_room(self) -> bool {
        &&& self.rx_count < u32::MAX
        &&& self.dup_count < u32::MAX
        &&& self.bad_crc_count < u32::MAX
        &&& mpsl_timeslot::pipes_have_room(self.rx_per_pipe)
        &&& mpsl_timeslot::pipes_have_room(self.dup_per_pipe)
        &&& mpsl_timeslot::pipes_have_room(self.bad_crc_per_pipe)
        &&& mpsl_timeslot::pipes_have_room(self.ack_tx_per_pipe)
    }

    /// Check that no count is at its limit.
    pub fn check_room(&self) -> (r: bool)
        ensures
            r == self.has_room(),
    {
        self.rx_count < u32::MAX && self.dup_count < u32::MAX && self.bad_crc_count < u32::MAX
            && check_pipes_room(&self.rx_per_pipe) && check_pipes_room(&self.dup_per_pipe)
            && check_pipes_room(&self.bad_crc_per_pipe) && check_pipes_room(&self.ack_tx_per_pipe)
    }

    /// A packet with a bad CRC was received on `pipe`.
    pub open spec fn bad_crc(self, pipe: u8) -> PrxTraffic {
        PrxTraffic {
            bad_crc_count: (self.bad_crc_count + 1) as u32,
            bad_crc_per_pipe: mpsl_timeslot::pipe_counted(self.bad_crc_per_pipe, pipe),
            ..self
        }
    }

    /// A packet was received on `pipe`, and acknowledged if it asked for that.
    pub open spec fn received(self, pipe: u8, dup: bool, acked: bool) -> PrxTraffic {
        PrxTraffic {
            rx_count: if dup {
                self.rx_count
            } else {
                (self.rx_count + 1) as u32
            },
            rx_per_pipe: if dup {
                self.rx_per_pipe
            } else {
                mpsl_timeslot::pipe_counted(self.rx_per_pipe, pipe)
            },
            dup_count: if dup {
                (self.dup_count + 1) as u32
            } else {
                self.dup_count
            },
            dup_per_pipe: if dup {
                mpsl_timeslot::pipe_counted(self.dup_per_pipe, pipe)
            } else {
                self.dup_per_pipe
            },
            ack_tx_per_pipe: if acked {
                mpsl_timeslot::pipe_counted(self.ack_tx_per_pipe, pipe)
            } else {
                self.ack_tx_per_pipe
            },
            ..self
        }
    }

    /// Count a packet with a bad CRC.
    fn count_bad_crc(&mut self, pipe: u8)
        requires
            old(self).has_room(),
        ensures
            *final(self) == old(self).bad_crc(pipe),
    {
        self.bad_crc_count = self.bad_crc_count + 1;
        count_pipe(&mut self.bad_crc_per_pipe, pipe);
    }

    /// Count a packet.
    fn count_received(&mut self, pipe: u8, dup: bool, acked: bool)
        requires
            old(self).has_room(),
        ensures
            *final(self) == old(self).received(pipe, dup, acked),
    {
        if dup {
            self.dup_count = self.dup_count + 1;
            count_pipe(&mut self.dup_per_pipe, pipe);
        } else {
            self.rx_count = self.rx_count + 1;
            count_pipe(&mut self.rx_per_pipe, pipe);
        }
        if acked {
            count_pipe(&mut self.ack_tx_per_pipe, pipe);
        }
    }
}

impl PrxRequests {
    /// No count is at its limit.
    pub open spec fn has_room(self) -> bool {
        &&& self.normal_blocked < u32::MAX
        &&& self.earliest_blocked < u32::MAX
        &&& self.normal_cancelled < u32::MAX
        &&& self.earliest_cancelled < u32::MAX
    }

    /// The last request failed.
    pub open spec fn failed(self, blocked: bool) -> PrxRequests {
        let r = if self.last_kind == PRX_REQ_NORMAL {
            if blocked {
                PrxRequests { normal_blocked: (self.normal_blocked + 1) as u32, ..self }
            } else {
                PrxRequests { normal_cancelled: (self.normal_cancelled + 1) as u32, ..self }
            }
        } else if self.last_kind == PRX_REQ_EARLIEST {
            if blocked {
                PrxRequests { earliest_blocked: (self.earliest_blocked + 1) as u32, ..self }
            } else {
                PrxRequests { earliest_cancelled: (self.earliest_cancelled + 1) as u32, ..self }
            }
        } else {
            self
        };
        PrxRequests { last_kind: PRX_REQ_EARLIEST, ..r }
    }

    /// Count a failed request; the next one is for the earliest slot.
    fn count_failure(&mut self, blocked: bool)
        requires
            old(self).has_room(),
        ensures
            *final(self) == old(self).failed(blocked),
    {
        if self.last_kind == PRX_REQ_NORMAL {
            if blocked {
                self.normal_blocked = self.normal_blocked + 1;
            } else {
                self.normal_cancelled = self.normal_cancelled + 1;
            }
        } else if self.last_kind == PRX_REQ_EARLIEST {
            if blocked {
                self.earliest_blocked = self.earliest_blocked + 1;
            } else {
                self.earliest_cancelled = self.earliest_cancelled + 1;
            }
        }
        self.last_kind = PRX_REQ_EARLIEST;
    }
}

impl PrxSlotState {
    /// No count is at its limit.
    pub open spec fn has_room(self) -> bool {
        &&& self.counters.has_room()
        &&& self.traffic.has_room()
        &&& self.requests.has_room()
        &&& mpsl_timeslot::pipes_have_room(self.ack_counter)
    }

    /// The windows since the last gap, with this one.
    pub open spec fn windows_done(self) -> u32 {
        mpsl_timeslot::sat_add(self.progress.windows_since_gap, 1)
    }

    /// A gap follows this window.
    pub open spec fn gap_due(self) -> bool {
        self.plan.schedule.gap_after_windows > 0 && self.windows_done()
            >= self.plan.schedule.gap_after_windows
    }

    /// Distance from the start of this window to the next.
    pub open spec fn window_distance(self) -> u32 {
        if self.gap_due() {
            self.plan.schedule.gap_distance_us
        } else if self.plan.schedule.normal_distance_us > 0 {
            self.plan.schedule.normal_distance_us
        } else {
            self.plan.slot_length_us
        }
    }

    /// The next window is requested.
    pub open spec fn next_window(self) -> PrxSlotState {
        PrxSlotState {
            progress: PrxProgress {
                windows_since_gap: if self.gap_due() {
                    0
                } else {
                    self.windows_done()
                },
                ..self.progress
            },
            request: TimeslotRequest::Normal {
                priority: SlotPriority::Normal,
                distance_us: self.window_distance(),
                length_us: self.plan.slot_length_us,
            },
            requests: PrxRequests { last_kind: PRX_REQ_NORMAL, ..self.requests },
            ..self
        }
    }

    /// The slots of a report are complete.
    pub open spec fn batch_complete(self) -> bool {
        self.plan.report_every > 0 && mpsl_schedule::sat_sub(
            self.counters.start,
            self.progress.last_report_start,
        ) >= self.plan.report_every
    }

    /// Another slot follows.
    pub open spec fn goes_on(self) -> bool {
        self.plan.report_every > 0 || self.counters.start < self.plan.target_count
    }

    /// The counter of an ACK on `pipe`: it advances with every new packet.
    pub open spec fn counter_for(self, pipe: u8, dup: bool) -> u32 {
        if pipe >= 8 {
            0
        } else if dup {
            self.ack_counter@[pipe as int]
        } else {
            (self.ack_counter@[pipe as int] + 1) as u32
        }
    }

    /// The hint of an ACK, `elapsed_us` into the slot.
    pub open spec fn hint(self, elapsed_us: u32) -> ScheduleHint {
        window_hint(
            self.counters.start,
            mpsl_schedule::sat_sub(self.plan.slot_length_us, elapsed_us),
            self.plan.slot_length_us,
            self.plan.in_slot_match_us,
        )
    }

    /// The radio was to be brought to rest, with this result.
    pub open spec fn quiesced_as(self, result: RadioQuiesceResult) -> PrxSlotState {
        if result is TimedOutForcedReset {
            PrxSlotState {
                counters: SignalCounters {
                    radio_disable_timeout: (self.counters.radio_disable_timeout + 1) as u32,
                    ..self.counters
                },
                ..self
            }
        } else {
            self
        }
    }

    /// The distance from the start of this window to the next, which is counted.
    fn next_normal_distance_us(&mut self) -> (d: u32)
        ensures
            d == old(self).window_distance(),
            *final(self) == (PrxSlotState {
                progress: old(self).next_window().progress,
                ..*old(self)
            }),
    {
        self.progress.windows_since_gap = self.progress.windows_since_gap.saturating_add(1);
        if self.plan.schedule.gap_after_windows > 0 && self.progress.windows_since_gap
            >= self.plan.schedule.gap_after_windows {
            self.progress.windows_since_gap = 0;
            return self.plan.schedule.gap_distance_us;
        }
        if self.plan.schedule.normal_distance_us > 0 {
            self.plan.schedule.normal_distance_us
        } else {
            self.plan.slot_length_us
        }
    }

    /// Request the next window.
    fn request_next_window(&mut self)
        ensures
            *final(self) == old(self).next_window(),
    {
        let distance_us: u32 = self.next_normal_distance_us();
        self.request =
        TimeslotRequest::Normal {
            priority: SlotPriority::Normal,
            distance_us,
            length_us: self.plan.slot_length_us,
        };
        self.requests.last_kind = PRX_REQ_NORMAL;
    }
}

/// Receiving anew after a packet that is not acknowledged.
pub open spec fn receive_again_log(log: Seq<HwOp>, pipes: u8) -> Seq<HwOp> {
    radio::start_receiving_manual_log(radio::stop_log(log), pipes, DmaBuffer::SlotRx)
}

/// Looking at what the radio did.
pub open spec fn look_log(log: Seq<HwOp>) -> Seq<HwOp> {
    hw::radio(
        hw::radio(log, RadioOp::ClearEvent(RadioEvent::Disabled)),
        RadioOp::Fence(FenceOrder::Acquire),
    )
}

/// Receiving at the start of a slot.
pub open spec fn slot_receive_log(log: Seq<HwOp>, state: PrxSlotState) -> Seq<HwOp> {
    let log = radio::init_log(
        radio::power_cycle_log(log),
        state.radio.fast_ramp_up,
        state.plan.config->0,
        state.plan.addresses->0,
    );
    let log = radio::start_receiving_manual_log(log, state.plan.enabled_pipes, DmaBuffer::SlotRx);
    mpsl_timeslot::arm_slot_end_log(log, state.plan.in_slot_match_us).push(HwOp::UnmaskRadio)
}

impl PrxSlotWorld {
    /// The waiting task is woken.
    pub open spec fn woken(self) -> PrxSlotWorld {
        PrxSlotWorld { log: self.log.push(HwOp::WakeSession), ..self }
    }

    /// The signal is counted.
    pub open spec fn counted(self, signal: TimeslotSignal) -> PrxSlotWorld {
        PrxSlotWorld {
            state: PrxSlotState { counters: self.state.counters.plus(signal), ..self.state },
            ..self
        }
    }

    /// The action is answered and remembered.
    pub open spec fn acting(self, action: SlotAction) -> (PrxSlotWorld, SlotReply) {
        (
            PrxSlotWorld { state: PrxSlotState { action, ..self.state }, ..self },
            slot_ptx::answer(action),
        )
    }

    /// The session has ended.
    pub open spec fn ended(self) -> PrxSlotWorld {
        PrxSlotWorld { state: PrxSlotState { done: true, ..self.state }, ..self }.woken()
    }

    /// The phase changes, and whether a slot is running.
    pub open spec fn in_phase(self, phase: PrxPhase, slot_active: bool) -> PrxSlotWorld {
        PrxSlotWorld {
            state: PrxSlotState {
                progress: PrxProgress { phase, slot_active, ..self.state.progress },
                ..self.state
            },
            ..self
        }
    }

    /// A slot starts.
    pub open spec fn on_start(self) -> (PrxSlotWorld, SlotReply) {
        let w = self.counted(TimeslotSignal::Start);
        let s = w.state;
        if s.plan.config is None || s.plan.addresses is None {
            w.in_phase(s.progress.phase, true).counted(
                TimeslotSignal::InvalidReturn,
            ).ended().acting(SlotAction::End)
        } else {
            let w = PrxSlotWorld { log: slot_receive_log(w.log, s), ..w };
            w.in_phase(PrxPhase::Receiving, true).acting(SlotAction::Nothing)
        }
    }

    /// A packet with a bad CRC was received.
    pub open spec fn bad_crc(self, pipe: u8) -> PrxSlotWorld {
        let s = self.state;
        PrxSlotWorld {
            state: PrxSlotState { traffic: s.traffic.bad_crc(pipe), ..s },
            log: receive_again_log(look_log(self.log), s.plan.enabled_pipes),
            ..self
        }
    }

    /// A packet was received, which asks for no ACK.
    pub open spec fn received(self, pipe: u8, pid: u8, crc: u16) -> PrxSlotWorld {
        let s = self.state;
        let dup = s.radio.is_duplicate(pipe as int, pid, crc);
        PrxSlotWorld {
            state: PrxSlotState {
                traffic: s.traffic.received(pipe, dup, false),
                radio: if dup {
                    s.radio
                } else {
                    s.radio.detecting(pipe as int, pid, crc)
                },
                ..s
            },
            log: receive_again_log(look_log(self.log), s.plan.enabled_pipes),
            ..self
        }
    }

    /// A packet was received and is acknowledged.
    pub open spec fn acknowledged(self, pipe: u8, pid: u8, crc: u16, elapsed_us: u32) -> PrxSlotWorld {
        let s = self.state;
        let dup = s.radio.is_duplicate(pipe as int, pid, crc);
        PrxSlotWorld {
            state: PrxSlotState {
                traffic: s.traffic.received(pipe, dup, true),
                radio: if dup {
                    s.radio
                } else {
                    s.radio.detecting(pipe as int, pid, crc)
                },
                ack_counter: if dup {
                    s.ack_counter
                } else {
                    mpsl_timeslot::pipe_counted(s.ack_counter, pipe)
                },
                progress: PrxProgress {
                    phase: if dup {
                        PrxPhase::TxRepeatedAck
                    } else {
                        PrxPhase::TxAck
                    },
                    ..s.progress
                },
                ..s
            },
            ack: mpsl_common::counter_schedule_packet(
                self.ack,
                0,
                s.counter_for(pipe, dup),
                s.hint(elapsed_us),
            ),
            log: radio::transmit_ack_manual_log(look_log(self.log), pipe, DmaBuffer::SlotAck),
        }
    }

    /// The radio has received something.
    pub open spec fn heard(self, sample: PrxSlotSample, rx: Seq<u8>) -> PrxSlotWorld {
        let pid = header::s1_pid(rx[3]);
        if !sample.crc_ok {
            self.bad_crc(sample.pipe)
        } else if header::s1_no_ack(rx[3]) {
            self.received(sample.pipe, pid, sample.crc)
        } else {
            self.acknowledged(sample.pipe, pid, sample.crc, sample.elapsed_us)
        }
    }

    /// The ACK is out, and the radio receives again.
    pub open spec fn ack_sent(self) -> PrxSlotWorld {
        let s = self.state;
        PrxSlotWorld {
            state: PrxSlotState {
                progress: PrxProgress { phase: PrxPhase::Receiving, ..s.progress },
                ..s
            },
            log: radio::start_receiving_manual_log(
                look_log(self.log),
                s.plan.enabled_pipes,
                DmaBuffer::SlotRx,
            ),
            ..self
        }
    }

    /// The radio interrupts.
    pub open spec fn on_radio(self, sample: PrxSlotSample, rx: Seq<u8>) -> (
        PrxSlotWorld,
        SlotReply,
    ) {
        let w = self.counted(TimeslotSignal::Radio);
        let w = if !sample.disabled {
            w
        } else {
            match w.state.progress.phase {
                PrxPhase::Idle => w,
                PrxPhase::Receiving => w.heard(sample, rx),
                PrxPhase::TxAck => w.ack_sent(),
                PrxPhase::TxRepeatedAck => w.ack_sent(),
            }
        };
        w.acting(SlotAction::Nothing)
    }

    /// The radio is brought to rest at the end of the slot.
    pub open spec fn quiesced(self) -> PrxSlotWorld {
        PrxSlotWorld {
            log: mpsl_timeslot::disarm_slot_end_log(self.log).push(
                HwOp::QuiesceRadio(self.state.plan.recovery_policy),
            ),
            ..self.in_phase(PrxPhase::Idle, false)
        }
    }

    /// A report is due.
    pub open spec fn report_due(self) -> PrxSlotWorld {
        let s = self.state;
        PrxSlotWorld {
            state: PrxSlotState {
                progress: PrxProgress {
                    last_report_start: s.counters.start,
                    report_ready: true,
                    ..s.progress
                },
                ..s
            },
            ..self
        }.woken()
    }

    /// The next window is requested.
    pub open spec fn next_window(self) -> PrxSlotWorld {
        PrxSlotWorld { state: self.state.next_window(), ..self }
    }

    /// TIMER0 interrupts: the slot is over.
    pub open spec fn on_timer0(self) -> (PrxSlotWorld, SlotReply) {
        let w = self.counted(TimeslotSignal::Timer0).quiesced();
        if w.state.batch_complete() {
            w.report_due().next_window().acting(SlotAction::Request)
        } else if w.state.goes_on() {
            w.next_window().acting(SlotAction::Request)
        } else {
            w.ended().acting(SlotAction::End)
        }
    }

    /// No request is pending.
    pub open spec fn on_session_idle(self) -> (PrxSlotWorld, SlotReply) {
        (
            self.counted(TimeslotSignal::SessionIdle).woken(),
            SlotReply { action: None, submit: false },
        )
    }

    /// A request was blocked or cancelled: the earliest slot is requested.
    pub open spec fn on_blocked(self, signal: TimeslotSignal) -> (PrxSlotWorld, SlotReply) {
        let w = self.counted(signal);
        let s = w.state;
        (
            PrxSlotWorld {
                state: PrxSlotState {
                    requests: s.requests.failed(signal == TimeslotSignal::Blocked),
                    request: slot_ptx::earliest(
                        if s.plan.retry_blocked_at_high_priority {
                            SlotPriority::High
                        } else {
                            SlotPriority::Normal
                        },
                        s.plan.slot_length_us,
                        TIMESLOT_EARLIEST_TIMEOUT_MAX_US,
                    ),
                    ..s
                },
                ..w
            },
            SlotReply { action: None, submit: true },
        )
    }

    /// A submitted request was refused.
    pub open spec fn refused(self) -> PrxSlotWorld {
        self.counted(TimeslotSignal::InvalidReturn).ended()
    }

    /// Any signal.
    pub open spec fn signalled(
        self,
        signal: TimeslotSignal,
        sample: PrxSlotSample,
        rx: Seq<u8>,
    ) -> (PrxSlotWorld, SlotReply) {
        match signal {
            TimeslotSignal::Start => self.on_start(),
            TimeslotSignal::Radio => self.on_radio(sample, rx),
            TimeslotSignal::Timer0 => self.on_timer0(),
            TimeslotSignal::SessionIdle => self.on_session_idle(),
            TimeslotSignal::Blocked => self.on_blocked(signal),
            TimeslotSignal::Cancelled => self.on_blocked(signal),
            TimeslotSignal::SessionClosed => (
                self.counted(signal).ended(),
                SlotReply { action: None, submit: false },
            ),
            TimeslotSignal::Overstayed => self.counted(signal).in_phase(
                PrxPhase::Idle,
                false,
            ).ended().acting(SlotAction::End),
            _ => self.acting(SlotAction::End),
        }
    }
}

/// Look at what the radio did.
fn look(ops: &mut Vec<HwOp>)
    ensures
        final(ops)@ == look_log(old(ops)@),
{
    ops.push(HwOp::Radio(RadioOp::ClearEvent(RadioEvent::Disabled)));
    ops.push(HwOp::Radio(RadioOp::Fence(FenceOrder::Acquire)));
}

/// Receive anew after a packet that is not acknowledged.
fn receive_again(radio: &EsbRadio, pipes: u8, ops: &mut Vec<HwOp>)
    ensures
        final(ops)@ == receive_again_log(old(ops)@, pipes),
{
    radio.stop(ops);
    radio.start_receiving_manual_ack(pipes, DmaBuffer::SlotRx, ops);
}

impl PrxSlots {
    /// Remember an action, and answer with it.
    fn act(&mut self, action: SlotAction, ops: &Vec<HwOp>) -> (r: SlotReply)
        ensures
            prx_slot_world(*final(self), ops@) == prx_slot_world(*old(self), ops@).acting(
                action,
            ).0,
            r == prx_slot_world(*old(self), ops@).acting(action).1,
    {
        self.state.action = action;
        SlotReply { action: Some(action), submit: false }
    }

    /// End the session.
    fn end(&mut self, ops: &mut Vec<HwOp>)
        ensures
            prx_slot_world(*final(self), final(ops)@) == prx_slot_world(
                *old(self),
                old(ops)@,
            ).ended(),
    {
        self.state.done = true;
        ops.push(HwOp::WakeSession);
    }

    /// Start a slot.
    fn on_start(&mut self, ops: &mut Vec<HwOp>) -> (r: SlotReply)
        requires
            old(self).state.has_room(),
        ensures
            prx_slot_world(*final(self), final(ops)@) == prx_slot_world(
                *old(self),
                old(ops)@,
            ).on_start().0,
            r == prx_slot_world(*old(self), old(ops)@).on_start().1,
    {
        self.state.counters.count(TimeslotSignal::Start);
        self.state.progress.slot_active = true;
        match (self.state.plan.config, self.state.plan.addresses) {
            (Some(config), Some(addresses)) => {
                let radio = self.state.radio;
                radio.power_cycle(ops);
                radio.init(&config, &addresses, ops);
                radio.start_receiving_manual_ack(
                    self.state.plan.enabled_pipes,
                    DmaBuffer::SlotRx,
                    ops,
                );
                arm_slot_end(self.state.plan.in_slot_match_us, ops);
                self.state.progress.phase = PrxPhase::Receiving;
                ops.push(HwOp::UnmaskRadio);
                self.act(SlotAction::Nothing, ops)
            },
            _ => {
                self.state.counters.invalid_return = self.state.counters.invalid_return + 1;
                self.end(ops);
                self.act(SlotAction::End, ops)
            },
        }
    }

    /// Take a packet into account that asks for no ACK.
    fn take_packet(&mut self, pipe: u8, pid: u8, crc: u16, ops: &mut Vec<HwOp>)
        requires
            old(self).state.traffic.has_room(),
        ensures
            prx_slot_world(*final(self), final(ops)@) == prx_slot_world(
                *old(self),
                old(ops)@,
            ).received(pipe, pid, crc),
    {
        look(ops);
        let dup: bool = self.state.radio.check_duplicate(pipe as usize, pid, crc);
        self.state.traffic.count_received(pipe, dup, false);
        if !dup {
            self.state.radio.update_detection(pipe as usize, pid, crc);
        }
        receive_again(&self.state.radio, self.state.plan.enabled_pipes, ops);
    }

    /// The counter of an ACK on `pipe`.
    fn ack_counter(&mut self, pipe: u8, dup: bool) -> (counter: u32)
        requires
            mpsl_timeslot::pipes_have_room(old(self).state.ack_counter),
        ensures
            counter == old(self).state.counter_for(pipe, dup),
            final(self).ack == old(self).ack,
            final(self).state == (PrxSlotState {
                ack_counter: if dup {
                    old(self).state.ack_counter
                } else {
                    mpsl_timeslot::pipe_counted(old(self).state.ack_counter, pipe)
                },
                ..old(self).state
            }),
    {
        if !dup {
            count_pipe(&mut self.state.ack_counter, pipe);
        }
        if pipe < 8 {
            self.state.ack_counter[pipe as usize]
        } else {
            0
        }
    }

    /// Take a packet into account and acknowledge it.
    fn acknowledge(&mut self, pipe: u8, pid: u8, crc: u16, elapsed_us: u32, ops: &mut Vec<HwOp>)
        requires
            old(self).state.traffic.has_room(),
            mpsl_timeslot::pipes_have_room(old(self).state.ack_counter),
        ensures
            prx_slot_world(*final(self), final(ops)@) == prx_slot_world(
                *old(self),
                old(ops)@,
            ).acknowledged(pipe, pid, crc, elapsed_us),
    {
        look(ops);
        let dup: bool = self.state.radio.check_duplicate(pipe as usize, pid, crc);
        self.state.traffic.count_received(pipe, dup, true);
        if !dup {
            self.state.radio.update_detection(pipe as usize, pid, crc);
        }
        let counter: u32 = self.ack_counter(pipe, dup);
        let next_delay_us: u32 = self.state.plan.slot_length_us.saturating_sub(elapsed_us);
        write_ack_counter_packet(
            &mut self.ack,
            counter,
            self.state.counters.start,
            next_delay_us,
            self.state.plan.slot_length_us,
            self.state.plan.in_slot_match_us,
        );
        self.state.radio.transmit_ack_manual(pipe, DmaBuffer::SlotAck, ops);
        self.state.progress.phase = if dup {
            PrxPhase::TxRepeatedAck
        } else {
            PrxPhase::TxAck
        };
    }

    /// Take what the radio received into account.
    fn hear(&mut self, sample: PrxSlotSample, rx: &[u8; 256], ops: &mut Vec<HwOp>)
        requires
            old(self).state.traffic.has_room(),
            mpsl_timeslot::pipes_have_room(old(self).state.ack_counter),
        ensures
            prx_slot_world(*final(self), final(ops)@) == prx_slot_world(
                *old(self),
                old(ops)@,
            ).heard(sample, rx@),
    {
        if !sample.crc_ok {
            look(ops);
            self.state.traffic.count_bad_crc(sample.pipe);
            receive_again(&self.state.radio, self.state.plan.enabled_pipes, ops);
        } else {
            let header = EsbHeader::read(rx);
            if header.no_ack() {
                self.take_packet(sample.pipe, header.pid(), sample.crc, ops);
            } else {
                self.acknowledge(sample.pipe, header.pid(), sample.crc, sample.elapsed_us, ops);
            }
        }
    }

    /// Handle a radio interrupt.
    fn on_radio(&mut self, sample: PrxSlotSample, rx: &[u8; 256], ops: &mut Vec<HwOp>) -> (r:
        SlotReply)
        requires
            old(self).state.has_room(),
        ensures
            prx_slot_world(*final(self), final(ops)@) == prx_slot_world(
                *old(self),
                old(ops)@,
            ).on_radio(sample, rx@).0,
            r == prx_slot_world(*old(self), old(ops)@).on_radio(sample, rx@).1,
    {
        self.state.counters.count(TimeslotSignal::Radio);
        if sample.disabled {
            match self.state.progress.phase {
                PrxPhase::Idle => {},
                PrxPhase::Receiving => {
                    self.hear(sample, rx, ops);
                },
                _ => {
                    look(ops);
                    self.state.radio.start_receiving_manual_ack(
                        self.state.plan.enabled_pipes,
                        DmaBuffer::SlotRx,
                        ops,
                    );
                    self.state.progress.phase = PrxPhase::Receiving;
                },
            }
        }
        self.act(SlotAction::Nothing, ops)
    }

    /// Bring the radio to rest at the end of the slot.
    fn quiesce(&mut self, ops: &mut Vec<HwOp>)
        ensures
            prx_slot_world(*final(self), final(ops)@) == prx_slot_world(
                *old(self),
                old(ops)@,
            ).quiesced(),
    {
        self.state.progress.slot_active = false;
        disarm_slot_end(ops);
        ops.push(HwOp::QuiesceRadio(self.state.plan.recovery_policy));
        self.state.progress.phase = PrxPhase::Idle;
    }

    /// Handle a TIMER0 interrupt.
    fn on_timer0(&mut self, ops: &mut Vec<HwOp>) -> (r: SlotReply)
        requires
            old(self).state.has_room(),
        ensures
            prx_slot_world(*final(self), final(ops)@) == prx_slot_world(
                *old(self),
                old(ops)@,
            ).on_timer0().0,
            r == prx_slot_world(*old(self), old(ops)@).on_timer0().1,
    {
        self.state.counters.count(TimeslotSignal::Timer0);
        self.quiesce(ops);
        let long_session: bool = self.state.plan.report_every > 0;
        let batch_complete: bool = long_session && self.state.counters.start.saturating_sub(
            self.state.progress.last_report_start,
        ) >= self.state.plan.report_every;
        if batch_complete {
            self.state.progress.last_report_start = self.state.counters.start;
            self.state.progress.report_ready = true;
            ops.push(HwOp::WakeSession);
            self.state.request_next_window();
            self.act(SlotAction::Request, ops)
        } else if long_session || self.state.counters.start < self.state.plan.target_count {
            self.state.request_next_window();
            self.act(SlotAction::Request, ops)
        } else {
            self.end(ops);
            self.act(SlotAction::End, ops)
        }
    }

    /// Handle a blocked or cancelled request.
    fn on_blocked(&mut self, signal: TimeslotSignal, ops: &Vec<HwOp>) -> (r: SlotReply)
        requires
            old(self).state.has_room(),
        ensures
            prx_slot_world(*final(self), ops@) == prx_slot_world(*old(self), ops@).on_blocked(
                signal,
            ).0,
            r == prx_slot_world(*old(self), ops@).on_blocked(signal).1,
    {
        self.state.counters.count(signal);
        self.state.requests.count_failure(signal == TimeslotSignal::Blocked);
        let priority = if self.state.plan.retry_blocked_at_high_priority {
            SlotPriority::High
        } else {
            SlotPriority::Normal
        };
        self.state.request =
        request_earliest(
            priority,
            self.state.plan.slot_length_us,
            TIMESLOT_EARLIEST_TIMEOUT_MAX_US,
        );
        SlotReply { action: None, submit: true }
    }

    /// Handle a signal of the service layer. `rx` is the receive buffer.
    pub fn prx_timeslot_callback(
        &mut self,
        signal: TimeslotSignal,
        sample: PrxSlotSample,
        rx: &[u8; 256],
        ops: &mut Vec<HwOp>,
    ) -> (r: SlotReply)
        requires
            old(self).state.has_room(),
        ensures
            prx_slot_world(*final(self), final(ops)@) == prx_slot_world(
                *old(self),
                old(ops)@,
            ).signalled(signal, sample, rx@).0,
            r == prx_slot_world(*old(self), old(ops)@).signalled(signal, sample, rx@).1,
    {
        match signal {
            TimeslotSignal::Start => self.on_start(ops),
            TimeslotSignal::Radio => self.on_radio(sample, rx, ops),
            TimeslotSignal::Timer0 => self.on_timer0(ops),
            TimeslotSignal::SessionIdle => {
                self.state.counters.count(signal);
                ops.push(HwOp::WakeSession);
                SlotReply { action: None, submit: false }
            },
            TimeslotSignal::Blocked => self.on_blocked(signal, ops),
            TimeslotSignal::Cancelled => self.on_blocked(signal, ops),
            TimeslotSignal::SessionClosed => {
                self.state.counters.count(signal);
                self.end(ops);
                SlotReply { action: None, submit: false }
            },
            TimeslotSignal::Overstayed => {
                self.state.counters.count(signal);
                self.state.progress.slot_active = false;
                self.state.progress.phase = PrxPhase::Idle;
                self.end(ops);
                self.act(SlotAction::End, ops)
            },
            _ => self.act(SlotAction::End, ops),
        }
    }

    /// The service layer refused a submitted request: the session has ended.
    pub fn request_refused(&mut self, ops: &mut Vec<HwOp>)
        requires
            old(self).state.counters.has_room(),
        ensures
            prx_slot_world(*final(self), final(ops)@) == prx_slot_world(
                *old(self),
                old(ops)@,
            ).refused(),
    {
        self.state.counters.count(TimeslotSignal::InvalidReturn);
        self.end(ops);
    }

    /// The radio was to be brought to rest: count it if it was not in time.
    pub fn radio_quiesced(&mut self, result: RadioQuiesceResult)
        requires
            old(self).state.counters.has_room(),
        ensures
            final(self).ack == old(self).ack,
            final(self).state == old(self).state.quiesced_as(result),
    {
        if result.timed_out() {
            self.state.counters.radio_disable_timeout = self.state.counters.radio_disable_timeout
                + 1;
        }
    }

    /// Check that no count is at its limit, so that the next signal can be handled.
    pub fn check_room(&self) -> (r: bool)
        ensures
            r == self.state.has_room(),
    {
        self.state.counters.check_room() && self.state.traffic.check_room()
            && self.state.requests.normal_blocked < u32::MAX && self.state.requests.earliest_blocked
            < u32::MAX && self.state.requests.normal_cancelled < u32::MAX
            && self.state.requests.earliest_cancelled < u32::MAX && check_pipes_room(
            &self.state.ack_counter,
        )
    }
}

} // verus!
