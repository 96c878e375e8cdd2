//! PTX inside timeslots.
//!
//! Each slot transmits one packet and waits for its ACK, with in-slot retries.
//! A session runs a fixed chain of slots, polls a set of pipes in turn, or sends
//! on demand. In a poll session the slots can be locked to the windows that the
//! receiver advertises in its ACKs.

use crate::addresses::EsbAddresses;
use crate::config::EsbConfig;
use crate::header::EsbHeader;
use crate::hw;
use crate::hw::{DmaBuffer, FenceOrder, HwOp, RadioEvent, RadioOp, TimerOp};
use crate::mpsl_common;
use crate::mpsl_common::{
    advance_pid, next_pipe_in_mask, read_counter_payload, write_counter_packet, NUM_PIPES,
};
use crate::mpsl_profile::PtxScheduleMode;
use crate::mpsl_radio::RadioDisableResult;
use crate::mpsl_schedule;
use crate::mpsl_schedule::{decode_counter_payload_schedule_hint, ScheduleHint};
use crate::mpsl_timeslot;
use crate::mpsl_timeslot::{
    check_pipes_room, count_pipe, EarliestRequest, SignalCounters, SlotAction, SlotPriority,
    SlotReply, TimeslotRequest, TimeslotSignal, TIMESLOT_EARLIEST_TIMEOUT_MAX_US,
};
use crate::ptx_schedule::PtxSchedule;
use crate::radio;
use crate::radio::EsbRadio;
use vstd::prelude::*;

verus! {

/// Phase within a single PTX timeslot.
#[derive(Debug, Clone, Copy, PartialEq, Eq, Structural)]
pub enum PtxPhase {
    /// Outside a slot.
    Idle,
    /// Transmitting.
    Tx,
    /// Waiting for the ACK.
    WaitAck,
    /// Waiting for the end of the slot.
    Done,
}

/// What the peripherals show when a signal comes.
#[derive(Debug, Clone, Copy, PartialEq, Eq, Structural)]
pub struct PtxSlotSample {
    /// EVENTS_DISABLED is set.
    pub disabled: bool,
    /// CRCSTATUS: the last received packet's CRC matched.
    pub crc_ok: bool,
    /// TIMER0: the end of the slot has come.
    pub slot_end: bool,
    /// TIMER0: the ACK timeout has come.
    pub ack_timeout: bool,
    /// TIMER0: microseconds since the start of the slot.
    pub elapsed_us: u32,
}

/// What a session was opened with.
#[derive(Debug, Clone, Copy)]
pub struct PtxPlan {
    /// Length of a slot.
    pub slot_length_us: u32,
    /// When to end a slot.
    pub in_slot_match_us: u32,
    /// How long a request stands.
    pub request_timeout_us: u32,
    /// How many slots to chain.
    pub target_count: u32,
    /// Packets to send per slot.
    pub packets_per_slot: u32,
    /// Retries allowed per slot.
    pub max_retries: u8,
    /// How long to wait for an ACK.
    pub ack_timeout_us: u32,
    /// Repeat blocked and cancelled requests at high priority.
    pub retry_blocked_at_high_priority: bool,
    /// ESB configuration.
    pub config: Option<EsbConfig>,
    /// ESB addresses.
    pub addresses: Option<EsbAddresses>,
    /// Radio layer.
    pub radio: EsbRadio,
}

/// Packets and ACKs counted.
#[derive(Debug, Clone, Copy)]
pub struct PtxTraffic {
    /// Packets transmitted.
    pub tx_count: u32,
    /// ACKs received.
    pub ack_ok_count: u32,
    /// Packets transmitted per pipe, in a poll session.
    pub tx_per_pipe: [u32; NUM_PIPES],
    /// ACKs received per pipe, in a poll session.
    pub ack_ok_per_pipe: [u32; NUM_PIPES],
    /// ACKs that did not come in time.
    pub ack_timeout_count: u32,
    /// ACKs with a bad CRC.
    pub ack_crc_fail_count: u32,
    /// ACKs that did not come in time, per pipe.
    pub ack_timeout_per_pipe: [u32; NUM_PIPES],
    /// ACKs with a bad CRC, per pipe.
    pub ack_crc_fail_per_pipe: [u32; NUM_PIPES],
}

/// The packet that is being sent.
#[derive(Debug, Clone, Copy, PartialEq, Eq, Structural)]
pub struct PtxPacket {
    /// Phase within the slot.
    pub phase: PtxPhase,
    /// PID.
    pub pid: u8,
    /// Pipe.
    pub tx_pipe: u8,
    /// Advances with every acknowledged packet.
    pub payload_byte: u8,
    /// Packets sent in this slot.
    pub sent_this_slot: u32,
    /// Retries in this slot.
    pub retry_count: u8,
    /// The packet of this slot was acknowledged.
    pub acked_this_slot: bool,
}

/// The counters that ACKs carried.
#[derive(Debug, Clone, Copy, PartialEq, Eq, Structural)]
pub struct PtxAckCounters {
    /// ACKs that carried one.
    pub payload_count: u32,
    /// Counters that went back.
    pub inversions: u32,
    /// Last counter.
    pub last: u32,
}

/// A poll session.
#[derive(Debug, Clone, Copy, PartialEq, Eq, Structural)]
pub struct PtxPolling {
    /// How many pipes are polled; 0 outside a poll session.
    pub pipes: u8,
    /// Pipes that are polled.
    pub pipe_mask: u8,
    /// Slots per report.
    pub report_every: u32,
    /// Slots since the last report.
    pub slots_since_report: u32,
    /// A report is due.
    pub report_ready: bool,
}

/// An on-demand session.
#[derive(Debug, Clone, Copy, PartialEq, Eq, Structural)]
pub struct PtxOnDemand {
    /// The session sends on demand.
    pub mode: bool,
    /// A packet waits for its slot.
    pub pending: bool,
    /// The result of a send is due.
    pub result_ready: bool,
    /// That result.
    pub ack_ok: bool,
}

/// State of a PTX timeslot session.
#[derive(Debug, Clone, Copy)]
pub struct PtxSlotState {
    /// The session is in use.
    pub busy: bool,
    /// The session has ended.
    pub done: bool,
    /// The request for the next slot.
    pub request: TimeslotRequest,
    /// The last action.
    pub action: SlotAction,
    /// What the session was opened with.
    pub plan: PtxPlan,
    /// Signals.
    pub counters: SignalCounters,
    /// Packets and ACKs.
    pub traffic: PtxTraffic,
    /// The packet that is being sent.
    pub packet: PtxPacket,
    /// The counters that ACKs carried.
    pub acks: PtxAckCounters,
    /// How the receiver's windows are followed.
    pub schedule: PtxSchedule,
    /// Polling.
    pub poll: PtxPolling,
    /// Sending on demand.
    pub event: PtxOnDemand,
}

/// A PTX timeslot session and its transmit buffer.
pub struct PtxSlots {
    /// State.
    pub state: PtxSlotState,
    /// Transmit buffer.
    pub tx: [u8; 256],
}

/// A PTX timeslot session with the operations that it has asked for.
#[verifier::ext_equal]
pub struct PtxSlotWorld {
    /// State.
    pub state: PtxSlotState,
    /// Contents of the transmit buffer.
    pub tx: Seq<u8>,
    /// The operations so far.
    pub log: Seq<HwOp>,
}

/// The world of a session and a log.
pub open spec fn slot_world(s: PtxSlots, log: Seq<HwOp>) -> PtxSlotWorld {
    PtxSlotWorld { state: s.state, tx: s.tx@, log }
}

impl PtxTraffic {
    /// No count is at its limit.
    pub open spec fn has_room(self) -> bool {
        &&& self.tx_count < u32::MAX
        &&& self.ack_ok_count < u32::MAX
        &&& mpsl_timeslot::pipes_have_room(self.tx_per_pipe)
        &&& mpsl_timeslot::pipes_have_room(self.ack_ok_per_pipe)
        &&& self.ack_timeout_count < u32::MAX
        &&& self.ack_crc_fail_count < u32::MAX
        &&& mpsl_timeslot::pipes_have_room(self.ack_timeout_per_pipe)
        &&& mpsl_timeslot::pipes_have_room(self.ack_crc_fail_per_pipe)
    }

    /// Check that no count is at its limit.
    pub fn check_room(&self) -> (r: bool)
        ensures
            r == self.has_room(),
    {
        self.tx_count < u32::MAX && self.ack_ok_count < u32::MAX && check_pipes_room(
            &self.tx_per_pipe,
        ) && check_pipes_room(&self.ack_ok_per_pipe) && self.ack_timeout_count < u32::MAX
            && self.ack_crc_fail_count < u32::MAX && check_pipes_room(&self.ack_timeout_per_pipe)
            && check_pipes_room(&self.ack_crc_fail_per_pipe)
    }

    /// A packet is transmitted on `pipe`.
    pub open spec fn sent(self, pipe: u8, polling: bool) -> PtxTraffic {
        PtxTraffic {
            tx_count: (self.tx_count + 1) as u32,
            tx_per_pipe: if polling {
                mpsl_timeslot::pipe_counted(self.tx_per_pipe, pipe)
            } else {
                self.tx_per_pipe
            },
            ..self
        }
    }

    /// A good ACK has come on `pipe`.
    pub open spec fn acked(self, pipe: u8, polling: bool) -> PtxTraffic {
        PtxTraffic {
            ack_ok_count: (self.ack_ok_count + 1) as u32,
            ack_ok_per_pipe: if polling {
                mpsl_timeslot::pipe_counted(self.ack_ok_per_pipe, pipe)
            } else {
                self.ack_ok_per_pipe
            },
            ..self
        }
    }

    /// An ACK with a bad CRC has come on `pipe`.
    pub open spec fn ack_failed(self, pipe: u8) -> PtxTraffic {
        PtxTraffic {
            ack_crc_fail_count: (self.ack_crc_fail_count + 1) as u32,
            ack_crc_fail_per_pipe: mpsl_timeslot::pipe_counted(self.ack_crc_fail_per_pipe, pipe),
            ..self
        }
    }

    /// The ACK did not come in time on `pipe`.
    pub open spec fn timed_out(self, pipe: u8) -> PtxTraffic {
        PtxTraffic {
            ack_timeout_count: (self.ack_timeout_count + 1) as u32,
            ack_timeout_per_pipe: mpsl_timeslot::pipe_counted(self.ack_timeout_per_pipe, pipe),
            ..self
        }
    }

    /// Count a packet.
    fn count_sent(&mut self, pipe: u8, polling: bool)
        requires
            old(self).has_room(),
        ensures
            *final(self) == old(self).sent(pipe, polling),
    {
        self.tx_count = self.tx_count + 1;
        if polling {
            count_pipe(&mut self.tx_per_pipe, pipe);
        }
    }

    /// Count a good ACK.
    fn count_ack(&mut self, pipe: u8, polling: bool)
        requires
            old(self).has_room(),
        ensures
            *final(self) == old(self).acked(pipe, polling),
    {
        self.ack_ok_count = self.ack_ok_count + 1;
        if polling {
            count_pipe(&mut self.ack_ok_per_pipe, pipe);
        }
    }

    /// Count an ACK with a bad CRC.
    fn count_failure(&mut self, pipe: u8)
        requires
            old(self).has_room(),
        ensures
            *final(self) == old(self).ack_failed(pipe),
    {
        self.ack_crc_fail_count = self.ack_crc_fail_count + 1;
        count_pipe(&mut self.ack_crc_fail_per_pipe, pipe);
    }

    /// Count an ACK that did not come in time.
    fn count_timeout(&mut self, pipe: u8)
        requires
            old(self).has_room(),
        ensures
            *final(self) == old(self).timed_out(pipe),
    {
        self.ack_timeout_count = self.ack_timeout_count + 1;
        count_pipe(&mut self.ack_timeout_per_pipe, pipe);
    }
}

impl PtxAckCounters {
    /// An ACK carried a counter, or none.
    pub open spec fn seen(self, counter: Option<u32>) -> PtxAckCounters {
        match counter {
            Some(counter) => PtxAckCounters {
                payload_count: (self.payload_count + 1) as u32,
                inversions: if counter < self.last {
                    (self.inversions + 1) as u32
                } else {
                    self.inversions
                },
                last: counter,
            },
            None => self,
        }
    }

    /// Take the counter of an ACK into account.
    fn observe(&mut self, counter: Option<u32>)
        requires
            old(self).payload_count < u32::MAX,
            old(self).inversions < u32::MAX,
        ensures
            *final(self) == old(self).seen(counter),
    {
        if let Some(counter) = counter {
            self.payload_count = self.payload_count + 1;
            if counter < self.last {
                self.inversions = self.inversions + 1;
            }
            self.last = counter;
        }
    }
}

impl PtxPacket {
    /// The packet goes out at the start of a slot.
    pub open spec fn sent(self) -> PtxPacket {
        PtxPacket { sent_this_slot: 1, retry_count: 0, acked_this_slot: false, ..self }
    }

    /// The wait for the ACK is over; an acknowledged packet is followed by a new one.
    pub open spec fn answered(self, crc_ok: bool) -> PtxPacket {
        let acked = self.acked_this_slot || crc_ok;
        PtxPacket {
            phase: PtxPhase::Done,
            acked_this_slot: acked,
            pid: if acked {
                ((self.pid + 1) % 4) as u8
            } else {
                self.pid
            },
            payload_byte: if acked {
                ((self.payload_byte + 1) % 256) as u8
            } else {
                self.payload_byte
            },
            ..self
        }
    }

    /// The packet goes out again.
    pub open spec fn retried(self) -> PtxPacket {
        PtxPacket { retry_count: (self.retry_count + 1) as u8, phase: PtxPhase::Tx, ..self }
    }

    /// The radio is in use.
    pub open spec fn active(self) -> bool {
        self.phase != PtxPhase::Done && self.phase != PtxPhase::Idle
    }

    /// The end of the slot has come.
    pub open spec fn cut_off(self) -> PtxPacket {
        PtxPacket {
            phase: if self.active() {
                PtxPhase::Done
            } else {
                self.phase
            },
            ..self
        }
    }

    /// The pipe of the next slot in a poll session.
    pub open spec fn on_next_pipe(self, poll: PtxPolling) -> PtxPacket {
        PtxPacket {
            tx_pipe: match mpsl_common::next_pipe(self.tx_pipe, poll.pipe_mask) {
                Some(next) if poll.pipes > 0 => next,
                _ => self.tx_pipe,
            },
            ..self
        }
    }

    /// End the wait for the ACK.
    fn finish(&mut self, crc_ok: bool)
        ensures
            *final(self) == old(self).answered(crc_ok),
    {
        if crc_ok {
            self.acked_this_slot = true;
        }
        if self.acked_this_slot {
            self.pid = advance_pid(self.pid);
            self.payload_byte = self.payload_byte.wrapping_add(1);
        }
        self.phase = PtxPhase::Done;
    }

    /// Move on to the pipe of the next slot.
    fn move_on(&mut self, poll: &PtxPolling)
        requires
            old(self).tx_pipe < 255,
        ensures
            *final(self) == old(self).on_next_pipe(*poll),
    {
        if poll.pipes > 0 {
            match next_pipe_in_mask(self.tx_pipe, poll.pipe_mask) {
                Some(next) => {
                    self.tx_pipe = next;
                },
                None => {},
            }
        }
    }
}

impl PtxPolling {
    /// A report is due at the end of this slot.
    pub open spec fn due(self) -> bool {
        self.slots_since_report + 1 >= self.report_every
    }

    /// A slot is over.
    pub open spec fn advanced(self) -> PtxPolling {
        PtxPolling {
            slots_since_report: if self.due() {
                0
            } else {
                (self.slots_since_report + 1) as u32
            },
            report_ready: self.report_ready || self.due(),
            ..self
        }
    }

    /// Count a slot, and tell whether a report is due.
    fn advance(&mut self) -> (due: bool)
        requires
            old(self).slots_since_report < u32::MAX,
        ensures
            due == old(self).due(),
            *final(self) == old(self).advanced(),
    {
        self.slots_since_report = self.slots_since_report + 1;
        if self.slots_since_report >= self.report_every {
            self.slots_since_report = 0;
            self.report_ready = true;
            true
        } else {
            false
        }
    }
}

/// A request for the earliest slot.
pub open spec fn earliest(priority: SlotPriority, length_us: u32, timeout_us: u32) -> TimeslotRequest {
    TimeslotRequest::Earliest(EarliestRequest { priority, length_us, timeout_us })
}

impl PtxSlotState {
    /// No count is at its limit, and the pipe to poll after can be counted from.
    pub open spec fn has_room(self) -> bool {
        &&& self.counters.has_room()
        &&& self.traffic.has_room()
        &&& self.schedule.counts.has_room()
        &&& self.acks.payload_count < u32::MAX
        &&& self.acks.inversions < u32::MAX
        &&& self.poll.slots_since_report < u32::MAX
        &&& self.packet.tx_pipe < 255
    }

    /// The windows that the hint in a received ACK skips can be counted.
    pub open spec fn has_room_for(self, rx: Seq<u8>) -> bool {
        ack_hint(rx) matches Some(hint) ==> self.schedule.has_room_for(hint)
    }

    /// The request for the next slot of a poll session: at the locked distance
    /// where that can be asked for, else as early as possible.
    pub open spec fn poll_request(self) -> TimeslotRequest {
        match self.schedule.next_distance() {
            Some(distance_us) => TimeslotRequest::Normal {
                priority: SlotPriority::Normal,
                distance_us,
                length_us: self.plan.slot_length_us,
            },
            None => earliest(
                SlotPriority::Normal,
                self.plan.slot_length_us,
                self.plan.request_timeout_us,
            ),
        }
    }

    /// The request with which a session competes for a slot.
    pub open spec fn urgent_request(self) -> TimeslotRequest {
        earliest(
            SlotPriority::High,
            self.plan.slot_length_us,
            TIMESLOT_EARLIEST_TIMEOUT_MAX_US,
        )
    }

    /// The request with which a session repeats one that was blocked or cancelled:
    /// at high priority where the session was opened so.
    pub open spec fn repeated_request(self) -> TimeslotRequest {
        earliest(
            if self.plan.retry_blocked_at_high_priority {
                SlotPriority::High
            } else {
                SlotPriority::Normal
            },
            self.plan.slot_length_us,
            TIMESLOT_EARLIEST_TIMEOUT_MAX_US,
        )
    }

    /// The result of a send is due.
    pub open spec fn event_done(self, ack_ok: bool) -> PtxSlotState {
        PtxSlotState {
            event: PtxOnDemand { result_ready: true, pending: false, ack_ok, ..self.event },
            ..self
        }
    }

    /// The radio was to be disabled, with this result.
    pub open spec fn disabled_as(self, result: RadioDisableResult) -> PtxSlotState {
        if result is TimedOut {
            PtxSlotState {
                counters: SignalCounters {
                    radio_disable_timeout: (self.counters.radio_disable_timeout + 1) as u32,
                    ..self.counters
                },
                ..self
            }
        } else {
            self
        }
    }
}

/// The hint in a received ACK, if it has a counter and a valid hint behind it.
pub open spec fn ack_hint(rx: Seq<u8>) -> Option<ScheduleHint> {
    if mpsl_common::counter_of(rx) is Some && 4 + rx[2] <= rx.len() {
        match mpsl_schedule::decoded_counter_hint(rx.subrange(4, 4 + rx[2])) {
            Ok(hint) => Some(hint),
            Err(_) => None,
        }
    } else {
        None
    }
}

/// Read the hint of an ACK.
pub fn read_hint(rx: &[u8; 256]) -> (r: Option<ScheduleHint>)
    ensures
        r == ack_hint(rx@),
{
    if read_counter_payload(rx).is_none() {
        return None;
    }
    let len: usize = rx[EsbHeader::DMA_OFFSET] as usize;
    let end: usize = EsbHeader::PAYLOAD_OFFSET + len;
    if end <= 256 {
        let payload: &[u8] = &rx[EsbHeader::PAYLOAD_OFFSET..end];
        match decode_counter_payload_schedule_hint(payload) {
            Ok(hint) => Some(hint),
            Err(_) => None,
        }
    } else {
        None
    }
}

/// Arming both compare channels of TIMER0 at the start of a slot.
pub open spec fn arm_slot_log(log: Seq<HwOp>, match_us: u32, ack: bool) -> Seq<HwOp> {
    let log = hw::timer0(log, TimerOp::ClearCompare(0));
    let log = hw::timer0(log, TimerOp::ClearCompare(1));
    let log = hw::timer0(log, TimerOp::Compare { channel: 0, value: match_us });
    let log = hw::timer0(log, TimerOp::Compare { channel: 1, value: 0xFFFF_FFFF });
    let log = hw::timer0(log, TimerOp::EnableCompare(0));
    if ack {
        hw::timer0(log, TimerOp::EnableCompare(1))
    } else {
        log
    }
}

/// Arming the ACK timeout.
pub open spec fn arm_ack_log(log: Seq<HwOp>, timeout_us: u32) -> Seq<HwOp> {
    let log = hw::timer0(log, TimerOp::CompareAfter { channel: 1, micros: timeout_us });
    let log = hw::timer0(log, TimerOp::ClearCompare(1));
    hw::timer0(log, TimerOp::EnableCompare(1))
}

/// Turning to the ACK after a transmission.
pub open spec fn turn_to_ack_log(log: Seq<HwOp>, timeout_us: u32) -> Seq<HwOp> {
    let log = hw::radio(log, RadioOp::ClearEvent(RadioEvent::Disabled));
    let log = hw::radio(log, RadioOp::ClearEvent(RadioEvent::Ready));
    let log = hw::radio(log, RadioOp::Fence(FenceOrder::Release));
    let log = hw::radio(log, RadioOp::PacketPtr(DmaBuffer::SlotRx));
    let log = hw::radio(log, RadioOp::ShortDisabledRxen(false));
    arm_ack_log(log, timeout_us)
}

/// Looking at what was received, and disarming the ACK timeout if it is good.
pub open spec fn ack_received_log(log: Seq<HwOp>, crc_ok: bool) -> Seq<HwOp> {
    let log = hw::radio(log, RadioOp::ClearEvent(RadioEvent::Disabled));
    let log = hw::radio(log, RadioOp::Fence(FenceOrder::Acquire));
    let log = if crc_ok {
        hw::timer0(hw::timer0(log, TimerOp::DisableCompare(1)), TimerOp::ClearCompare(1))
    } else {
        log
    };
    log.push(HwOp::DisableRadio { clear_rxen: false, clear_txen: false })
}

/// The end of a slot.
pub open spec fn slot_over_log(log: Seq<HwOp>, active: bool) -> Seq<HwOp> {
    let log = hw::timer0(log, TimerOp::ClearCompare(0));
    let log = hw::timer0(log, TimerOp::DisableCompare(0));
    let log = hw::timer0(log, TimerOp::DisableCompare(1));
    if active {
        log.push(HwOp::DisableRadio { clear_rxen: true, clear_txen: true })
    } else {
        log
    }
}

/// Transmitting at the start of a slot.
pub open spec fn slot_transmit_log(log: Seq<HwOp>, plan: PtxPlan, pipe: u8) -> Seq<HwOp> {
    let log = radio::init_log(
        radio::power_cycle_log(log),
        plan.radio.fast_ramp_up,
        plan.config->0,
        plan.addresses->0,
    );
    radio::transmit_log(
        arm_slot_log(log, plan.in_slot_match_us, true),
        pipe,
        DmaBuffer::SlotTx,
        true,
    ).push(HwOp::UnmaskRadio)
}

/// An answer with an action.
pub open spec fn answer(action: SlotAction) -> SlotReply {
    SlotReply { action: Some(action), submit: false }
}

impl PtxSlotWorld {
    /// The waiting task is woken.
    pub open spec fn woken(self) -> PtxSlotWorld {
        PtxSlotWorld { log: self.log.push(HwOp::WakeSession), ..self }
    }

    /// The signal is counted.
    pub open spec fn counted(self, signal: TimeslotSignal) -> PtxSlotWorld {
        PtxSlotWorld {
            state: PtxSlotState { counters: self.state.counters.plus(signal), ..self.state },
            ..self
        }
    }

    /// The action is answered and remembered.
    pub open spec fn acting(self, action: SlotAction) -> (PtxSlotWorld, SlotReply) {
        (PtxSlotWorld { state: PtxSlotState { action, ..self.state }, ..self }, answer(action))
    }

    /// The session has ended.
    pub open spec fn ended(self) -> PtxSlotWorld {
        PtxSlotWorld { state: PtxSlotState { done: true, ..self.state }, ..self }.woken()
    }

    /// The packet is transmitted from the start of a slot on.
    pub open spec fn transmitted(self) -> PtxSlotWorld {
        let s = self.state;
        PtxSlotWorld {
            state: PtxSlotState {
                traffic: s.traffic.sent(s.packet.tx_pipe, s.poll.pipes > 0),
                packet: s.packet.sent(),
                ..s
            },
            tx: if s.event.mode {
                self.tx
            } else {
                mpsl_common::counter_packet(self.tx, 4, s.packet.pid, s.traffic.tx_count)
            },
            log: slot_transmit_log(self.log, s.plan, s.packet.tx_pipe),
        }
    }

    /// The slot is not used.
    pub open spec fn passed_over(self) -> PtxSlotWorld {
        let s = self.state;
        PtxSlotWorld {
            state: PtxSlotState {
                schedule: s.schedule.skipped(),
                packet: PtxPacket { phase: PtxPhase::Done, ..s.packet },
                ..s
            },
            log: arm_slot_log(self.log, s.plan.in_slot_match_us, false),
            ..self
        }
    }

    /// The phase within the slot changes.
    pub open spec fn in_phase(self, phase: PtxPhase) -> PtxSlotWorld {
        PtxSlotWorld {
            state: PtxSlotState { packet: PtxPacket { phase, ..self.state.packet }, ..self.state },
            ..self
        }
    }

    /// A poll session turns to its next pipe.
    pub open spec fn on_next_pipe(self) -> PtxSlotWorld {
        PtxSlotWorld {
            state: PtxSlotState {
                packet: self.state.packet.on_next_pipe(self.state.poll),
                ..self.state
            },
            ..self
        }
    }

    /// A slot starts.
    pub open spec fn on_start(self) -> (PtxSlotWorld, SlotReply) {
        let w = self.counted(TimeslotSignal::Start);
        if w.state.event.mode && !w.state.event.pending {
            w.acting(SlotAction::End)
        } else if w.state.plan.config is None || w.state.plan.addresses is None {
            w.in_phase(PtxPhase::Tx).counted(TimeslotSignal::InvalidReturn).ended().acting(
                SlotAction::End,
            )
        } else {
            let w = w.in_phase(PtxPhase::Tx).on_next_pipe();
            if w.state.schedule.skips() {
                w.passed_over().acting(SlotAction::Nothing)
            } else {
                w.transmitted().acting(SlotAction::Nothing)
            }
        }
    }

    /// The transmission is over, and the ACK is awaited.
    pub open spec fn turned_to_ack(self) -> PtxSlotWorld {
        PtxSlotWorld {
            log: turn_to_ack_log(self.log, self.state.plan.ack_timeout_us),
            ..self.in_phase(PtxPhase::WaitAck)
        }
    }

    /// A good ACK has come.
    pub open spec fn acked(self, rx: Seq<u8>, elapsed_us: u32) -> PtxSlotWorld {
        let s = self.state;
        PtxSlotWorld {
            state: PtxSlotState {
                traffic: s.traffic.acked(s.packet.tx_pipe, s.poll.pipes > 0),
                packet: s.packet.answered(true),
                acks: s.acks.seen(mpsl_common::counter_of(rx)),
                schedule: s.schedule.acked(ack_hint(rx), elapsed_us, s.plan.in_slot_match_us),
                ..s
            },
            log: ack_received_log(self.log, true),
            ..self
        }
    }

    /// An ACK with a bad CRC has come.
    pub open spec fn ack_failed(self) -> PtxSlotWorld {
        let s = self.state;
        PtxSlotWorld {
            state: PtxSlotState {
                traffic: s.traffic.ack_failed(s.packet.tx_pipe),
                packet: s.packet.answered(false),
                schedule: s.schedule.missed(),
                ..s
            },
            log: ack_received_log(self.log, false),
            ..self
        }
    }

    /// The radio interrupts.
    pub open spec fn on_radio(self, sample: PtxSlotSample, rx: Seq<u8>) -> (
        PtxSlotWorld,
        SlotReply,
    ) {
        let w = self.counted(TimeslotSignal::Radio);
        let w = if !sample.disabled {
            w
        } else {
            match w.state.packet.phase {
                PtxPhase::Tx => w.turned_to_ack(),
                PtxPhase::WaitAck => if sample.crc_ok {
                    w.acked(rx, sample.elapsed_us)
                } else {
                    w.ack_failed()
                },
                _ => w,
            }
        };
        w.acting(SlotAction::Nothing)
    }

    /// The ACK did not come in time.
    pub open spec fn ack_timed_out(self) -> PtxSlotWorld {
        let s = self.state;
        PtxSlotWorld {
            state: PtxSlotState {
                traffic: s.traffic.timed_out(s.packet.tx_pipe),
                schedule: s.schedule.missed(),
                ..s
            },
            log: hw::timer0(self.log, TimerOp::ClearCompare(1)).push(
                HwOp::DisableRadio { clear_rxen: true, clear_txen: false },
            ),
            ..self
        }
    }

    /// The packet is transmitted again within the slot.
    pub open spec fn retried(self) -> PtxSlotWorld {
        let s = self.state;
        PtxSlotWorld {
            state: PtxSlotState { packet: s.packet.retried(), ..s },
            tx: if s.event.mode {
                self.tx
            } else {
                mpsl_common::counter_packet(
                    self.tx,
                    4,
                    s.packet.pid,
                    if s.traffic.tx_count == 0 {
                        u32::MAX
                    } else {
                        (s.traffic.tx_count - 1) as u32
                    },
                )
            },
            log: arm_ack_log(
                radio::transmit_log(self.log, s.packet.tx_pipe, DmaBuffer::SlotTx, true),
                s.plan.ack_timeout_us,
            ),
        }
    }

    /// The packet is given up.
    pub open spec fn given_up(self) -> PtxSlotWorld {
        PtxSlotWorld {
            log: hw::timer0(self.log, TimerOp::DisableCompare(1)),
            ..self.in_phase(PtxPhase::Done)
        }
    }

    /// The radio is taken out of use at the end of the slot.
    pub open spec fn cut_off(self) -> PtxSlotWorld {
        PtxSlotWorld {
            state: PtxSlotState { packet: self.state.packet.cut_off(), ..self.state },
            log: slot_over_log(self.log, self.state.packet.active()),
            ..self
        }
    }

    /// The result of a send is due.
    pub open spec fn event_done(self, ack_ok: bool) -> PtxSlotWorld {
        PtxSlotWorld { state: self.state.event_done(ack_ok), ..self }.woken()
    }

    /// A poll session has ended a slot and requests the next.
    pub open spec fn polled(self) -> PtxSlotWorld {
        let s = self.state;
        let w = PtxSlotWorld {
            state: PtxSlotState {
                poll: s.poll.advanced(),
                request: s.poll_request(),
                schedule: s.schedule.after_request(),
                ..s
            },
            ..self
        };
        if s.poll.due() {
            w.woken()
        } else {
            w
        }
    }

    /// The slot is over: an on-demand session reports, a poll session goes on to
    /// the next pipe, and a chain goes on or ends.
    pub open spec fn slot_over(self) -> (PtxSlotWorld, SlotReply) {
        let w = self.cut_off();
        let s = w.state;
        if s.event.mode {
            w.event_done(s.packet.acked_this_slot).acting(SlotAction::Nothing)
        } else if s.poll.pipes > 0 {
            w.polled().acting(SlotAction::Request)
        } else if s.plan.target_count > 0 && s.counters.start < s.plan.target_count {
            w.acting(SlotAction::Request)
        } else {
            w.ended().acting(SlotAction::End)
        }
    }

    /// TIMER0 interrupts: first for the ACK timeout, then for the end of the slot.
    pub open spec fn on_timer0(self, sample: PtxSlotSample) -> (PtxSlotWorld, SlotReply) {
        let w = self.counted(TimeslotSignal::Timer0);
        let timed_out = sample.ack_timeout && w.state.packet.phase == PtxPhase::WaitAck;
        if timed_out && w.state.packet.retry_count < w.state.plan.max_retries {
            w.ack_timed_out().retried().acting(SlotAction::Nothing)
        } else {
            let w = if timed_out {
                w.ack_timed_out().given_up()
            } else {
                w
            };
            if sample.slot_end {
                w.slot_over()
            } else {
                (w, answer(w.state.action))
            }
        }
    }

    /// A poll session starts over.
    pub open spec fn restarted(self) -> PtxSlotWorld {
        let s = self.state;
        PtxSlotWorld {
            state: PtxSlotState {
                schedule: if s.schedule.gate.mode == PtxScheduleMode::PhaseLocked {
                    s.schedule.lost()
                } else {
                    s.schedule
                },
                request: earliest(
                    SlotPriority::Normal,
                    s.plan.slot_length_us,
                    s.plan.request_timeout_us,
                ),
                poll: PtxPolling { report_ready: true, ..s.poll },
                ..s
            },
            ..self
        }
    }

    /// No request is pending: a poll session starts over.
    pub open spec fn on_session_idle(self) -> (PtxSlotWorld, SlotReply) {
        let w = self.counted(TimeslotSignal::SessionIdle);
        if w.state.poll.pipes > 0 {
            (w.restarted().woken(), SlotReply { action: None, submit: true })
        } else {
            (w.woken(), SlotReply { action: None, submit: false })
        }
    }

    /// A request was blocked or cancelled: it is repeated.
    pub open spec fn on_blocked(self, signal: TimeslotSignal) -> (PtxSlotWorld, SlotReply) {
        let w = self.counted(signal);
        let s = w.state;
        (
            PtxSlotWorld {
                state: PtxSlotState {
                    schedule: s.schedule.lost_if_locked(),
                    request: s.repeated_request(),
                    ..s
                },
                ..w
            },
            SlotReply { action: None, submit: true },
        )
    }

    /// The session is closed.
    pub open spec fn on_closed(self) -> (PtxSlotWorld, SlotReply) {
        (
            self.counted(TimeslotSignal::SessionClosed).ended(),
            SlotReply { action: None, submit: false },
        )
    }

    /// The slot was not given back in time.
    pub open spec fn on_overstayed(self) -> (PtxSlotWorld, SlotReply) {
        let w = self.counted(TimeslotSignal::Overstayed).in_phase(PtxPhase::Idle);
        let s = w.state;
        if s.poll.pipes > 0 {
            PtxSlotWorld {
                state: PtxSlotState {
                    schedule: s.schedule.lost(),
                    request: s.urgent_request(),
                    ..s
                },
                ..w
            }.acting(SlotAction::Request)
        } else if s.event.mode {
            w.event_done(false).acting(SlotAction::Nothing)
        } else {
            w.ended().acting(SlotAction::End)
        }
    }

    /// A submitted request was refused.
    pub open spec fn refused(self) -> PtxSlotWorld {
        self.counted(TimeslotSignal::InvalidReturn).ended()
    }

    /// Any signal.
    pub open spec fn signalled(
        self,
        signal: TimeslotSignal,
        sample: PtxSlotSample,
        rx: Seq<u8>,
    ) -> (PtxSlotWorld, SlotReply) {
        match signal {
            TimeslotSignal::Start => self.on_start(),
            TimeslotSignal::Radio => self.on_radio(sample, rx),
            TimeslotSignal::Timer0 => self.on_timer0(sample),
            TimeslotSignal::SessionIdle => self.on_session_idle(),
            TimeslotSignal::Blocked => self.on_blocked(signal),
            TimeslotSignal::Cancelled => self.on_blocked(signal),
            TimeslotSignal::SessionClosed => self.on_closed(),
            TimeslotSignal::Overstayed => self.on_overstayed(),
            _ => self.acting(SlotAction::End),
        }
    }
}

/// Arm both compare channels of TIMER0 at the start of a slot.
fn arm_slot(match_us: u32, ack: bool, ops: &mut Vec<HwOp>)
    ensures
        final(ops)@ == arm_slot_log(old(ops)@, match_us, ack),
{
    ops.push(HwOp::Timer0(TimerOp::ClearCompare(0)));
    ops.push(HwOp::Timer0(TimerOp::ClearCompare(1)));
    ops.push(HwOp::Timer0(TimerOp::Compare { channel: 0, value: match_us }));
    ops.push(HwOp::Timer0(TimerOp::Compare { channel: 1, value: 0xFFFF_FFFF }));
    ops.push(HwOp::Timer0(TimerOp::EnableCompare(0)));
    if ack {
        ops.push(HwOp::Timer0(TimerOp::EnableCompare(1)));
    }
}

/// Arm the ACK timeout.
fn arm_ack(timeout_us: u32, ops: &mut Vec<HwOp>)
    ensures
        final(ops)@ == arm_ack_log(old(ops)@, timeout_us),
{
    ops.push(HwOp::Timer0(TimerOp::CompareAfter { channel: 1, micros: timeout_us }));
    ops.push(HwOp::Timer0(TimerOp::ClearCompare(1)));
    ops.push(HwOp::Timer0(TimerOp::EnableCompare(1)));
}

/// Turn to the ACK after a transmission.
fn turn_to_ack(timeout_us: u32, ops: &mut Vec<HwOp>)
    ensures
        final(ops)@ == turn_to_ack_log(old(ops)@, timeout_us),
{
    ops.push(HwOp::Radio(RadioOp::ClearEvent(RadioEvent::Disabled)));
    ops.push(HwOp::Radio(RadioOp::ClearEvent(RadioEvent::Ready)));
    ops.push(HwOp::Radio(RadioOp::Fence(FenceOrder::Release)));
    ops.push(HwOp::Radio(RadioOp::PacketPtr(DmaBuffer::SlotRx)));
    ops.push(HwOp::Radio(RadioOp::ShortDisabledRxen(false)));
    arm_ack(timeout_us, ops);
}

/// Look at what was received, and disarm the ACK timeout if it is good.
fn end_ack_wait(crc_ok: bool, ops: &mut Vec<HwOp>)
    ensures
        final(ops)@ == ack_received_log(old(ops)@, crc_ok),
{
    ops.push(HwOp::Radio(RadioOp::ClearEvent(RadioEvent::Disabled)));
    ops.push(HwOp::Radio(RadioOp::Fence(FenceOrder::Acquire)));
    if crc_ok {
        ops.push(HwOp::Timer0(TimerOp::DisableCompare(1)));
        ops.push(HwOp::Timer0(TimerOp::ClearCompare(1)));
    }
    ops.push(HwOp::DisableRadio { clear_rxen: false, clear_txen: false });
}

/// End the slot on the peripherals.
fn end_slot(active: bool, ops: &mut Vec<HwOp>)
    ensures
        final(ops)@ == slot_over_log(old(ops)@, active),
{
    ops.push(HwOp::Timer0(TimerOp::ClearCompare(0)));
    ops.push(HwOp::Timer0(TimerOp::DisableCompare(0)));
    ops.push(HwOp::Timer0(TimerOp::DisableCompare(1)));
    if active {
        ops.push(HwOp::DisableRadio { clear_rxen: true, clear_txen: true });
    }
}

/// Answer with an action.
fn reply(action: SlotAction) -> (r: SlotReply)
    ensures
        r == answer(action),
{
    SlotReply { action: Some(action), submit: false }
}

/// Request the earliest slot.
pub(crate) fn request_earliest(priority: SlotPriority, length_us: u32, timeout_us: u32) -> (r:
    TimeslotRequest)
    ensures
        r == earliest(priority, length_us, timeout_us),
{
    TimeslotRequest::Earliest(EarliestRequest { priority, length_us, timeout_us })
}

impl PtxSlots {
    /// Remember an action, and answer with it.
    fn act(&mut self, action: SlotAction, ops: &Vec<HwOp>) -> (r: SlotReply)
        ensures
            slot_world(*final(self), ops@) == slot_world(*old(self), ops@).acting(action).0,
            r == slot_world(*old(self), ops@).acting(action).1,
    {
        self.state.action = action;
        reply(action)
    }

    /// End the session.
    fn end(&mut self, ops: &mut Vec<HwOp>)
        ensures
            slot_world(*final(self), final(ops)@) == slot_world(*old(self), old(ops)@).ended(),
    {
        self.state.done = true;
        ops.push(HwOp::WakeSession);
    }

    /// Transmit the packet at the start of a slot.
    fn transmit(&mut self, config: &EsbConfig, addresses: &EsbAddresses, ops: &mut Vec<HwOp>)
        requires
            old(self).state.traffic.has_room(),
            old(self).state.plan.config == Some(*config),
            old(self).state.plan.addresses == Some(*addresses),
        ensures
            slot_world(*final(self), final(ops)@) == slot_world(
                *old(self),
                old(ops)@,
            ).transmitted(),
    {
        let radio = self.state.plan.radio;
        let pipe: u8 = self.state.packet.tx_pipe;
        radio.power_cycle(ops);
        radio.init(config, addresses, ops);
        if !self.state.event.mode {
            write_counter_packet(&mut self.tx, self.state.packet.pid, self.state.traffic.tx_count);
        }
        arm_slot(self.state.plan.in_slot_match_us, true, ops);
        radio.transmit(pipe, DmaBuffer::SlotTx, true, ops);
        self.state.traffic.count_sent(pipe, self.state.poll.pipes > 0);
        self.state.packet.sent_this_slot = 1;
        self.state.packet.retry_count = 0;
        self.state.packet.acked_this_slot = false;
        ops.push(HwOp::UnmaskRadio);
    }

    /// Start a slot.
    fn on_start(&mut self, ops: &mut Vec<HwOp>) -> (r: SlotReply)
        requires
            old(self).state.has_room(),
        ensures
            slot_world(*final(self), final(ops)@) == slot_world(
                *old(self),
                old(ops)@,
            ).on_start().0,
            r == slot_world(*old(self), old(ops)@).on_start().1,
    {
        self.state.counters.count(TimeslotSignal::Start);
        if self.state.event.mode && !self.state.event.pending {
            return self.act(SlotAction::End, ops);
        }
        self.state.packet.phase = PtxPhase::Tx;
        match (self.state.plan.config, self.state.plan.addresses) {
            (Some(config), Some(addresses)) => {
                self.state.packet.move_on(&self.state.poll);
                if self.state.schedule.skip_slot() {
                    self.state.packet.phase = PtxPhase::Done;
                    arm_slot(self.state.plan.in_slot_match_us, false, ops);
                } else {
                    self.transmit(&config, &addresses, ops);
                }
                self.act(SlotAction::Nothing, ops)
            },
            _ => {
                self.state.counters.invalid_return = self.state.counters.invalid_return + 1;
                self.end(ops);
                self.act(SlotAction::End, ops)
            },
        }
    }

    /// Take a good ACK into account.
    fn take_ack(&mut self, rx: &[u8; 256], ack_offset_us: u32, ops: &mut Vec<HwOp>)
        requires
            old(self).state.traffic.has_room(),
            old(self).state.schedule.counts.has_room(),
            old(self).state.acks.payload_count < u32::MAX,
            old(self).state.acks.inversions < u32::MAX,
            old(self).state.has_room_for(rx@),
        ensures
            slot_world(*final(self), final(ops)@) == slot_world(*old(self), old(ops)@).acked(
                rx@,
                ack_offset_us,
            ),
    {
        self.state.traffic.count_ack(self.state.packet.tx_pipe, self.state.poll.pipes > 0);
        self.state.acks.observe(read_counter_payload(rx));
        self.state.schedule.observe_ack(
            read_hint(rx),
            ack_offset_us,
            self.state.plan.in_slot_match_us,
        );
        self.state.packet.finish(true);
        end_ack_wait(true, ops);
    }

    /// Take an ACK with a bad CRC into account.
    fn take_bad_ack(&mut self, ops: &mut Vec<HwOp>)
        requires
            old(self).state.traffic.has_room(),
            old(self).state.schedule.counts.has_room(),
        ensures
            slot_world(*final(self), final(ops)@) == slot_world(
                *old(self),
                old(ops)@,
            ).ack_failed(),
    {
        self.state.traffic.count_failure(self.state.packet.tx_pipe);
        self.state.schedule.observe_miss();
        self.state.packet.finish(false);
        end_ack_wait(false, ops);
    }

    /// Handle a radio interrupt.
    fn on_radio(&mut self, sample: PtxSlotSample, rx: &[u8; 256], ops: &mut Vec<HwOp>) -> (r:
        SlotReply)
        requires
            old(self).state.has_room(),
            old(self).state.has_room_for(rx@),
        ensures
            slot_world(*final(self), final(ops)@) == slot_world(*old(self), old(ops)@).on_radio(
                sample,
                rx@,
            ).0,
            r == slot_world(*old(self), old(ops)@).on_radio(sample, rx@).1,
    {
        self.state.counters.count(TimeslotSignal::Radio);
        if sample.disabled {
            match self.state.packet.phase {
                PtxPhase::Tx => {
                    turn_to_ack(self.state.plan.ack_timeout_us, ops);
                    self.state.packet.phase = PtxPhase::WaitAck;
                },
                PtxPhase::WaitAck => {
                    if sample.crc_ok {
                        self.take_ack(rx, sample.elapsed_us, ops);
                    } else {
                        self.take_bad_ack(ops);
                    }
                },
                _ => {},
            }
        }
        self.act(SlotAction::Nothing, ops)
    }

    /// Take an ACK that did not come in time into account.
    fn take_timeout(&mut self, ops: &mut Vec<HwOp>)
        requires
            old(self).state.traffic.has_room(),
            old(self).state.schedule.counts.has_room(),
        ensures
            slot_world(*final(self), final(ops)@) == slot_world(
                *old(self),
                old(ops)@,
            ).ack_timed_out(),
    {
        ops.push(HwOp::Timer0(TimerOp::ClearCompare(1)));
        self.state.traffic.count_timeout(self.state.packet.tx_pipe);
        self.state.schedule.observe_miss();
        ops.push(HwOp::DisableRadio { clear_rxen: true, clear_txen: false });
    }

    /// Transmit the packet again within the slot.
    fn retry(&mut self, ops: &mut Vec<HwOp>)
        requires
            old(self).state.packet.retry_count < old(self).state.plan.max_retries,
        ensures
            slot_world(*final(self), final(ops)@) == slot_world(*old(self), old(ops)@).retried(),
    {
        self.state.packet.retry_count = self.state.packet.retry_count + 1;
        self.state.packet.phase = PtxPhase::Tx;
        if !self.state.event.mode {
            write_counter_packet(
                &mut self.tx,
                self.state.packet.pid,
                self.state.traffic.tx_count.wrapping_sub(1),
            );
        }
        let radio = self.state.plan.radio;
        radio.transmit(self.state.packet.tx_pipe, DmaBuffer::SlotTx, true, ops);
        arm_ack(self.state.plan.ack_timeout_us, ops);
    }

    /// Report the result of a send.
    fn finish_event(&mut self, ack_ok: bool, ops: &mut Vec<HwOp>)
        ensures
            slot_world(*final(self), final(ops)@) == slot_world(*old(self), old(ops)@).event_done(
                ack_ok,
            ),
    {
        self.state.event.result_ready = true;
        self.state.event.pending = false;
        self.state.event.ack_ok = ack_ok;
        ops.push(HwOp::WakeSession);
    }

    /// Request the next slot of a poll session.
    fn continue_polling(&mut self, ops: &mut Vec<HwOp>)
        requires
            old(self).state.poll.slots_since_report < u32::MAX,
            old(self).state.schedule.counts.reacquire_count < u32::MAX,
        ensures
            slot_world(*final(self), final(ops)@) == slot_world(*old(self), old(ops)@).polled(),
    {
        if self.state.poll.advance() {
            ops.push(HwOp::WakeSession);
        }
        self.state.request =
        match self.state.schedule.take_distance() {
            Some(distance_us) => TimeslotRequest::Normal {
                priority: SlotPriority::Normal,
                distance_us,
                length_us: self.state.plan.slot_length_us,
            },
            None => request_earliest(
                SlotPriority::Normal,
                self.state.plan.slot_length_us,
                self.state.plan.request_timeout_us,
            ),
        };
    }

    /// Take the radio out of use at the end of the slot.
    fn stop_radio(&mut self, ops: &mut Vec<HwOp>)
        ensures
            slot_world(*final(self), final(ops)@) == slot_world(*old(self), old(ops)@).cut_off(),
    {
        let active: bool = self.state.packet.phase != PtxPhase::Done && self.state.packet.phase
            != PtxPhase::Idle;
        end_slot(active, ops);
        if active {
            self.state.packet.phase = PtxPhase::Done;
        }
    }

    /// End the slot.
    fn finish_slot(&mut self, ops: &mut Vec<HwOp>) -> (r: SlotReply)
        requires
            old(self).state.poll.slots_since_report < u32::MAX,
            old(self).state.schedule.counts.reacquire_count < u32::MAX,
        ensures
            slot_world(*final(self), final(ops)@) == slot_world(
                *old(self),
                old(ops)@,
            ).slot_over().0,
            r == slot_world(*old(self), old(ops)@).slot_over().1,
    {
        self.stop_radio(ops);
        if self.state.event.mode {
            self.finish_event(self.state.packet.acked_this_slot, ops);
            self.act(SlotAction::Nothing, ops)
        } else if self.state.poll.pipes > 0 {
            self.continue_polling(ops);
            self.act(SlotAction::Request, ops)
        } else if self.state.plan.target_count > 0 && self.state.counters.start
            < self.state.plan.target_count {
            self.act(SlotAction::Request, ops)
        } else {
            self.end(ops);
            self.act(SlotAction::End, ops)
        }
    }

    /// Handle a TIMER0 interrupt.
    fn on_timer0(&mut self, sample: PtxSlotSample, ops: &mut Vec<HwOp>) -> (r: SlotReply)
        requires
            old(self).state.has_room(),
        ensures
            slot_world(*final(self), final(ops)@) == slot_world(*old(self), old(ops)@).on_timer0(
                sample,
            ).0,
            r == slot_world(*old(self), old(ops)@).on_timer0(sample).1,
    {
        self.state.counters.count(TimeslotSignal::Timer0);
        if sample.ack_timeout && self.state.packet.phase == PtxPhase::WaitAck {
            self.take_timeout(ops);
            if self.state.packet.retry_count < self.state.plan.max_retries {
                self.retry(ops);
                return self.act(SlotAction::Nothing, ops);
            }
            self.state.packet.phase = PtxPhase::Done;
            ops.push(HwOp::Timer0(TimerOp::DisableCompare(1)));
        }
        if sample.slot_end {
            self.finish_slot(ops)
        } else {
            reply(self.state.action)
        }
    }

    /// Handle the signal that no request is pending.
    fn on_session_idle(&mut self, ops: &mut Vec<HwOp>) -> (r: SlotReply)
        requires
            old(self).state.has_room(),
        ensures
            slot_world(*final(self), final(ops)@) == slot_world(
                *old(self),
                old(ops)@,
            ).on_session_idle().0,
            r == slot_world(*old(self), old(ops)@).on_session_idle().1,
    {
        self.state.counters.count(TimeslotSignal::SessionIdle);
        ops.push(HwOp::WakeSession);
        if self.state.poll.pipes > 0 {
            if self.state.schedule.gate.mode == PtxScheduleMode::PhaseLocked {
                self.state.schedule.lose_lock();
            }
            self.state.request =
            request_earliest(
                SlotPriority::Normal,
                self.state.plan.slot_length_us,
                self.state.plan.request_timeout_us,
            );
            self.state.poll.report_ready = true;
            SlotReply { action: None, submit: true }
        } else {
            SlotReply { action: None, submit: false }
        }
    }

    /// Ask for a slot with priority.
    fn request_urgently(&mut self)
        ensures
            final(self).tx == old(self).tx,
            final(self).state == (PtxSlotState {
                request: old(self).state.urgent_request(),
                ..old(self).state
            }),
    {
        self.state.request =
        request_earliest(
            SlotPriority::High,
            self.state.plan.slot_length_us,
            TIMESLOT_EARLIEST_TIMEOUT_MAX_US,
        );
    }

    /// Handle a blocked or cancelled request.
    fn on_blocked(&mut self, signal: TimeslotSignal, ops: &Vec<HwOp>) -> (r: SlotReply)
        requires
            old(self).state.has_room(),
        ensures
            slot_world(*final(self), ops@) == slot_world(*old(self), ops@).on_blocked(signal).0,
            r == slot_world(*old(self), ops@).on_blocked(signal).1,
    {
        self.state.counters.count(signal);
        self.state.schedule.lose_lock_if_locked();
        let priority = if self.state.plan.retry_blocked_at_high_priority {
            SlotPriority::High
        } else {
            SlotPriority::Normal
        };
        self.state.request =
        request_earliest(
            priority,
            self.state.plan.slot_length_us,
            TIMESLOT_EARLIEST_TIMEOUT_MAX_US,
        );
        SlotReply { action: None, submit: true }
    }

    /// Handle a slot that was not given back in time.
    fn on_overstayed(&mut self, ops: &mut Vec<HwOp>) -> (r: SlotReply)
        requires
            old(self).state.has_room(),
        ensures
            slot_world(*final(self), final(ops)@) == slot_world(
                *old(self),
                old(ops)@,
            ).on_overstayed().0,
            r == slot_world(*old(self), old(ops)@).on_overstayed().1,
    {
        self.state.counters.count(TimeslotSignal::Overstayed);
        self.state.packet.phase = PtxPhase::Idle;
        if self.state.poll.pipes > 0 {
            self.state.schedule.lose_lock();
            self.request_urgently();
            self.act(SlotAction::Request, ops)
        } else if self.state.event.mode {
            self.finish_event(false, ops);
            self.act(SlotAction::Nothing, ops)
        } else {
            self.end(ops);
            self.act(SlotAction::End, ops)
        }
    }

    /// Handle a signal of the service layer. `rx` is the receive buffer.
    pub fn ptx_timeslot_callback(
        &mut self,
        signal: TimeslotSignal,
        sample: PtxSlotSample,
        rx: &[u8; 256],
        ops: &mut Vec<HwOp>,
    ) -> (r: SlotReply)
        requires
            old(self).state.has_room(),
            old(self).state.has_room_for(rx@),
        ensures
            slot_world(*final(self), final(ops)@) == slot_world(*old(self), old(ops)@).signalled(
                signal,
                sample,
                rx@,
            ).0,
            r == slot_world(*old(self), old(ops)@).signalled(signal, sample, rx@).1,
    {
        match signal {
            TimeslotSignal::Start => self.on_start(ops),
            TimeslotSignal::Radio => self.on_radio(sample, rx, ops),
            TimeslotSignal::Timer0 => self.on_timer0(sample, ops),
            TimeslotSignal::SessionIdle => self.on_session_idle(ops),
            TimeslotSignal::Blocked => self.on_blocked(signal, ops),
            TimeslotSignal::Cancelled => self.on_blocked(signal, ops),
            TimeslotSignal::SessionClosed => {
                self.state.counters.count(signal);
                self.end(ops);
                SlotReply { action: None, submit: false }
            },
            TimeslotSignal::Overstayed => self.on_overstayed(ops),
            _ => self.act(SlotAction::End, ops),
        }
    }

    /// The service layer refused a submitted request: the session has ended.
    pub fn request_refused(&mut self, ops: &mut Vec<HwOp>)
        requires
            old(self).state.counters.has_room(),
        ensures
            slot_world(*final(self), final(ops)@) == slot_world(*old(self), old(ops)@).refused(),
    {
        self.state.counters.count(TimeslotSignal::InvalidReturn);
        self.end(ops);
    }

    /// The radio was to be disabled: count it if it was not in time.
    pub fn radio_disabled(&mut self, result: RadioDisableResult)
        requires
            old(self).state.counters.has_room(),
        ensures
            final(self).tx == old(self).tx,
            final(self).state == old(self).state.disabled_as(result),
    {
        if result.timed_out() {
            self.state.counters.radio_disable_timeout = self.state.counters.radio_disable_timeout
                + 1;
        }
    }

    /// Check that no count is at its limit, so that the next signal can be handled.
    pub fn check_room(&self, rx: &[u8; 256]) -> (r: bool)
        ensures
            r == (self.state.has_room() && self.state.has_room_for(rx@)),
    {
        if !(self.state.counters.check_room() && self.state.traffic.check_room()
            && self.state.schedule.counts.check_room() && self.state.acks.payload_count < u32::MAX
            && self.state.acks.inversions < u32::MAX && self.state.poll.slots_since_report
            < u32::MAX && self.state.packet.tx_pipe < 255) {
            return false;
        }
        match read_hint(rx) {
            Some(hint) => self.state.schedule.check_room_for(hint),
            None => true,
        }
    }
}

} // verus!
