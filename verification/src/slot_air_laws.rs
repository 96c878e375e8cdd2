//! What the timeslot sessions have the radio and TIMER0 do, and what they count for it.

use crate::air_laws::sends;
use crate::header;
use crate::hw::{DmaBuffer, HwOp, TimerOp};
use crate::mpsl_common;
use crate::mpsl_timeslot;
use crate::mpsl_timeslot::TimeslotSignal;
use crate::radio;
use crate::radio_model;
use crate::radio_model::{lemma_radio_push, radio_after, RadioRegs};
use crate::slot_laws;
use crate::slot_laws::PtxSlotEvent;
use crate::slot_prx;
use crate::slot_prx::{PrxPhase, PrxSlotSample, PrxSlotWorld};
use crate::slot_ptx;
use crate::slot_ptx::{PtxPhase, PtxSlotSample, PtxSlotState, PtxSlotWorld};
use vstd::prelude::*;

verus! {

/// What TIMER0 is set up to do within a slot.
pub struct SlotTimer {
    /// When it interrupts to end the slot, from the start of the slot on.
    pub slot_end: Option<u32>,
    /// How long after it was armed it interrupts for a missing ACK. Nothing is said
    /// of a deadline that was not set relative to the present.
    pub ack_timeout: Option<u32>,
    /// Contents of CC[0].
    pub cc0: u32,
    /// How far ahead CC[1] was set; nothing where it was set otherwise.
    pub cc1: Option<u32>,
}

/// TIMER0 after one operation.
pub open spec fn slot_timer_step(t: SlotTimer, op: HwOp) -> SlotTimer {
    match op {
        HwOp::Timer0(TimerOp::Compare { channel, value }) => if channel == 0 {
            SlotTimer { cc0: value, ..t }
        } else if channel == 1 {
            SlotTimer { cc1: None, ..t }
        } else {
            t
        },
        HwOp::Timer0(TimerOp::CompareAfter { channel, micros }) => if channel == 1 {
            SlotTimer { cc1: Some(micros), ..t }
        } else {
            t
        },
        HwOp::Timer0(TimerOp::EnableCompare(channel)) => if channel == 0 {
            SlotTimer { slot_end: Some(t.cc0), ..t }
        } else if channel == 1 {
            SlotTimer { ack_timeout: t.cc1, ..t }
        } else {
            t
        },
        HwOp::Timer0(TimerOp::DisableCompare(channel)) => if channel == 0 {
            SlotTimer { slot_end: None, ..t }
        } else if channel == 1 {
            SlotTimer { ack_timeout: None, ..t }
        } else {
            t
        },
        _ => t,
    }
}

/// TIMER0 after the operations of a log, oldest first.
#[verifier::opaque]
pub open spec fn slot_timer_after(t: SlotTimer, log: Seq<HwOp>) -> SlotTimer
    decreases log.len(),
{
    if log.len() == 0 {
        t
    } else {
        slot_timer_step(slot_timer_after(t, log.drop_last()), log.last())
    }
}

/// One more operation on a log is one more step of TIMER0.
pub broadcast proof fn lemma_slot_timer_push(t: SlotTimer, log: Seq<HwOp>, op: HwOp)
    ensures
        #[trigger] slot_timer_after(t, log.push(op)) == slot_timer_step(
            slot_timer_after(t, log),
            op,
        ),
{
    reveal(slot_timer_after);
    assert(log.push(op).drop_last() =~= log);
}

/// A packet was counted on `pipe`, and on no other.
pub open spec fn one_more_on(before: [u32; 8], after: [u32; 8], pipe: u8) -> bool {
    forall|q: int|
        0 <= q < 8 ==> #[trigger] after@[q] == before@[q] + if q == pipe {
            1int
        } else {
            0
        }
}

/// Arming TIMER0 leaves the radio as it is.
proof fn lemma_radio_through_timer0(r: RadioRegs, log: Seq<HwOp>, micros: u32, ack: bool)
    ensures
        radio_after(r, slot_ptx::arm_slot_log(log, micros, ack)) == radio_after(r, log),
        radio_after(r, slot_ptx::arm_ack_log(log, micros)) == radio_after(r, log),
        radio_after(r, mpsl_timeslot::arm_slot_end_log(log, micros)) == radio_after(r, log),
        radio_after(r, log.push(HwOp::UnmaskRadio)) == radio_after(r, log),
{
    broadcast use lemma_radio_push;

}

/// Transmitting at the start of a slot.
proof fn lemma_slot_transmit(r: RadioRegs, log: Seq<HwOp>, plan: slot_ptx::PtxPlan, pipe: u8)
    ensures
        ({
            let now = radio_after(r, slot_ptx::slot_transmit_log(log, plan, pipe));
            &&& sends(now, pipe, DmaBuffer::SlotTx)
            &&& now.disabled_rxen && !now.disabled_txen
            &&& now.frequency == plan.config->0.channel.0
            &&& now.mode == plan.config->0.bitrate
            &&& now.lengths.0 == plan.config->0.payload_length
            &&& now.address.0 == plan.addresses->0.base0_word()
        }),
{
    let fast = plan.radio.fast_ramp_up;
    let l = radio::init_log(
        radio::power_cycle_log(log),
        fast,
        plan.config->0,
        plan.addresses->0,
    );
    radio_model::law_init_programs_registers(r, log, fast, plan.config->0, plan.addresses->0);
    lemma_radio_through_timer0(r, l, plan.in_slot_match_us, true);
    let a = slot_ptx::arm_slot_log(l, plan.in_slot_match_us, true);
    radio_model::lemma_transmit(r, a, pipe, DmaBuffer::SlotTx, true);
    lemma_radio_through_timer0(
        r,
        radio::transmit_log(a, pipe, DmaBuffer::SlotTx, true),
        0,
        true,
    );
}

/// A slot that is used starts with a transmission on the pipe of the slot, on the
/// channel and at the rate of the session, and the radio turns to the ACK on that pipe
/// alone.
#[verifier::rlimit(40)]
pub proof fn law_ptx_slot_sends_on_its_pipe(r: RadioRegs, w: PtxSlotWorld)
    requires
        slot_laws::ptx_slot_ok(w.state),
        !w.state.schedule.skips(),
        w.state.event.mode ==> w.state.event.pending,
    ensures
        ({
            let after = w.on_start().0;
            let now = radio_after(r, after.log);
            let config = w.state.plan.config->0;
            &&& after.state.packet.phase == PtxPhase::Tx
            &&& sends(now, after.state.packet.tx_pipe, DmaBuffer::SlotTx)
            &&& now.disabled_rxen && !now.disabled_txen
            &&& now.frequency == config.channel.0 && now.mode == config.bitrate
        }),
{
    let p = w.counted(TimeslotSignal::Start).in_phase(PtxPhase::Tx).on_next_pipe();
    lemma_slot_transmit(r, p.log, p.state.plan, p.state.packet.tx_pipe);
}

/// A transmission is counted once, and in a poll session for the pipe that it is on
/// air on.
#[verifier::rlimit(40)]
pub proof fn law_ptx_slot_counts_what_is_sent(r: RadioRegs, w: PtxSlotWorld)
    requires
        slot_laws::ptx_slot_ok(w.state),
        w.state.has_room(),
        !w.state.schedule.skips(),
        w.state.event.mode ==> w.state.event.pending,
    ensures
        ({
            let after = w.on_start().0;
            let now = radio_after(r, after.log);
            let (a, b) = (after.state.traffic, w.state.traffic);
            &&& a.tx_count == b.tx_count + 1
            &&& w.state.poll.pipes > 0 ==> one_more_on(b.tx_per_pipe, a.tx_per_pipe, now.tx_address)
            &&& w.state.poll.pipes == 0 ==> a.tx_per_pipe == b.tx_per_pipe
            &&& a.ack_ok_count == b.ack_ok_count && a.ack_timeout_count == b.ack_timeout_count
                && a.ack_crc_fail_count == b.ack_crc_fail_count
        }),
{
    law_ptx_slot_sends_on_its_pipe(r, w);
}

/// A good ACK is counted once, and in a poll session for the pipe of the slot. An ACK
/// with a bad CRC, or none in time, is counted as such and as no ACK.
pub proof fn law_ptx_slot_counts_what_is_answered(
    w: PtxSlotWorld,
    sample: PtxSlotSample,
    rx: Seq<u8>,
)
    requires
        w.state.has_room(),
        w.state.packet.phase == PtxPhase::WaitAck,
    ensures
        ({
            let b = w.state.traffic;
            let a = w.on_radio(sample, rx).0.state.traffic;
            let t = w.on_timer0(sample).0.state.traffic;
            let pipe = w.state.packet.tx_pipe;
            &&& sample.disabled && sample.crc_ok ==> {
                &&& a.ack_ok_count == b.ack_ok_count + 1
                &&& w.state.poll.pipes > 0 ==> one_more_on(
                    b.ack_ok_per_pipe,
                    a.ack_ok_per_pipe,
                    pipe,
                )
                &&& a.ack_crc_fail_count == b.ack_crc_fail_count
            }
            &&& sample.disabled && !sample.crc_ok ==> {
                &&& a.ack_ok_count == b.ack_ok_count
                &&& a.ack_ok_per_pipe == b.ack_ok_per_pipe
                &&& a.ack_crc_fail_count == b.ack_crc_fail_count + 1
                &&& one_more_on(b.ack_crc_fail_per_pipe, a.ack_crc_fail_per_pipe, pipe)
            }
            &&& !sample.disabled ==> a == b
            &&& a.tx_count == b.tx_count && a.ack_timeout_count == b.ack_timeout_count
            &&& sample.ack_timeout ==> {
                &&& t.ack_timeout_count == b.ack_timeout_count + 1
                &&& one_more_on(b.ack_timeout_per_pipe, t.ack_timeout_per_pipe, pipe)
            }
            &&& !sample.ack_timeout ==> t == b
            &&& t.ack_ok_count == b.ack_ok_count && t.tx_count == b.tx_count
        }),
{
}

/// A retry goes out on the pipe of the slot, and is given the same time for its ACK.
#[verifier::rlimit(40)]
pub proof fn law_ptx_slot_retries_on_its_pipe(
    r: RadioRegs,
    t: SlotTimer,
    w: PtxSlotWorld,
    sample: PtxSlotSample,
)
    requires
        w.state.packet.phase == PtxPhase::WaitAck,
        w.state.packet.retry_count < w.state.plan.max_retries,
        sample.ack_timeout,
    ensures
        ({
            let after = w.on_timer0(sample).0;
            let now = radio_after(r, after.log);
            &&& after.state.packet.phase == PtxPhase::Tx
            &&& after.state.packet.tx_pipe == w.state.packet.tx_pipe
            &&& sends(now, w.state.packet.tx_pipe, DmaBuffer::SlotTx)
            &&& now.disabled_rxen
            &&& slot_timer_after(t, after.log).ack_timeout == Some(w.state.plan.ack_timeout_us)
            &&& slot_timer_after(t, after.log).slot_end == slot_timer_after(t, w.log).slot_end
        }),
{
    let a = w.counted(TimeslotSignal::Timer0).ack_timed_out();
    radio_model::lemma_transmit(r, a.log, w.state.packet.tx_pipe, DmaBuffer::SlotTx, true);
    lemma_radio_through_timer0(
        r,
        radio::transmit_log(a.log, w.state.packet.tx_pipe, DmaBuffer::SlotTx, true),
        w.state.plan.ack_timeout_us,
        true,
    );
    broadcast use lemma_slot_timer_push;

}

/// A slot has its time: from its start on TIMER0 ends it where the session says, also
/// where it is passed over.
#[verifier::rlimit(40)]
pub proof fn law_ptx_slot_end_is_armed(t: SlotTimer, w: PtxSlotWorld)
    requires
        slot_laws::ptx_slot_ok(w.state),
        w.state.event.mode ==> w.state.event.pending,
    ensures
        slot_timer_after(t, w.on_start().0.log).slot_end == Some(w.state.plan.in_slot_match_us),
{
    let p = w.counted(TimeslotSignal::Start).in_phase(PtxPhase::Tx).on_next_pipe();
    lemma_slot_timer_through_init(t, p.log, p.state.plan);
    broadcast use lemma_slot_timer_push;

}

/// When the packet is out, the radio turns to the ACK in the receive buffer, on the pipe
/// of the packet, and the ACK timeout of the session runs.
#[verifier::rlimit(40)]
pub proof fn law_ptx_slot_turns_to_ack(
    r: RadioRegs,
    t: SlotTimer,
    w: PtxSlotWorld,
    sample: PtxSlotSample,
    rx: Seq<u8>,
)
    requires
        w.state.packet.phase == PtxPhase::Tx,
        sample.disabled,
    ensures
        ({
            let after = w.on_radio(sample, rx).0;
            let (now, before) = (radio_after(r, after.log), radio_after(r, w.log));
            &&& after.state.packet.phase == PtxPhase::WaitAck
            &&& now.packet == Some(DmaBuffer::SlotRx)
            &&& now.rx_addresses == before.rx_addresses && now.tx_address == before.tx_address
            &&& !now.disabled_rxen
            &&& slot_timer_after(t, after.log).ack_timeout == Some(w.state.plan.ack_timeout_us)
            &&& slot_timer_after(t, after.log).slot_end == slot_timer_after(t, w.log).slot_end
        }),
{
    broadcast use {lemma_slot_timer_push, lemma_radio_push};

}

/// A good ACK stops its timeout and not the end of the slot.
pub proof fn law_ptx_slot_ack_stops_timeout(
    t: SlotTimer,
    w: PtxSlotWorld,
    sample: PtxSlotSample,
    rx: Seq<u8>,
)
    requires
        w.state.packet.phase == PtxPhase::WaitAck,
        sample.disabled,
        sample.crc_ok,
    ensures
        slot_timer_after(t, w.on_radio(sample, rx).0.log).ack_timeout is None,
        slot_timer_after(t, w.on_radio(sample, rx).0.log).slot_end == slot_timer_after(
            t,
            w.log,
        ).slot_end,
{
    broadcast use lemma_slot_timer_push;

}

/// The end of a slot leaves nothing armed.
pub proof fn law_ptx_slot_over_disarms(t: SlotTimer, w: PtxSlotWorld)
    ensures
        slot_timer_after(t, w.slot_over().0.log).slot_end is None,
        slot_timer_after(t, w.slot_over().0.log).ack_timeout is None,
{
    broadcast use lemma_slot_timer_push;

}

/// Configuring the radio leaves TIMER0 as it is.
proof fn lemma_slot_timer_through_init(t: SlotTimer, log: Seq<HwOp>, plan: slot_ptx::PtxPlan)
    ensures
        slot_timer_after(
            t,
            radio::init_log(
                radio::power_cycle_log(log),
                plan.radio.fast_ramp_up,
                plan.config->0,
                plan.addresses->0,
            ),
        ) == slot_timer_after(t, log),
{
    broadcast use lemma_slot_timer_push;

}

/// What a transmit buffer says while a packet is on its way: the PID of the packet and
/// the counter of its transmission.
pub open spec fn carries_packet(s: PtxSlotState, tx: Seq<u8>) -> bool {
    &&& tx.len() == 256
    &&& header::header_at(tx).length == 4
    &&& header::s1_pid(header::header_at(tx).pid_no_ack) == s.packet.pid
    &&& !header::s1_no_ack(header::header_at(tx).pid_no_ack)
    &&& mpsl_common::counter_of(tx) == Some((s.traffic.tx_count - 1) as u32)
}

/// Writing a packet a second time changes nothing.
proof fn lemma_counter_packet_again(tx: Seq<u8>, pid: u8, counter: u32)
    requires
        tx.len() == 256,
    ensures
        ({
            let once = mpsl_common::counter_packet(tx, 4, pid, counter);
            &&& mpsl_common::counter_packet(once, 4, pid, counter) == once
            &&& once.len() == 256
            &&& header::header_at(once).length == 4
            &&& header::s1_pid(header::header_at(once).pid_no_ack) == pid % 4
            &&& !header::s1_no_ack(header::header_at(once).pid_no_ack)
            &&& mpsl_common::counter_of(once) == Some(counter)
        }),
{
    crate::bytes::lemma_u32_round_trip(counter);
    let once = mpsl_common::counter_packet(tx, 4, pid, counter);
    assert(mpsl_common::counter_packet(once, 4, pid, counter) =~= once);
    lemma_s1(pid);
}

/// The S1 byte of a packet that asks for an ACK.
proof fn lemma_s1(pid: u8)
    ensures
        ({
            let s1 = header::s1_with_no_ack(header::s1_with_pid(0, pid), false);
            header::s1_pid(s1) == pid % 4 && !header::s1_no_ack(s1)
        }),
{
    header::law_pid_round_trip(0, pid);
    header::law_no_ack_round_trip(header::s1_with_pid(0, pid), false);
}

/// A slot of a poll session or a chain sends a packet with the PID of the session, that
/// asks for an ACK, and with a counter of the transmissions before it.
pub proof fn law_ptx_slot_packet_is_counted(w: PtxSlotWorld)
    requires
        slot_laws::ptx_slot_ok(w.state),
        w.state.traffic.tx_count < u32::MAX,
        !w.state.schedule.skips(),
        !w.state.event.mode,
        w.state.packet.pid < 4,
        w.tx.len() == 256,
    ensures
        carries_packet(w.on_start().0.state, w.on_start().0.tx),
        mpsl_common::counter_of(w.on_start().0.tx) == Some(w.state.traffic.tx_count),
{
    lemma_counter_packet_again(w.tx, w.state.packet.pid, w.state.traffic.tx_count);
}

/// The bytes on their way are those that the buffer holds.
pub open spec fn tx_in_order(w: PtxSlotWorld) -> bool {
    w.state.packet.active() && !w.state.event.mode ==> {
        &&& w.tx.len() == 256
        &&& w.state.traffic.tx_count > 0
        &&& w.tx == mpsl_common::counter_packet(
            w.tx,
            4,
            w.state.packet.pid,
            (w.state.traffic.tx_count - 1) as u32,
        )
    }
}

/// One signal within a slot sends no other bytes.
#[verifier::rlimit(40)]
proof fn lemma_same_bytes(w: PtxSlotWorld, e: PtxSlotEvent)
    requires
        tx_in_order(w),
        slot_laws::within_slot(e),
    ensures
        tx_in_order(w.signalled(e.signal, e.sample, e.rx).0),
        w.signalled(e.signal, e.sample, e.rx).0.tx == w.tx,
{
}

/// A slot starts with its bytes in the buffer.
proof fn lemma_start_writes_bytes(w: PtxSlotWorld)
    requires
        slot_laws::ptx_slot_ok(w.state),
        w.state.traffic.tx_count < u32::MAX,
        w.tx.len() == 256,
        !w.state.schedule.skips(),
        w.state.event.mode ==> w.state.event.pending,
    ensures
        tx_in_order(w.on_start().0),
{
    lemma_counter_packet_again(w.tx, w.state.packet.pid, w.state.traffic.tx_count);
}

/// Signals within a slot send no other bytes.
proof fn lemma_run_same_bytes(w: PtxSlotWorld, events: Seq<PtxSlotEvent>)
    requires
        tx_in_order(w),
        forall|i: int| 0 <= i < events.len() ==> slot_laws::within_slot(#[trigger] events[i]),
    ensures
        slot_laws::ptx_slot_run(w, events).tx == w.tx,
        tx_in_order(slot_laws::ptx_slot_run(w, events)),
    decreases events.len(),
{
    if events.len() > 0 {
        let prior = events.drop_last();
        assert forall|i: int| 0 <= i < prior.len() implies slot_laws::within_slot(
            #[trigger] prior[i],
        ) by {
            assert(prior[i] == events[i]);
        }
        lemma_run_same_bytes(w, prior);
        assert(slot_laws::within_slot(events[events.len() - 1]));
        lemma_same_bytes(slot_laws::ptx_slot_run(w, prior), events.last());
    }
}

/// Within a slot every transmission is a copy of the first: the buffer does not change
/// whatever the signals until the end of the slot are.
pub proof fn law_ptx_slot_retries_are_copies(w: PtxSlotWorld, events: Seq<PtxSlotEvent>)
    requires
        slot_laws::ptx_slot_ok(w.state),
        w.state.traffic.tx_count < u32::MAX,
        w.tx.len() == 256,
        !w.state.schedule.skips(),
        w.state.event.mode ==> w.state.event.pending,
        forall|i: int| 0 <= i < events.len() ==> slot_laws::within_slot(#[trigger] events[i]),
    ensures
        slot_laws::ptx_slot_run(w.on_start().0, events).tx == w.on_start().0.tx,
        tx_in_order(slot_laws::ptx_slot_run(w.on_start().0, events)),
{
    lemma_start_writes_bytes(w);
    lemma_run_same_bytes(w.on_start().0, events);
}

/// A receiver of a slot listens: on the pipes of the session, into the receive buffer,
/// and with every turn left to software.
pub open spec fn slot_listens(r: RadioRegs, w: PrxSlotWorld) -> bool {
    let now = radio_after(r, w.log);
    &&& now.activity is Rx
    &&& now.interrupt
    &&& now.rx_addresses == w.state.plan.enabled_pipes
    &&& now.packet == Some(DmaBuffer::SlotRx)
    &&& !now.disabled_rxen && !now.disabled_txen
}

/// Looking at what the radio did leaves it as it is.
proof fn lemma_look(r: RadioRegs, log: Seq<HwOp>)
    ensures
        radio_after(r, slot_prx::look_log(log)) == (RadioRegs {
            stale_disabled: false,
            ..radio_after(r, log)
        }),
{
    broadcast use lemma_radio_push;

}

/// A slot of a receiver starts with the radio listening on the pipes of the session, on
/// its channel, and TIMER0 ends the slot where the session says.
#[verifier::rlimit(40)]
pub proof fn law_prx_slot_listens(r: RadioRegs, t: SlotTimer, w: PrxSlotWorld)
    requires
        w.state.plan.config is Some,
        w.state.plan.addresses is Some,
    ensures
        ({
            let after = w.on_start().0;
            let now = radio_after(r, after.log);
            let config = w.state.plan.config->0;
            &&& slot_listens(r, after)
            &&& now.frequency == config.channel.0 && now.mode == config.bitrate
            &&& slot_timer_after(t, after.log).slot_end == Some(w.state.plan.in_slot_match_us)
        }),
        slot_timer_after(t, w.on_timer0().0.log).slot_end is None,
{
    let s = w.state;
    let fast = s.radio.fast_ramp_up;
    let l = radio::init_log(
        radio::power_cycle_log(w.log),
        fast,
        s.plan.config->0,
        s.plan.addresses->0,
    );
    radio_model::law_init_programs_registers(r, w.log, fast, s.plan.config->0, s.plan.addresses->0);
    radio_model::lemma_start_receiving_manual(r, l, s.plan.enabled_pipes, DmaBuffer::SlotRx);
    let m = radio::start_receiving_manual_log(l, s.plan.enabled_pipes, DmaBuffer::SlotRx);
    lemma_radio_through_timer0(r, m, s.plan.in_slot_match_us, true);
    lemma_radio_through_timer0(
        r,
        mpsl_timeslot::arm_slot_end_log(m, s.plan.in_slot_match_us),
        0,
        true,
    );
    broadcast use lemma_slot_timer_push;

}

/// A packet with a good CRC that asks for an ACK is acknowledged on the pipe that it
/// came on, from the ACK buffer, whether it is new or a copy. Any other packet leaves
/// the radio listening as before, and so does the end of an ACK.
#[verifier::rlimit(40)]
pub proof fn law_prx_slot_acks_on_packet_pipe(
    r: RadioRegs,
    w: PrxSlotWorld,
    sample: PrxSlotSample,
    rx: Seq<u8>,
)
    requires
        sample.disabled,
        w.state.progress.phase != PrxPhase::Idle,
    ensures
        ({
            let after = w.on_radio(sample, rx).0;
            let now = radio_after(r, after.log);
            let acked = w.state.progress.phase == PrxPhase::Receiving && sample.crc_ok
                && !header::s1_no_ack(rx[3]);
            &&& acked ==> {
                &&& now.activity is Tx && now.interrupt
                &&& now.tx_address == sample.pipe
                &&& now.packet == Some(DmaBuffer::SlotAck)
                &&& !now.disabled_rxen && !now.disabled_txen
            }
            &&& !acked ==> slot_listens(r, after) && after.state.progress.phase
                == PrxPhase::Receiving
        }),
{
    let c = w.counted(TimeslotSignal::Radio);
    let l = slot_prx::look_log(c.log);
    let pipes = c.state.plan.enabled_pipes;
    lemma_look(r, c.log);
    radio_model::lemma_stop(r, l);
    radio_model::lemma_start_receiving_manual(r, radio::stop_log(l), pipes, DmaBuffer::SlotRx);
    radio_model::lemma_start_receiving_manual(r, l, pipes, DmaBuffer::SlotRx);
    radio_model::lemma_transmit_ack_manual(r, l, sample.pipe, DmaBuffer::SlotAck);
}

/// A packet is counted once, for the pipe that it came on: as new, as a copy, or as one
/// with a bad CRC. An ACK is counted exactly where one goes out.
pub proof fn law_prx_slot_counts_what_is_heard(
    w: PrxSlotWorld,
    sample: PrxSlotSample,
    rx: Seq<u8>,
)
    requires
        w.state.has_room(),
        sample.disabled,
        w.state.progress.phase == PrxPhase::Receiving,
    ensures
        ({
            let b = w.state.traffic;
            let a = w.on_radio(sample, rx).0.state.traffic;
            let pipe = sample.pipe;
            let dup = w.state.radio.is_duplicate(pipe as int, header::s1_pid(rx[3]), sample.crc);
            &&& !sample.crc_ok ==> {
                &&& a.bad_crc_count == b.bad_crc_count + 1
                &&& one_more_on(b.bad_crc_per_pipe, a.bad_crc_per_pipe, pipe)
                &&& a.rx_count == b.rx_count && a.dup_count == b.dup_count
                &&& a.ack_tx_per_pipe == b.ack_tx_per_pipe
            }
            &&& sample.crc_ok && dup ==> {
                &&& a.dup_count == b.dup_count + 1
                &&& one_more_on(b.dup_per_pipe, a.dup_per_pipe, pipe)
                &&& a.rx_count == b.rx_count && a.rx_per_pipe == b.rx_per_pipe
            }
            &&& sample.crc_ok && !dup ==> {
                &&& a.rx_count == b.rx_count + 1
                &&& one_more_on(b.rx_per_pipe, a.rx_per_pipe, pipe)
                &&& a.dup_count == b.dup_count && a.dup_per_pipe == b.dup_per_pipe
            }
            &&& sample.crc_ok ==> a.bad_crc_count == b.bad_crc_count && a.bad_crc_per_pipe
                == b.bad_crc_per_pipe
            &&& sample.crc_ok && !header::s1_no_ack(rx[3]) ==> one_more_on(
                b.ack_tx_per_pipe,
                a.ack_tx_per_pipe,
                pipe,
            )
            &&& header::s1_no_ack(rx[3]) ==> a.ack_tx_per_pipe == b.ack_tx_per_pipe
        }),
{
}

/// A plain session arms TIMER0 for the end of its slot when the slot starts, and has
/// it disarmed once it has interrupted. No other signal touches it, and none touches
/// the radio.
pub proof fn law_plain_slot_is_timed(
    s: mpsl_timeslot::TimeslotSession,
    signal: TimeslotSignal,
    r: RadioRegs,
    t: SlotTimer,
    log: Seq<HwOp>,
)
    ensures
        ({
            let before = slot_timer_after(t, log);
            let after = slot_timer_after(t, s.signal_log(signal, log));
            &&& signal == TimeslotSignal::Start ==> after.slot_end == Some(s.in_slot_match_us)
            &&& signal == TimeslotSignal::Timer0 ==> after.slot_end is None
            &&& signal != TimeslotSignal::Start && signal != TimeslotSignal::Timer0
                ==> after.slot_end == before.slot_end
            &&& after.ack_timeout == before.ack_timeout
        }),
        radio_after(r, s.signal_log(signal, log)) == radio_after(r, log),
{
    broadcast use lemma_slot_timer_push;
    broadcast use lemma_radio_push;

}

} // verus!
