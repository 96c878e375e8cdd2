//! What a PTX and a PRX have the radio and the timer do: on which pipe a packet or an
//! ACK goes out, from and into which buffer, and within which time.
//!
//! The laws follow the operations of a log into the registers, so that they speak of
//! what is on air and not of the operations.

use crate::config::{EsbConfig, RAMP_UP_US};
use crate::header;
use crate::hw::{DmaBuffer, HwOp};
use crate::mpsl_common;
use crate::payload;
use crate::payload::SlotState;
use crate::prx;
use crate::prx::{PrxCore, PrxSample, PrxWorld};
use crate::ptx;
use crate::ptx::{PtxSample, PtxStateMachine, PtxWorld};
use crate::ptx_laws;
use crate::radio;
use crate::radio::RxStatus;
use crate::radio_model;
use crate::radio_model::{lemma_radio_push, radio_after, RadioRegs};
use crate::slot_ptx;
use crate::state_machine::{StatePrx, StatePtx};
use crate::timer;
use crate::timer::{lemma_timer_push_auto, timer_after, TimerRegs};
use vstd::prelude::*;

verus! {

/// The radio transmits the packet in `dma` on `pipe`, and hears an ACK on that pipe
/// alone.
pub open spec fn sends(r: RadioRegs, pipe: u8, dma: DmaBuffer) -> bool {
    &&& r.activity is Tx
    &&& r.interrupt
    &&& r.tx_address == pipe
    &&& r.rx_addresses == radio::pipe_mask(pipe)
    &&& r.packet == Some(dma)
}

/// The pipe that the packet in flight was queued for.
pub open spec fn flight_pipe(w: PtxWorld) -> u8 {
    w.pool.header(w.sm.tx_idx->0 as int).pipe
}

/// The radio of a PTX does what its machine says: it sends the packet in flight on
/// the packet's own pipe, turns to an ACK exactly where one is wanted, hears it on
/// that pipe in a buffer of its own, and rests before a retransmission.
pub open spec fn ptx_tuned(r: RadioRegs, w: PtxWorld) -> bool {
    let now = radio_after(r, w.log);
    &&& w.sm.tx_idx is Some ==> w.sm.active_tx_pipe == flight_pipe(w)
    &&& match w.sm.state {
        StatePtx::Idle => !now.disabled_rxen,
        StatePtx::TxNoAck => sends(now, flight_pipe(w), DmaBuffer::Pool(w.sm.tx_idx->0))
            && !now.disabled_rxen,
        StatePtx::Tx => sends(now, flight_pipe(w), DmaBuffer::Pool(w.sm.tx_idx->0))
            && now.disabled_rxen,
        StatePtx::WaitAck => {
            &&& now.tx_address == flight_pipe(w)
            &&& now.rx_addresses == radio::pipe_mask(flight_pipe(w))
            &&& now.packet == Some(DmaBuffer::Pool(w.sm.ack_rx_idx->0))
            &&& now.interrupt
            &&& !now.disabled_rxen
        },
        StatePtx::WaitRetransmit => now.activity is Disabled && !now.interrupt
            && !now.disabled_rxen,
    }
}

/// Clearing EVENTS_DISABLED leaves the radio as it is.
proof fn lemma_ptx_checked(r: RadioRegs, w: PtxWorld, disabled: bool)
    requires
        ptx_tuned(r, w),
    ensures
        ptx_tuned(r, w.checked(disabled)),
{
    broadcast use lemma_radio_push;

}

/// Sending the next packet tunes the radio to its pipe.
proof fn lemma_sent_next_tuned(r: RadioRegs, w: PtxWorld, n: int, size: int)
    requires
        ptx_laws::pool_ok(w.pool, n, size),
        w.sm.wf(n),
        w.sm.tx_idx is Some ==> w.sm.active_tx_pipe == flight_pipe(w),
        !radio_after(r, w.log).disabled_rxen,
    ensures
        ptx_tuned(r, w.sent_next()),
{
    payload::law_first_slot(w.pool.slots, SlotState::TxQueued, 0);
    match w.sm.tx_idx {
        Some(i) => {
            radio_model::lemma_transmit(
                r,
                w.log,
                w.sm.active_tx_pipe,
                DmaBuffer::Pool(i),
                true,
            );
        },
        None => {
            if let Some(i) = w.pool.queued() {
                let h = w.pool.header(i as int);
                radio_model::lemma_transmit(
                    r,
                    w.log,
                    h.pipe,
                    DmaBuffer::Pool(i),
                    !header::s1_no_ack(h.pid_no_ack),
                );
            } else {
                broadcast use lemma_radio_push;

            }
        },
    }
}

/// Going on to the next packet leaves the radio tuned.
proof fn lemma_next_packet_tuned(r: RadioRegs, w: PtxWorld, suppress: bool, n: int, size: int)
    requires
        ptx_laws::pool_ok(w.pool, n, size),
        w.sm.wf(n),
        !radio_after(r, w.log).disabled_rxen,
        w.sm.ack_rx_idx is None,
    ensures
        ptx_tuned(r, w.next_packet(suppress)),
{
    let f = w.released_tx();
    let a = PtxWorld { sm: PtxStateMachine { pid: ((f.sm.pid + 1) % 4) as u8, ..f.sm }, ..f };
    if suppress {
        broadcast use lemma_radio_push;

    } else {
        lemma_sent_next_tuned(r, a, n, size);
    }
}

/// Disarming timeouts leaves the radio as it is.
proof fn lemma_radio_through_disarm(r: RadioRegs, log: Seq<HwOp>)
    ensures
        radio_after(r, timer::disarm_ack_timeout_log(log)) == radio_after(r, log),
        radio_after(r, timer::disarm_retransmit_log(log)) == radio_after(r, log),
{
    broadcast use lemma_radio_push;

}

/// Arming timeouts leaves the radio as it is.
proof fn lemma_radio_through_arm(r: RadioRegs, log: Seq<HwOp>, micros: u16)
    ensures
        radio_after(r, timer::arm_ack_timeout_log(log, micros)) == radio_after(r, log),
        radio_after(r, timer::arm_retransmit_log(log, micros)) == radio_after(r, log),
{
    broadcast use lemma_radio_push;

}

/// Every interrupt leaves the radio of a PTX tuned to the packet in flight.
#[verifier::rlimit(40)]
pub proof fn law_ptx_stays_tuned(
    r: RadioRegs,
    w: PtxWorld,
    sample: PtxSample,
    timer: bool,
    suppress: bool,
    n: int,
    size: int,
)
    requires
        w.inv(),
        ptx_laws::pool_ok(w.pool, n, size),
        ptx_tuned(r, w),
    ensures
        ptx_tuned(r, w.handled(sample, timer, suppress).0),
{
    lemma_ptx_checked(r, w, sample.disabled);
    let c = w.checked(sample.disabled);
    match c.sm.state {
        StatePtx::Idle => {
            lemma_sent_next_tuned(r, c, n, size);
        },
        StatePtx::TxNoAck => {
            radio_model::lemma_finish_tx_no_ack(r, c.log);
            lemma_next_packet_tuned(
                r,
                PtxWorld { log: radio::finish_tx_no_ack_log(c.log), ..c },
                suppress,
                n,
                size,
            );
        },
        StatePtx::Tx => {
            payload::law_first_slot(c.pool.slots, SlotState::Free, 0);
            if let Some(i) = c.pool.free() {
                let l1 = radio::prepare_for_ack_log(c.log, DmaBuffer::Pool(i));
                radio_model::lemma_prepare_for_ack(r, c.log, DmaBuffer::Pool(i));
                lemma_radio_through_arm(r, l1, c.sm.retransmit_delay_us);
                lemma_radio_through_arm(
                    r,
                    timer::arm_retransmit_log(l1, c.sm.retransmit_delay_us),
                    c.sm.ack_timeout_us,
                );
            } else {
                radio_model::lemma_stop(r, c.log);
            }
        },
        StatePtx::WaitAck => {
            let d = timer::disarm_ack_timeout_log(c.log);
            lemma_radio_through_disarm(r, c.log);
            lemma_radio_through_disarm(r, d);
            radio_model::lemma_stop(r, d);
            radio_model::lemma_stop(r, timer::disarm_retransmit_log(d));
            let a = (PtxWorld {
                log: radio::stop_log(timer::disarm_retransmit_log(d)),
                ..c
            }).delivered_ack();
            lemma_next_packet_tuned(
                r,
                PtxWorld { sm: PtxStateMachine { attempts: 0, ..a.sm }, ..a },
                suppress,
                n,
                size,
            );
            let m = (PtxWorld { log: radio::stop_log(d), ..c }).released_ack_rx();
            lemma_next_packet_tuned(
                r,
                PtxWorld { sm: PtxStateMachine { attempts: 0, ..m.sm }, ..m },
                suppress,
                n,
                size,
            );
        },
        StatePtx::WaitRetransmit => {
            radio_model::lemma_transmit(
                r,
                c.log,
                c.sm.active_tx_pipe,
                DmaBuffer::Pool(c.sm.tx_idx->0),
                true,
            );
        },
    }
}

/// A queued packet goes out on the pipe that it was queued for, from its own buffer.
/// The radio turns to an ACK, on that pipe alone, exactly where the packet wants one.
pub proof fn law_ptx_sends_on_packet_pipe(
    r: RadioRegs,
    w: PtxWorld,
    sample: PtxSample,
    n: int,
    size: int,
)
    requires
        w.inv(),
        ptx_laws::pool_ok(w.pool, n, size),
        ptx_tuned(r, w),
        w.sm.state == StatePtx::Idle,
        w.sm.tx_idx is None,
        w.pool.queued() is Some,
    ensures
        ({
            let i = w.pool.queued()->0;
            let after = w.handled(sample, false, false).0;
            let now = radio_after(r, after.log);
            &&& sends(now, w.pool.header(i as int).pipe, DmaBuffer::Pool(i))
            &&& now.disabled_rxen <==> !header::s1_no_ack(w.pool.header(i as int).pid_no_ack)
        }),
{
    payload::law_first_slot(w.pool.slots, SlotState::TxQueued, 0);
    law_ptx_stays_tuned(r, w, sample, false, false, n, size);
}

/// A retransmission goes out on the pipe that the packet was queued for, from the
/// packet's own buffer, and waits for its ACK on that pipe: as the first transmission
/// did.
pub proof fn law_ptx_retransmits_on_packet_pipe(
    r: RadioRegs,
    w: PtxWorld,
    sample: PtxSample,
    timer: bool,
    suppress: bool,
    n: int,
    size: int,
)
    requires
        w.inv(),
        ptx_laws::pool_ok(w.pool, n, size),
        ptx_tuned(r, w),
        w.sm.state == StatePtx::WaitRetransmit,
        sample.disabled || timer,
    ensures
        ({
            let after = w.handled(sample, timer, suppress).0;
            let now = radio_after(r, after.log);
            let i = w.sm.tx_idx->0;
            &&& after.sm.state == StatePtx::Tx && after.sm.tx_idx == Some(i)
            &&& sends(now, w.pool.header(i as int).pipe, DmaBuffer::Pool(i))
            &&& now.disabled_rxen
            &&& after.pool == w.pool
        }),
{
    law_ptx_stays_tuned(r, w, sample, timer, suppress, n, size);
}

/// The start of a timeslot tunes the radio, whatever it did before: a queued packet
/// goes out on its own pipe. The signals of the slot keep it tuned, and the end of
/// the slot brings it to rest.
#[verifier::rlimit(40)]
pub proof fn law_ptx_timeslot_stays_tuned(
    r: RadioRegs,
    w: PtxWorld,
    pid: [u8; 8],
    crc: [u16; 8],
    valid: [bool; 8],
    sample: PtxSample,
    timer: bool,
    n: int,
    size: int,
)
    requires
        w.inv(),
        ptx_laws::pool_ok(w.pool, n, size),
    ensures
        ptx_tuned(r, w.slot_started(pid, crc, valid)),
        ptx_tuned(r, w) ==> ptx_tuned(r, w.slot_signalled(sample, timer).0),
        radio_after(r, w.slot_stopped().log).activity is Disabled,
        ptx_tuned(r, w.slot_stopped()),
{
    let f = w.reinitialized(w.sm.addresses->0, pid, crc, valid);
    radio_model::law_init_programs_registers(
        r,
        w.log,
        w.sm.radio.fast_ramp_up,
        w.sm.config,
        w.sm.addresses->0,
    );
    lemma_sent_next_tuned(
        r,
        PtxWorld {
            sm: PtxStateMachine {
                timeslot_managed: true,
                state: StatePtx::Idle,
                attempts: 0,
                tx_idx: None,
                ack_rx_idx: None,
                ..f.sm
            },
            ..f
        },
        n,
        size,
    );
    if ptx_tuned(r, w) {
        law_ptx_stays_tuned(r, w, sample, timer, false, n, size);
    }
    radio_model::lemma_stop(r, w.log);
}

/// A sent packet has its time: when it is out, both timeouts of the configuration
/// run, the ACK timeout from the moment of the turn on, and the next transmission
/// follows the configured delay, less the ramp-up of the radio.
#[verifier::rlimit(40)]
pub proof fn law_ptx_timeouts_follow_config(
    t: TimerRegs,
    w: PtxWorld,
    config: EsbConfig,
    tx_pipe: u8,
    n: int,
    size: int,
)
    requires
        w.inv(),
        ptx_laws::pool_ok(w.pool, n, size),
        w.sm.state == StatePtx::Tx,
        w.pool.free() is Some,
        config.is_valid(),
        same_limits(ptx::new_ptx(w.sm.radio, w.sm.timer, config, tx_pipe), w.sm),
    ensures
        ({
            let after = w.handled(PtxSample { disabled: true, crc_ok: false }, false, false).0;
            let now = timer_after(t, after.log);
            &&& now.running
            &&& now.retransmit matches Some(d) && d + RAMP_UP_US
                == config.retransmit.delay_us
            &&& now.ack_timeout matches Some(d) && (d == config.ack_timeout_us + RAMP_UP_US || (d
                == u16::MAX && config.ack_timeout_us + RAMP_UP_US > u16::MAX))
        }),
{
    let c = w.checked(true);
    payload::law_first_slot(c.pool.slots, SlotState::Free, 0);
    let dma = DmaBuffer::Pool(c.pool.free()->0);
    broadcast use lemma_timer_push_auto;

}

/// A PTX keeps the limits that it was made with, whatever happens.
pub proof fn law_ptx_keeps_limits(
    w: PtxWorld,
    sample: PtxSample,
    timer: bool,
    suppress: bool,
    pid: [u8; 8],
    crc: [u16; 8],
    valid: [bool; 8],
)
    ensures
        same_limits(w.sm, w.handled(sample, timer, suppress).0.sm),
        same_limits(w.sm, w.slot_started(pid, crc, valid).sm),
        same_limits(w.sm, w.slot_signalled(sample, timer).0.sm),
        same_limits(w.sm, w.slot_stopped().sm),
        same_limits(w.sm, w.suspended().sm),
{
}

/// Two machines have the same limits, configuration and default pipe.
pub open spec fn same_limits(a: PtxStateMachine, b: PtxStateMachine) -> bool {
    &&& a.retransmit_delay_us == b.retransmit_delay_us
    &&& a.ack_timeout_us == b.ack_timeout_us
    &&& a.max_attempts == b.max_attempts
    &&& a.config == b.config
    &&& a.tx_pipe == b.tx_pipe
}

/// An answered packet leaves no timeout behind. A missing ACK leaves only the
/// retransmit timeout.
#[verifier::rlimit(40)]
pub proof fn law_ptx_ack_disarms_timeouts(t: TimerRegs, w: PtxWorld, timer: bool, suppress: bool)
    requires
        w.inv(),
        w.sm.state == StatePtx::WaitAck,
    ensures
        ({
            let answered = w.handled(
                PtxSample { disabled: true, crc_ok: true },
                timer,
                suppress,
            ).0;
            let missed = w.handled(
                PtxSample { disabled: true, crc_ok: false },
                timer,
                suppress,
            ).0;
            let before = timer_after(t, w.log);
            &&& timer_after(t, answered.log).retransmit is None
            &&& timer_after(t, answered.log).ack_timeout is None
            &&& timer_after(t, missed.log).ack_timeout is None
            &&& timer_after(t, missed.log).retransmit == before.retransmit
            &&& timer_after(t, missed.log).running == before.running
        }),
{
    broadcast use lemma_timer_push_auto;

}

/// The buffer that the ACK in preparation is sent from: the payload that was queued,
/// else an empty or a diagnostic one.
pub open spec fn acks_from(w: PrxWorld, dma: Option<DmaBuffer>) -> bool {
    match w.core.ack_tx_idx {
        Some(i) => dma == Some(DmaBuffer::Pool(i)),
        None => dma == Some(DmaBuffer::FallbackAck) || (w.core.timeslot_managed && dma == Some(
            DmaBuffer::DiagAck,
        )),
    }
}

/// The radio of a PRX does what its machine says: it listens on the enabled pipes into
/// the machine's buffer, and acknowledges on the pipe that the packet came on. Outside
/// of timeslots it turns by itself, from a packet to the ACK and from the ACK to the
/// next packet; in a timeslot software starts every turn.
pub open spec fn prx_tuned(r: RadioRegs, w: PrxWorld) -> bool {
    let now = radio_after(r, w.log);
    match w.core.state {
        StatePrx::Idle => true,
        StatePrx::Receiver => {
            &&& now.packet == Some(DmaBuffer::Pool(w.core.rx_idx->0))
            &&& now.rx_addresses == w.core.enabled_pipes
            &&& now.interrupt
            &&& now.disabled_txen == !w.core.timeslot_managed
            &&& !now.disabled_rxen
        },
        _ => {
            &&& acks_from(w, now.packet)
            &&& now.tx_address == w.core.last_pipe
            &&& now.rx_addresses == w.core.enabled_pipes
            &&& now.interrupt
            &&& now.disabled_rxen == !w.core.timeslot_managed
            &&& !now.disabled_txen
            &&& w.core.timeslot_managed ==> now.activity is Tx
        },
    }
}

/// Listening again without an ACK tunes the radio.
proof fn lemma_rearmed_no_ack(r: RadioRegs, w: PrxWorld, dma: DmaBuffer)
    requires
        radio_after(r, w.log).rx_addresses == w.core.enabled_pipes,
        w.core.state == StatePrx::Receiver,
        dma == DmaBuffer::Pool(w.core.rx_idx->0),
    ensures
        prx_tuned(r, w.rearmed_no_ack(dma)),
        radio_after(r, w.rearmed_no_ack(dma).log).activity is Rx,
{
    let l = radio::stop_log(w.log);
    radio_model::lemma_stop(r, w.log);
    radio_model::lemma_start_receiving_manual(r, l, w.core.enabled_pipes, dma);
    radio_model::lemma_complete_rx_no_ack(r, l, dma);
}

/// An ACK without a queued payload goes out on its pipe.
proof fn lemma_fallback_acked(r: RadioRegs, w: PrxWorld, pipe: u8, advance: bool)
    ensures
        ({
            let now = radio_after(r, w.fallback_acked_manual(pipe, advance).log);
            &&& now.activity is Tx && now.interrupt && now.tx_address == pipe
            &&& !now.disabled_rxen && !now.disabled_txen
            &&& now.rx_addresses == radio_after(r, w.log).rx_addresses
            &&& now.packet == Some(
                if w.core.diag_ack_context is Some {
                    DmaBuffer::DiagAck
                } else {
                    DmaBuffer::FallbackAck
                },
            )
        }),
{
    radio_model::lemma_transmit_ack_manual(r, w.log, pipe, DmaBuffer::FallbackAck);
    radio_model::lemma_transmit_ack_manual(r, w.log, pipe, DmaBuffer::DiagAck);
}

/// An ACK for a new packet goes out on its pipe.
proof fn lemma_acked(r: RadioRegs, w: PrxWorld, pipe: u8)
    ensures
        ({
            let after = w.acked(pipe);
            let now = radio_after(r, after.log);
            let before = radio_after(r, w.log);
            &&& now.tx_address == pipe
            &&& now.rx_addresses == before.rx_addresses
            &&& now.disabled_rxen == !w.core.timeslot_managed && !now.disabled_txen
            &&& now.interrupt == (before.interrupt || w.core.timeslot_managed)
            &&& w.core.timeslot_managed ==> now.activity is Tx
            &&& acks_from(after, now.packet)
            &&& after.core.ack_tx_idx is None ==> now.packet == Some(
                if w.core.timeslot_managed && w.core.diag_ack_context is Some {
                    DmaBuffer::DiagAck
                } else {
                    DmaBuffer::FallbackAck
                },
            )
        }),
{
    if let Some(i) = w.pool.queued_for(pipe) {
        radio_model::lemma_transmit_ack_manual(r, w.log, pipe, DmaBuffer::Pool(i));
        radio_model::lemma_setup_ack_tx(r, w.log, pipe, DmaBuffer::Pool(i));
    } else {
        let v = PrxWorld { core: PrxCore { ack_tx_idx: None, ..w.core }, ..w };
        lemma_fallback_acked(r, v, pipe, true);
        radio_model::lemma_setup_ack_tx(r, w.log, pipe, DmaBuffer::FallbackAck);
    }
}

/// A repeated ACK goes out on its pipe.
proof fn lemma_repeated_ack(r: RadioRegs, w: PrxWorld, pipe: u8)
    ensures
        ({
            let after = w.repeated_ack(pipe);
            let now = radio_after(r, after.log);
            let before = radio_after(r, w.log);
            &&& now.tx_address == pipe
            &&& now.rx_addresses == before.rx_addresses
            &&& now.disabled_rxen == !w.core.timeslot_managed && !now.disabled_txen
            &&& now.interrupt == (before.interrupt || w.core.timeslot_managed)
            &&& w.core.timeslot_managed ==> now.activity is Tx
            &&& now.packet == Some(
                if w.core.timeslot_managed && w.core.diag_ack_context is Some {
                    DmaBuffer::DiagAck
                } else {
                    DmaBuffer::FallbackAck
                },
            )
        }),
{
    lemma_fallback_acked(r, w, pipe, false);
    radio_model::lemma_setup_ack_tx(r, w.log, pipe, DmaBuffer::FallbackAck);
}

/// A received packet leaves the radio tuned.
proof fn lemma_packet_received_tuned(r: RadioRegs, w: PrxWorld, status: RxStatus)
    requires
        w.inv(),
        w.core.state == StatePrx::Receiver,
        prx_tuned(r, w),
        w.core.timeslot_managed ==> status.crc_ok,
    ensures
        prx_tuned(r, w.packet_received(status).0),
{
    let v = PrxWorld { core: PrxCore { last_pipe: status.pipe, ..w.core }, ..w };
    let rx = w.core.rx_idx->0;
    radio_model::lemma_restart_after_bad_crc(r, v.log);
    radio_model::lemma_accept_packet(r, v.log);
    let a = PrxWorld { log: radio::accept_packet_log(v.log), ..v };
    // A duplicate without an ACK.
    match a.pool.free() {
        Some(i) => {
            lemma_rearmed_no_ack(
                r,
                PrxWorld {
                    core: PrxCore { rx_idx: Some(i), ..a.core },
                    pool: a.pool.with_slot(i as int, SlotState::InDma).with_slot(
                        rx as int,
                        SlotState::Free,
                    ),
                    ..a
                },
                DmaBuffer::Pool(i),
            );
        },
        None => {
            lemma_rearmed_no_ack(r, a, DmaBuffer::Pool(rx));
        },
    }
    // A duplicate with an ACK.
    lemma_repeated_ack(
        r,
        PrxWorld {
            core: PrxCore { rx_idx: None, ..a.core },
            pool: a.pool.with_slot(rx as int, SlotState::Free),
            ..a
        },
        status.pipe,
    );
    // A new packet.
    let n = a.recorded(rx, status);
    let d = PrxWorld {
        core: PrxCore { rx_idx: None, ..n.core },
        pool: n.pool.completed(rx as int),
        ..n
    };
    if let Some(i) = d.pool.free() {
        lemma_rearmed_no_ack(
            r,
            PrxWorld {
                core: PrxCore { rx_idx: Some(i), ..d.core },
                pool: d.pool.with_slot(i as int, SlotState::InDma),
                ..d
            },
            DmaBuffer::Pool(i),
        );
    }
    lemma_acked(r, n, status.pipe);
}

/// The end of an ACK leaves the radio tuned.
proof fn lemma_ack_done_tuned(r: RadioRegs, w: PrxWorld)
    requires
        radio_after(r, w.log).rx_addresses == w.core.enabled_pipes,
        radio_after(r, w.log).interrupt,
    ensures
        prx_tuned(r, w.ack_done()),
{
    let v = w.released_ack_tx();
    if let Some(i) = v.pool.free() {
        let dma = DmaBuffer::Pool(i);
        radio_model::lemma_start_receiving_manual(r, v.log, v.core.enabled_pipes, dma);
        radio_model::lemma_complete_rx_ack(r, v.log, dma);
    }
}

/// Starting to listen tunes the radio to the enabled pipes and the machine's buffer.
proof fn lemma_listening_tuned(r: RadioRegs, w: PrxWorld)
    requires
        w.core.state == StatePrx::Idle,
        w.core.timeslot_managed || !radio_after(r, w.log).disabled_rxen,
    ensures
        prx_tuned(r, w.listening()),
        w.listening().core.state == StatePrx::Receiver ==> radio_after(
            r,
            w.listening().log,
        ).activity is Rx,
{
    if let Some(i) = w.pool.free() {
        let dma = DmaBuffer::Pool(i);
        radio_model::lemma_start_receiving(r, w.log, w.core.enabled_pipes, dma);
        radio_model::lemma_start_receiving_manual(r, w.log, w.core.enabled_pipes, dma);
    }
}

/// Every interrupt leaves the radio of a PRX tuned: to the enabled pipes while it
/// listens, and to the pipe of the packet while it acknowledges. (After a bad CRC in a
/// timeslot the radio is left to turn by itself.)
#[verifier::rlimit(40)]
pub proof fn law_prx_stays_tuned(r: RadioRegs, w: PrxWorld, sample: PrxSample, timer: bool)
    requires
        w.inv(),
        prx_tuned(r, w),
        w.core.state == StatePrx::Idle ==> w.core.timeslot_managed || !radio_after(
            r,
            w.log,
        ).disabled_rxen,
        w.core.timeslot_managed && w.core.state == StatePrx::Receiver ==> sample.status.crc_ok,
    ensures
        prx_tuned(r, w.handled(sample, timer).0),
{
    let c = w.checked(sample.disabled);
    assert(prx_tuned(r, c) && radio_after(r, c.log).disabled_rxen == radio_after(
        r,
        w.log,
    ).disabled_rxen) by {
        broadcast use lemma_radio_push;

    }
    match c.core.state {
        StatePrx::Idle => lemma_listening_tuned(r, c),
        StatePrx::Receiver => lemma_packet_received_tuned(r, c, sample.status),
        StatePrx::TxAck => lemma_ack_done_tuned(r, c.delivered_pending()),
        StatePrx::TxRepeatedAck => lemma_ack_done_tuned(r, c),
    }
}

/// A new packet that asks for an ACK is acknowledged on the pipe that it came on. The
/// ACK carries what was queued for that pipe; it is empty, or a diagnostic one, exactly
/// where nothing was queued for it.
#[verifier::rlimit(40)]
pub proof fn law_prx_acks_on_packet_pipe(
    r: RadioRegs,
    w: PrxWorld,
    status: RxStatus,
    n: int,
    size: int,
)
    requires
        w.inv(),
        ptx_laws::pool_ok(w.pool, n, size),
        prx_tuned(r, w),
        w.core.state == StatePrx::Receiver,
        status.crc_ok,
        !header::s1_no_ack(w.pool.header(w.core.rx_idx->0 as int).pid_no_ack),
        !w.core.radio.is_duplicate(
            status.pipe as int,
            header::s1_pid(w.pool.header(w.core.rx_idx->0 as int).pid_no_ack),
            status.crc,
        ),
    ensures
        ({
            let after = w.handled(PrxSample { disabled: true, status }, false).0;
            let now = radio_after(r, after.log);
            &&& after.core.state == StatePrx::TxAck
            &&& now.tx_address == status.pipe
            &&& now.disabled_rxen == !w.core.timeslot_managed && !now.disabled_txen
            &&& match after.core.ack_tx_idx {
                Some(i) => {
                    &&& now.packet == Some(DmaBuffer::Pool(i))
                    &&& w.pool.slots[i as int] == SlotState::TxQueued
                    &&& w.pool.header(i as int).pipe == status.pipe
                },
                None => {
                    &&& now.packet == Some(
                        if w.core.timeslot_managed && w.core.diag_ack_context is Some {
                            DmaBuffer::DiagAck
                        } else {
                            DmaBuffer::FallbackAck
                        },
                    )
                    &&& forall|j: int|
                        0 <= j < n && j != w.core.rx_idx->0 ==> !(w.pool.slots[j]
                            == SlotState::TxQueued && (#[trigger] w.pool.bufs[j])[1]
                            == status.pipe)
                },
            }
        }),
{
    let c = w.checked(true);
    let rx = c.core.rx_idx->0;
    let a = (PrxWorld {
        core: PrxCore { last_pipe: status.pipe, ..c.core },
        log: radio::accept_packet_log(c.log),
        ..c
    }).recorded(rx, status);
    payload::law_first_queued_for(a.pool, status.pipe, 0);
    lemma_acked(r, a, status.pipe);
    assert(radio_after(r, c.log) == (RadioRegs { stale_disabled: false, ..radio_after(r, w.log) }))
        by {
        broadcast use lemma_radio_push;

    }
    radio_model::lemma_accept_packet(r, c.log);
    if a.pool.queued_for(status.pipe) is None {
        assert forall|j: int| 0 <= j < n && j != rx implies !(w.pool.slots[j]
            == SlotState::TxQueued && (#[trigger] w.pool.bufs[j])[1] == status.pipe) by {
            assert(a.pool.bufs[j] == w.pool.bufs[j]);
        }
    }
}

/// A duplicate that asks for an ACK is acknowledged again on the pipe that it came on,
/// without a payload.
#[verifier::rlimit(40)]
pub proof fn law_prx_repeats_ack_on_packet_pipe(r: RadioRegs, w: PrxWorld, status: RxStatus)
    requires
        w.inv(),
        prx_tuned(r, w),
        w.core.state == StatePrx::Receiver,
        status.crc_ok,
        !header::s1_no_ack(w.pool.header(w.core.rx_idx->0 as int).pid_no_ack),
        w.core.radio.is_duplicate(
            status.pipe as int,
            header::s1_pid(w.pool.header(w.core.rx_idx->0 as int).pid_no_ack),
            status.crc,
        ),
    ensures
        ({
            let after = w.handled(PrxSample { disabled: true, status }, false).0;
            let now = radio_after(r, after.log);
            &&& after.core.state == StatePrx::TxRepeatedAck
            &&& now.tx_address == status.pipe
            &&& now.disabled_rxen == !w.core.timeslot_managed && !now.disabled_txen
            &&& now.packet == Some(
                if w.core.timeslot_managed && w.core.diag_ack_context is Some {
                    DmaBuffer::DiagAck
                } else {
                    DmaBuffer::FallbackAck
                },
            )
        }),
{
    let c = w.checked(true);
    let rx = c.core.rx_idx->0;
    let a = PrxWorld {
        core: PrxCore { last_pipe: status.pipe, ..c.core },
        log: radio::accept_packet_log(c.log),
        ..c
    };
    lemma_repeated_ack(
        r,
        PrxWorld {
            core: PrxCore { rx_idx: None, ..a.core },
            pool: a.pool.with_slot(rx as int, SlotState::Free),
            ..a
        },
        status.pipe,
    );
}

/// The radio listens into the machine's buffer, or is at rest where the machine is idle.
pub open spec fn listens_or_rests(r: RadioRegs, w: PrxWorld) -> bool {
    let now = radio_after(r, w.log);
    if w.core.state == StatePrx::Receiver {
        &&& now.activity is Rx
        &&& now.rx_addresses == w.core.enabled_pipes
        &&& now.packet == Some(DmaBuffer::Pool(w.core.rx_idx->0))
    } else {
        now.activity is Disabled && !now.interrupt
    }
}

/// A copy that asks for no ACK leaves the radio listening.
proof fn lemma_dropped_listens(r: RadioRegs, w: PrxWorld, rx: usize)
    requires
        radio_after(r, w.log).rx_addresses == w.core.enabled_pipes,
        w.core.state == StatePrx::Receiver,
        w.core.rx_idx == Some(rx),
    ensures
        listens_or_rests(r, w.dropped_no_ack(rx)),
        w.dropped_no_ack(rx).core.enabled_pipes == w.core.enabled_pipes,
{
    if let Some(i) = w.pool.free() {
        lemma_rearmed_no_ack(
            r,
            PrxWorld {
                core: PrxCore { rx_idx: Some(i), ..w.core },
                pool: w.pool.with_slot(i as int, SlotState::InDma).with_slot(
                    rx as int,
                    SlotState::Free,
                ),
                ..w
            },
            DmaBuffer::Pool(i),
        );
    } else {
        lemma_rearmed_no_ack(r, w, DmaBuffer::Pool(rx));
    }
}

/// A new packet that asks for no ACK leaves the radio listening, or at rest.
proof fn lemma_delivered_listens(r: RadioRegs, w: PrxWorld, rx: usize)
    requires
        radio_after(r, w.log).rx_addresses == w.core.enabled_pipes,
        w.core.state == StatePrx::Receiver,
    ensures
        listens_or_rests(r, w.delivered_no_ack(rx)),
        w.delivered_no_ack(rx).core.enabled_pipes == w.core.enabled_pipes,
{
    let d = PrxWorld {
        core: PrxCore { rx_idx: None, ..w.core },
        pool: w.pool.completed(rx as int),
        ..w
    };
    radio_model::lemma_stop(r, w.log);
    if let Some(i) = d.pool.free() {
        lemma_rearmed_no_ack(
            r,
            PrxWorld {
                core: PrxCore { rx_idx: Some(i), ..d.core },
                pool: d.pool.with_slot(i as int, SlotState::InDma),
                ..d
            },
            DmaBuffer::Pool(i),
        );
    }
}

/// A packet that asks for no ACK gets none: the radio listens again at once, on the
/// enabled pipes and into a buffer of the machine, or is stopped where none is free.
pub proof fn law_prx_no_ack_listens_on(r: RadioRegs, w: PrxWorld, status: RxStatus)
    requires
        w.inv(),
        prx_tuned(r, w),
        w.core.state == StatePrx::Receiver,
        status.crc_ok,
        header::s1_no_ack(w.pool.header(w.core.rx_idx->0 as int).pid_no_ack),
    ensures
        ({
            let after = w.handled(PrxSample { disabled: true, status }, false).0;
            let now = radio_after(r, after.log);
            if after.core.state == StatePrx::Receiver {
                &&& now.activity is Rx
                &&& now.rx_addresses == w.core.enabled_pipes
                &&& now.packet == Some(DmaBuffer::Pool(after.core.rx_idx->0))
            } else {
                now.activity is Disabled && !now.interrupt
            }
        }),
{
    let c = w.checked(true);
    let rx = c.core.rx_idx->0;
    let a = PrxWorld {
        core: PrxCore { last_pipe: status.pipe, ..c.core },
        log: radio::accept_packet_log(c.log),
        ..c
    };
    assert(radio_after(r, a.log).rx_addresses == w.core.enabled_pipes) by {
        lemma_radio_push(
            r,
            w.log,
            HwOp::Radio(crate::hw::RadioOp::ClearEvent(crate::hw::RadioEvent::Disabled)),
        );
        radio_model::lemma_accept_packet(r, c.log);
    }
    lemma_dropped_listens(r, a, rx);
    lemma_delivered_listens(r, a.recorded(rx, status), rx);
}

/// The start of a timeslot has the radio listen, whatever it did before. The end brings
/// it to rest.
#[verifier::rlimit(40)]
pub proof fn law_prx_timeslot_tunes(
    r: RadioRegs,
    w: PrxWorld,
    pid: [u8; 8],
    crc: [u16; 8],
    valid: [bool; 8],
    disabled: bool,
)
    ensures
        ({
            let started = w.slot_started(pid, crc, valid);
            let now = radio_after(r, started.log);
            let config = w.core.config;
            &&& prx_tuned(r, started)
            &&& w.pool.free() is Some <==> started.core.state == StatePrx::Receiver
            &&& started.core.state == StatePrx::Receiver ==> now.activity is Rx
            &&& now.frequency == config.channel.0 && now.mode == config.bitrate
        }),
        radio_after(r, w.slot_stopped(disabled).log).activity is Disabled,
        !radio_after(r, w.slot_stopped(disabled).log).interrupt,
        radio_after(r, w.suspended(disabled).log).activity is Disabled,
{
    let l = radio::init_log(
        radio::power_cycle_log(w.log),
        w.core.radio.fast_ramp_up,
        w.core.config,
        w.core.addresses->0,
    );
    radio_model::law_init_programs_registers(
        r,
        w.log,
        w.core.radio.fast_ramp_up,
        w.core.config,
        w.core.addresses->0,
    );
    let s = PrxWorld {
        core: PrxCore {
            radio: radio::EsbRadio {
                last_pid: pid,
                last_crc: crc,
                last_valid: valid,
                ..w.core.radio
            },
            timeslot_managed: true,
            state: StatePrx::Idle,
            ..w.core
        },
        log: l,
        ..w
    };
    lemma_listening_tuned(r, s);
    if let Some(i) = s.pool.free() {
        radio_model::lemma_start_receiving_manual(
            r,
            l,
            s.core.enabled_pipes,
            DmaBuffer::Pool(i),
        );
    }
    let q = radio::stop_log(w.log);
    radio_model::lemma_stop(r, w.log);
    lemma_radio_through_disarm(r, q);
    lemma_radio_through_disarm(r, timer::disarm_retransmit_log(q));
    broadcast use lemma_radio_push;

}

/// A diagnostic ACK carries the counter of its pipe, which moves on with a new packet
/// and stays with a copy, and the window that is to be advertised.
pub proof fn law_prx_diagnostic_ack(w: PrxWorld, pipe: u8, advance: bool)
    requires
        w.core.diag_ack_context is Some,
        w.diag.len() == 256,
        pipe < 8,
        prx::diag_hint(w.core.diag_ack_context->0).validity() is Ok,
    ensures
        ({
            let after = w.fallback_acked_manual(pipe, advance);
            let before = w.core.diag_ack_counter@[pipe as int];
            let counter = after.core.diag_ack_counter@[pipe as int];
            let context = w.core.diag_ack_context->0;
            &&& counter == before + 1 || (counter == before && (!advance || before == u32::MAX))
            &&& advance || counter == before
            &&& forall|q: int|
                0 <= q < 8 && q != pipe ==> #[trigger] after.core.diag_ack_counter@[q]
                    == w.core.diag_ack_counter@[q]
            &&& mpsl_common::counter_of(after.diag) == Some(counter)
            &&& slot_ptx::ack_hint(after.diag) matches Some(hint) && hint.window_id
                == context.window_id && hint.next_delay_us == context.next_delay_us
                && hint.period_us == context.period_us && hint.window_us == context.window_us
        }),
{
    let after = w.fallback_acked_manual(pipe, advance);
    let hint = prx::diag_hint(w.core.diag_ack_context->0);
    mpsl_common::law_counter_round_trip(
        w.diag,
        0,
        after.core.diag_ack_counter@[pipe as int],
        hint,
        Seq::empty(),
    );
}

} // verus!
