//! What holds of a PTX and a PRX that hear each other.

use crate::header;
use crate::payload;
use crate::payload::{PoolView, SlotState};
use crate::prx::{PrxSample, PrxWorld};
use crate::prx_laws;
use crate::ptx::{PtxSample, PtxWorld};
use crate::ptx_laws;
use crate::radio::RxStatus;
use crate::radio_model;
use crate::state_machine::{PrxEvent, StatePrx, StatePtx};
use vstd::prelude::*;

verus! {

/// The payload of a packet buffer: as many bytes behind the header as the
/// header says.
pub open spec fn payload_of(buf: Seq<u8>) -> Seq<u8> {
    buf.subrange(4, 4 + header::header_at(buf).length)
}

/// A buffer holds what was on air: LENGTH, S1 and the payload of the packet
/// that was sent. The first two bytes of a buffer are never on air.
pub open spec fn heard(buf: Seq<u8>, sent: Seq<u8>) -> bool {
    &&& header::header_at(buf).length == header::header_at(sent).length
    &&& header::header_at(buf).pid_no_ack == header::header_at(sent).pid_no_ack
    &&& 4 + header::header_at(sent).length <= buf.len()
    &&& 4 + header::header_at(sent).length <= sent.len()
    &&& payload_of(buf) == payload_of(sent)
}

/// A PRX that listens and has just heard `sent`.
pub open spec fn has_heard(w: PrxWorld, status: RxStatus, sent: Seq<u8>) -> bool {
    &&& w.core.state == StatePrx::Receiver
    &&& status.crc_ok
    &&& heard(w.pool.bufs[w.core.rx_idx->0 as int], sent)
}

/// A PRX that handles a packet and the end of the ACK for it.
pub open spec fn answered_and_done(w: PrxWorld, status: RxStatus, ack_status: RxStatus) -> PrxWorld {
    w.handled(PrxSample { disabled: true, status }, false).0.handled(
        PrxSample { disabled: true, status: ack_status },
        false,
    ).0
}

/// What a PTX sends, the PRX that hears it delivers: a packet that the
/// application has queued, and that asks for an ACK, is appended to the queue
/// of the receiver's application with the same payload.
pub proof fn law_link_delivers_payload(
    tx: PtxWorld,
    rx: PrxWorld,
    status: RxStatus,
    ack_status: RxStatus,
    n: int,
    m: int,
    size: int,
)
    requires
        tx.inv(),
        ptx_laws::pool_ok(tx.pool, n, size),
        tx.sm.state == StatePtx::Idle,
        tx.sm.tx_idx is None,
        tx.pool.queued() is Some,
        !header::s1_no_ack(tx.pool.header(tx.pool.queued()->0 as int).pid_no_ack),
        rx.inv(),
        ptx_laws::pool_ok(rx.pool, m, size),
        has_heard(
            rx,
            status,
            tx.handled(
                PtxSample { disabled: false, crc_ok: false },
                false,
                false,
            ).0.pool.bufs[tx.pool.queued()->0 as int],
        ),
        !rx.core.radio.is_duplicate(status.pipe as int, tx.sm.pid, status.crc),
    ensures
        ({
            let i = rx.core.rx_idx->0;
            let done = answered_and_done(rx, status, ack_status);
            &&& done.pool.rx == rx.pool.rx.push(i)
            &&& done.pool.slots[i as int] == SlotState::RxQueued
            &&& done.pool.header(i as int).pipe == status.pipe
            &&& payload_of(done.pool.bufs[i as int]) == payload_of(
                tx.pool.bufs[tx.pool.queued()->0 as int],
            )
        }),
{
    let q = tx.pool.queued()->0;
    let sent = tx.handled(PtxSample { disabled: false, crc_ok: false }, false, false).0.pool.bufs[
        q as int];
    let i = rx.core.rx_idx->0;
    let got = rx.pool.bufs[i as int];
    ptx_laws::law_ptx_sends_queued_packet(tx, false, n, size);
    payload::law_first_slot(tx.pool.slots, SlotState::TxQueued, 0);
    prx_laws::law_prx_delivers_after_ack(rx, status, ack_status, m, size);
    let done = answered_and_done(rx, status, ack_status);
    prx_laws::law_prx_invariant(rx, PrxSample { disabled: true, status }, false, m, size);
    prx_laws::law_prx_invariant(
        rx.handled(PrxSample { disabled: true, status }, false).0,
        PrxSample { disabled: true, status: ack_status },
        false,
        m,
        size,
    );
    let out = done.pool.bufs[i as int];
    let len = header::header_at(sent).length as int;
    assert(out.subrange(4, 4 + len) =~= out.skip(4).take(len));
    assert(got.subrange(4, 4 + len) =~= got.skip(4).take(len));
    assert(sent.subrange(4, 4 + len) =~= sent.skip(4).take(len));
    assert(payload_of(tx.pool.bufs[q as int]) =~= tx.pool.bufs[q as int].skip(4).take(len));
}

/// One interrupt of a PRX: the pool as the radio and the application have left
/// it since the one before, and what the registers read.
pub struct Interrupt {
    /// The pool when the interrupt comes.
    pub pool: PoolView,
    /// What the registers read.
    pub sample: PrxSample,
    /// A timer raised the interrupt.
    pub timer: bool,
}

/// A PRX after one interrupt, with what it reports.
pub open spec fn interrupted(w: PrxWorld, e: Interrupt) -> (PrxWorld, PrxEvent, Option<usize>) {
    (PrxWorld { pool: e.pool, ..w }).handled(e.sample, e.timer)
}

/// A PRX after a row of interrupts.
pub open spec fn after_interrupts(w: PrxWorld, es: Seq<Interrupt>) -> PrxWorld
    decreases es.len(),
{
    if es.len() == 0 {
        w
    } else {
        interrupted(after_interrupts(w, es.drop_last()), es.last()).0
    }
}

/// An interrupt brings a new packet on `pipe`.
pub open spec fn accepts(w: PrxWorld, e: Interrupt, pipe: u8) -> bool {
    let event = interrupted(w, e).1;
    (event == PrxEvent::Received || event == PrxEvent::ReceivedNoAck) && e.sample.status.pipe
        == pipe
}

/// No interrupt of a row brings a new packet on `pipe`.
pub open spec fn quiet_on(w: PrxWorld, es: Seq<Interrupt>, pipe: u8) -> bool
    decreases es.len(),
{
    es.len() == 0 || (quiet_on(w, es.drop_last(), pipe) && !accepts(
        after_interrupts(w, es.drop_last()),
        es.last(),
        pipe,
    ))
}

/// An interrupt that brings no new packet on a pipe leaves the duplicate
/// detection of that pipe as it was.
proof fn lemma_interrupt_keeps_detection(w: PrxWorld, e: Interrupt, pipe: u8, pid: u8, crc: u16)
    requires
        !accepts(w, e, pipe),
    ensures
        interrupted(w, e).0.core.radio.is_duplicate(pipe as int, pid, crc)
            == w.core.radio.is_duplicate(pipe as int, pid, crc),
{
    let c = (PrxWorld { pool: e.pool, ..w }).checked(e.sample.disabled);
    if c.core.state == StatePrx::Receiver && (e.sample.disabled || e.timer) {
        let s1 = c.pool.header(c.core.rx_idx->0 as int).pid_no_ack;
        let event = c.packet_received(e.sample.status).1;
        if (event == PrxEvent::Received || event == PrxEvent::ReceivedNoAck)
            && e.sample.status.pipe < 8 {
            radio_model::law_duplicate_detection(
                c.core.radio,
                e.sample.status.pipe as int,
                header::s1_pid(s1),
                e.sample.status.crc,
                pipe as int,
                pid,
                crc,
            );
        }
    }
}

/// A packet is remembered until a new one comes on its pipe: whatever happens
/// in between, its copy is judged in the same way.
pub proof fn law_link_remembers(w: PrxWorld, es: Seq<Interrupt>, pipe: u8, pid: u8, crc: u16)
    requires
        quiet_on(w, es, pipe),
    ensures
        after_interrupts(w, es).core.radio.is_duplicate(pipe as int, pid, crc)
            == w.core.radio.is_duplicate(pipe as int, pid, crc),
    decreases es.len(),
{
    if es.len() > 0 {
        law_link_remembers(w, es.drop_last(), pipe, pid, crc);
        lemma_interrupt_keeps_detection(
            after_interrupts(w, es.drop_last()),
            es.last(),
            pipe,
            pid,
            crc,
        );
    }
}

/// A packet is delivered once, however often it is sent: after a PRX has taken
/// it, and until a new packet comes on its pipe, a retransmission is a
/// duplicate, which is queued nowhere and is acknowledged again where it asks
/// for that.
pub proof fn law_link_delivers_once(
    first: PrxWorld,
    status: RxStatus,
    es: Seq<Interrupt>,
    again: PrxWorld,
    again_status: RxStatus,
    sent: Seq<u8>,
    n: int,
    size: int,
)
    requires
        first.inv(),
        ptx_laws::pool_ok(first.pool, n, size),
        has_heard(first, status, sent),
        status.pipe < 8,
        quiet_on(first.handled(PrxSample { disabled: true, status }, false).0, es, status.pipe),
        again.core == after_interrupts(
            first.handled(PrxSample { disabled: true, status }, false).0,
            es,
        ).core,
        again.inv(),
        ptx_laws::pool_ok(again.pool, n, size),
        has_heard(again, again_status, sent),
        again_status.pipe == status.pipe,
        again_status.crc == status.crc,
    ensures
        ({
            let (after, event, idx) = again.handled(
                PrxSample { disabled: true, status: again_status },
                false,
            );
            &&& event == PrxEvent::Duplicate && idx is None
            &&& after.pool.rx == again.pool.rx
            &&& after.core.pending_rx_idx is None
            &&& after.core.state == (if header::s1_no_ack(header::header_at(sent).pid_no_ack) {
                StatePrx::Receiver
            } else {
                StatePrx::TxRepeatedAck
            })
        }),
{
    let pid = header::s1_pid(header::header_at(sent).pid_no_ack);
    prx_laws::law_prx_copy_is_duplicate(first, status, n, size);
    law_link_remembers(
        first.handled(PrxSample { disabled: true, status }, false).0,
        es,
        status.pipe,
        pid,
        status.crc,
    );
    prx_laws::law_prx_duplicate_not_delivered(again, again_status, n, size);
}

/// Two packets that a PTX sends one after the other are told apart, even with
/// the same contents: the second one is new to a PRX that has taken the first,
/// whatever else has come in between on other pipes.
pub proof fn law_link_tells_packets_apart(
    first: PrxWorld,
    status: RxStatus,
    es: Seq<Interrupt>,
    pid: u8,
    crc: u16,
    sent: Seq<u8>,
    n: int,
    size: int,
)
    requires
        first.inv(),
        ptx_laws::pool_ok(first.pool, n, size),
        has_heard(first, status, sent),
        status.pipe < 8,
        quiet_on(first.handled(PrxSample { disabled: true, status }, false).0, es, status.pipe),
        pid == (header::s1_pid(header::header_at(sent).pid_no_ack) + 1) % 4,
    ensures
        !after_interrupts(
            first.handled(PrxSample { disabled: true, status }, false).0,
            es,
        ).core.radio.is_duplicate(status.pipe as int, pid, crc),
{
    let handled = first.handled(PrxSample { disabled: true, status }, false).0;
    prx_laws::law_prx_copy_is_duplicate(first, status, n, size);
    law_link_remembers(handled, es, status.pipe, pid, crc);
}

/// What a PRX puts into an ACK, the PTX that hears it delivers: the payload
/// that was queued for the pipe is appended to the queue of the sender's
/// application.
pub proof fn law_link_delivers_ack_payload(
    rx: PrxWorld,
    tx: PtxWorld,
    pipe: u8,
    timer: bool,
    suppress: bool,
    n: int,
    m: int,
    size: int,
)
    requires
        ptx_laws::pool_ok(rx.pool, m, size),
        rx.pool.queued_for(pipe) is Some,
        rx.pool.header(rx.pool.queued_for(pipe)->0 as int).length > 0,
        tx.inv(),
        ptx_laws::pool_ok(tx.pool, n, size),
        tx.sm.state == StatePtx::WaitAck,
        heard(
            tx.pool.bufs[tx.sm.ack_rx_idx->0 as int],
            rx.acked(pipe).pool.bufs[rx.pool.queued_for(pipe)->0 as int],
        ),
    ensures
        ({
            let i = tx.sm.ack_rx_idx->0;
            let after = tx.handled(PtxSample { disabled: true, crc_ok: true }, timer, suppress).0;
            &&& rx.acked(pipe).core.ack_tx_idx == rx.pool.queued_for(pipe)
            &&& after.pool.rx == tx.pool.rx.push(i)
            &&& payload_of(after.pool.bufs[i as int]) == payload_of(
                rx.pool.bufs[rx.pool.queued_for(pipe)->0 as int],
            )
        }),
{
    payload::law_first_queued_for(rx.pool, pipe, 0);
    ptx_laws::law_ptx_delivers_ack_payload(tx, timer, suppress, n, size);
}

} // verus!
