//! What holds of a PRX over its whole life.

use crate::header;
use crate::header::EsbHeader;
use crate::payload;
use crate::payload::{PoolView, SlotState};
use crate::prx;
use crate::prx::{PrxCore, PrxSample, PrxWorld};
use crate::ptx_laws;
use crate::radio::RxStatus;
use crate::radio_model::{radio_after, RadioRegs};
use crate::state_machine::{PrxEvent, StatePrx};
use crate::timer::{timer_after, TimerRegs};
use vstd::prelude::*;

verus! {

/// Every buffer that the radio owns is one that the machine names.
pub open spec fn prx_owns_dma(w: PrxWorld) -> bool {
    forall|i: int|
        0 <= i < w.pool.slots.len() && #[trigger] w.pool.slots[i] == SlotState::InDma
            ==> w.core.rx_idx == Some(i as usize) || w.core.pending_rx_idx == Some(i as usize)
            || w.core.ack_tx_idx == Some(i as usize)
}

/// Starting to listen keeps the invariant.
proof fn lemma_listening(w: PrxWorld, n: int, size: int)
    requires
        w.inv(),
        ptx_laws::pool_ok(w.pool, n, size),
    ensures
        w.listening().inv(),
        ptx_laws::pool_ok(w.listening().pool, n, size),
        prx_owns_dma(w) ==> prx_owns_dma(w.listening()),
{
    payload::law_first_slot(w.pool.slots, SlotState::Free, 0);
}

/// Returning to reception after an ACK establishes the invariant.
proof fn lemma_ack_done(w: PrxWorld, n: int, size: int)
    requires
        ptx_laws::pool_ok(w.pool, n, size),
        w.core.rx_idx is None,
        w.core.pending_rx_idx is None,
        w.core.ack_tx_idx matches Some(i) ==> i < n && w.pool.slots[i as int] == SlotState::InDma,
        w.pool.queue_sound(),
    ensures
        w.ack_done().inv(),
        ptx_laws::pool_ok(w.ack_done().pool, n, size),
        prx_owns_dma(w) ==> prx_owns_dma(w.ack_done()),
{
    let r = w.released_ack_tx();
    payload::law_first_slot(r.pool.slots, SlotState::Free, 0);
}

/// Judging a packet keeps the invariant.
proof fn lemma_packet_received(w: PrxWorld, status: RxStatus, n: int, size: int)
    requires
        w.inv(),
        ptx_laws::pool_ok(w.pool, n, size),
        w.core.state == StatePrx::Receiver,
    ensures
        w.packet_received(status).0.inv(),
        ptx_laws::pool_ok(w.packet_received(status).0.pool, n, size),
        prx_owns_dma(w) ==> prx_owns_dma(w.packet_received(status).0),
{
    let rx = w.core.rx_idx->0;
    payload::law_first_slot(w.pool.slots, SlotState::Free, 0);
    let l = PrxWorld {
        core: PrxCore { last_pipe: status.pipe, ..w.core },
        log: crate::radio::accept_packet_log(w.log),
        ..w
    };
    let r = l.recorded(rx, status);
    payload::law_queue_has_room(r.pool, n, size, rx as int);
    payload::law_first_slot(r.pool.completed(rx as int).slots, SlotState::Free, 0);
    payload::law_first_queued_for(r.pool, status.pipe, 0);
}

/// Every interrupt keeps the invariant, and no buffer is lost: the radio never
/// owns one that the machine has forgotten.
pub proof fn law_prx_invariant(w: PrxWorld, sample: PrxSample, timer: bool, n: int, size: int)
    requires
        w.inv(),
        ptx_laws::pool_ok(w.pool, n, size),
    ensures
        w.handled(sample, timer).0.inv(),
        ptx_laws::pool_ok(w.handled(sample, timer).0.pool, n, size),
        prx_owns_dma(w) ==> prx_owns_dma(w.handled(sample, timer).0),
{
    let c = w.checked(sample.disabled);
    match c.core.state {
        StatePrx::Idle => {
            lemma_listening(c, n, size);
        },
        StatePrx::Receiver => {
            lemma_packet_received(c, sample.status, n, size);
        },
        StatePrx::TxAck => {
            payload::law_queue_has_room(c.pool, n, size, c.core.pending_rx_idx->0 as int);
            lemma_ack_done(c.delivered_pending(), n, size);
        },
        StatePrx::TxRepeatedAck => {
            lemma_ack_done(c, n, size);
        },
    }
}

/// The start of a timeslot from rest, a signal and the end keep the invariant.
/// After the end the machine is idle and the radio owns no buffer.
pub proof fn law_prx_timeslot_invariant(
    w: PrxWorld,
    pid: [u8; 8],
    crc: [u16; 8],
    valid: [bool; 8],
    sample: PrxSample,
    n: int,
    size: int,
)
    requires
        w.inv(),
        ptx_laws::pool_ok(w.pool, n, size),
    ensures
        w.core.state == StatePrx::Idle ==> w.slot_started(pid, crc, valid).inv(),
        w.slot_signalled(sample).0.inv(),
        w.slot_stopped(sample.disabled).inv(),
        w.slot_stopped(sample.disabled).core.state == StatePrx::Idle,
        prx_owns_dma(w) ==> forall|i: int|
            0 <= i < n ==> #[trigger] w.slot_stopped(sample.disabled).pool.slots[i]
                != SlotState::InDma,
{
    law_prx_invariant(w, sample, false, n, size);
    payload::law_first_slot(w.pool.slots, SlotState::Free, 0);
}

/// An interrupt that neither the radio nor the timer raised changes nothing
/// while the machine is not idle.
pub proof fn law_prx_ignores_user_event(w: PrxWorld, status: RxStatus)
    requires
        w.core.state != StatePrx::Idle,
    ensures
        w.handled(PrxSample { disabled: false, status }, false) == (
            w,
            PrxEvent::Nothing,
            Option::<usize>::None,
        ),
{
}

/// A packet is handed to the application at most once: a duplicate never
/// reaches the queue, and leaves duplicate detection as it was.
pub proof fn law_prx_duplicate_not_delivered(w: PrxWorld, status: RxStatus, n: int, size: int)
    requires
        w.inv(),
        ptx_laws::pool_ok(w.pool, n, size),
        w.core.state == StatePrx::Receiver,
        status.crc_ok,
        w.core.radio.is_duplicate(
            status.pipe as int,
            header::s1_pid(w.pool.header(w.core.rx_idx->0 as int).pid_no_ack),
            status.crc,
        ),
    ensures
        ({
            let (after, event, idx) = w.handled(PrxSample { disabled: true, status }, false);
            &&& event == PrxEvent::Duplicate && idx is None
            &&& after.pool.rx == w.pool.rx
            &&& after.core.pending_rx_idx is None
            &&& after.core.radio == w.core.radio
            &&& after.core.state == (if header::s1_no_ack(
                w.pool.header(w.core.rx_idx->0 as int).pid_no_ack,
            ) {
                StatePrx::Receiver
            } else {
                StatePrx::TxRepeatedAck
            })
        }),
{
}

/// A packet whose CRC does not match is not delivered, and the machine goes on
/// listening into the same buffer.
pub proof fn law_prx_bad_crc_not_delivered(w: PrxWorld, status: RxStatus)
    requires
        w.core.state == StatePrx::Receiver,
        !status.crc_ok,
    ensures
        ({
            let (after, event, idx) = w.handled(PrxSample { disabled: true, status }, false);
            &&& event == PrxEvent::BadCrc && idx is None
            &&& after.pool == w.pool
            &&& after.core == (PrxCore { last_pipe: status.pipe, ..w.core })
        }),
{
}

/// A new packet that asks for an ACK is queued, with pipe and RSSI filled in
/// and its payload as received, when its ACK has gone out.
pub proof fn law_prx_delivers_after_ack(
    w: PrxWorld,
    status: RxStatus,
    ack_status: RxStatus,
    n: int,
    size: int,
)
    requires
        w.inv(),
        ptx_laws::pool_ok(w.pool, n, size),
        w.core.state == StatePrx::Receiver,
        status.crc_ok,
        !header::s1_no_ack(w.pool.header(w.core.rx_idx->0 as int).pid_no_ack),
        !w.core.radio.is_duplicate(
            status.pipe as int,
            header::s1_pid(w.pool.header(w.core.rx_idx->0 as int).pid_no_ack),
            status.crc,
        ),
    ensures
        ({
            let rx = w.core.rx_idx->0;
            let (acking, event, idx) = w.handled(PrxSample { disabled: true, status }, false);
            let done = acking.handled(
                PrxSample { disabled: true, status: ack_status },
                false,
            ).0;
            let h = done.pool.header(rx as int);
            &&& event == PrxEvent::Received && idx == Some(rx)
            &&& acking.core.state == StatePrx::TxAck && acking.pool.rx == w.pool.rx
            &&& done.pool.rx == w.pool.rx.push(rx)
            &&& done.pool.slots[rx as int] == SlotState::RxQueued
            &&& h.pipe == status.pipe && h.rssi == status.rssi
            &&& h.length == w.pool.header(rx as int).length
            &&& done.pool.bufs[rx as int].skip(4) == w.pool.bufs[rx as int].skip(4)
        }),
{
    let rx = w.core.rx_idx->0;
    law_prx_invariant(w, PrxSample { disabled: true, status }, false, n, size);
    let acking = w.handled(PrxSample { disabled: true, status }, false).0;
    let c = w.checked(true);
    payload::law_first_queued_for(
        (PrxWorld {
            core: PrxCore { last_pipe: status.pipe, ..c.core },
            log: crate::radio::accept_packet_log(c.log),
            ..c
        }).recorded(rx, status).pool,
        status.pipe,
        0,
    );
    payload::law_queue_has_room(acking.pool, n, size, rx as int);
    let r = acking.checked(true).delivered_pending().released_ack_tx();
    payload::law_first_slot(r.pool.slots, SlotState::Free, 0);
    assert(acking.pool.bufs[rx as int].skip(4) =~= w.pool.bufs[rx as int].skip(4));
}

/// A new packet that asks for no ACK is queued at once.
pub proof fn law_prx_delivers_no_ack(w: PrxWorld, status: RxStatus, n: int, size: int)
    requires
        w.inv(),
        ptx_laws::pool_ok(w.pool, n, size),
        w.core.state == StatePrx::Receiver,
        status.crc_ok,
        header::s1_no_ack(w.pool.header(w.core.rx_idx->0 as int).pid_no_ack),
        !w.core.radio.is_duplicate(
            status.pipe as int,
            header::s1_pid(w.pool.header(w.core.rx_idx->0 as int).pid_no_ack),
            status.crc,
        ),
    ensures
        ({
            let rx = w.core.rx_idx->0;
            let (after, event, idx) = w.handled(PrxSample { disabled: true, status }, false);
            &&& event == PrxEvent::ReceivedNoAck && idx == Some(rx)
            &&& after.pool.rx == w.pool.rx.push(rx)
            &&& after.core.ack_tx_idx == w.core.ack_tx_idx
        }),
{
    let rx = w.core.rx_idx->0;
    payload::law_queue_has_room(w.pool, n, size, rx as int);
}

/// A new packet on a pipe makes its copy a duplicate; until another packet is
/// accepted on that pipe, the copy is never delivered.
pub proof fn law_prx_copy_is_duplicate(
    w: PrxWorld,
    status: RxStatus,
    n: int,
    size: int,
)
    requires
        w.inv(),
        ptx_laws::pool_ok(w.pool, n, size),
        w.core.state == StatePrx::Receiver,
        status.crc_ok,
        status.pipe < 8,
    ensures
        w.handled(PrxSample { disabled: true, status }, false).0.core.radio.is_duplicate(
            status.pipe as int,
            header::s1_pid(w.pool.header(w.core.rx_idx->0 as int).pid_no_ack),
            status.crc,
        ),
{
}

/// The payload of an ACK was queued for the pipe that it goes out on.
pub proof fn law_prx_ack_payload_matches_pipe(w: PrxWorld, pipe: u8, n: int, size: int)
    requires
        ptx_laws::pool_ok(w.pool, n, size),
    ensures
        w.acked(pipe).core.ack_tx_idx matches Some(i) ==> w.pool.slots[i as int]
            == SlotState::TxQueued && w.pool.header(i as int).pipe == pipe,
        w.acked(pipe).core.ack_tx_idx is None <==> forall|j: int|
            0 <= j < n ==> !(w.pool.slots[j] == SlotState::TxQueued && (
            #[trigger] w.pool.bufs[j])[1] == pipe),
{
    payload::law_first_queued_for(w.pool, pipe, 0);
}

/// A suspended machine that is restored from what it saved detects duplicates
/// as before, and is idle.
pub proof fn law_prx_suspend_round_trip(
    w: PrxWorld,
    disabled: bool,
    addresses: crate::addresses::EsbAddresses,
)
    ensures
        ({
            let restored = prx::restored_prx(
                w.suspended(disabled).core,
                prx::saved_prx(w.core),
                addresses,
            );
            &&& restored.radio == w.core.radio
            &&& restored.state == StatePrx::Idle
            &&& restored.rx_idx is None && restored.pending_rx_idx is None
                && restored.ack_tx_idx is None
        }),
{
}

/// The application can use the pool while the machine works: as long as the
/// radio's buffers stay with it and the queue stays sound, so does the invariant.
pub proof fn law_prx_shares_pool(w: PrxWorld, pool: PoolView)
    requires
        w.inv(),
        pool.queue_sound(),
        pool.slots.len() == w.pool.slots.len(),
        forall|i: int|
            0 <= i < pool.slots.len() && w.pool.slots[i] == SlotState::InDma
                ==> #[trigger] pool.slots[i] == SlotState::InDma,
    ensures
        (PrxWorld { pool, ..w }).inv(),
{
}

/// A packet that asks for no ACK is delivered with its payload, and with the pipe and
/// the signal strength that it came with.
pub proof fn law_prx_no_ack_arrives_whole(w: PrxWorld, status: RxStatus, n: int, size: int)
    requires
        w.inv(),
        ptx_laws::pool_ok(w.pool, n, size),
        w.core.state == StatePrx::Receiver,
        status.crc_ok,
        header::s1_no_ack(w.pool.header(w.core.rx_idx->0 as int).pid_no_ack),
        !w.core.radio.is_duplicate(
            status.pipe as int,
            header::s1_pid(w.pool.header(w.core.rx_idx->0 as int).pid_no_ack),
            status.crc,
        ),
    ensures
        ({
            let rx = w.core.rx_idx->0;
            let after = w.handled(PrxSample { disabled: true, status }, false).0;
            let h = after.pool.header(rx as int);
            &&& after.pool.rx.last() == rx
            &&& after.pool.slots[rx as int] == SlotState::RxQueued
            &&& h.pipe == status.pipe && h.rssi == status.rssi
            &&& h.length == w.pool.header(rx as int).length
            &&& h.pid_no_ack == w.pool.header(rx as int).pid_no_ack
            &&& after.pool.bufs[rx as int].skip(4) == w.pool.bufs[rx as int].skip(4)
            &&& after.core.rx_idx != Some(rx)
            &&& after.core.last_pipe == status.pipe
        }),
{
    let rx = w.core.rx_idx->0;
    let sample = PrxSample { disabled: true, status };
    law_prx_delivers_no_ack(w, status, n, size);
    let after = w.handled(sample, false).0;
    let h = w.pool.header(rx as int);
    header::law_header_round_trip(
        w.pool.bufs[rx as int],
        EsbHeader { rssi: status.rssi, pipe: status.pipe, ..h },
    );
    crate::payload::law_first_slot(
        w.recorded(rx, status).pool.completed(rx as int).slots,
        SlotState::Free,
        0,
    );
    assert(after.pool.bufs[rx as int].skip(4) =~= w.pool.bufs[rx as int].skip(4));
}

/// An ACK payload goes out with one ACK: once that is out its buffer is free, and the
/// packet that it acknowledged is delivered.
pub proof fn law_prx_ack_payload_goes_out_once(
    w: PrxWorld,
    sample: PrxSample,
    timer: bool,
    n: int,
    size: int,
)
    requires
        w.inv(),
        ptx_laws::pool_ok(w.pool, n, size),
        w.core.state == StatePrx::TxAck,
        sample.disabled || timer,
    ensures
        ({
            let after = w.handled(sample, timer).0;
            &&& after.core.ack_tx_idx is None
            &&& after.core.pending_rx_idx is None
            &&& w.core.ack_tx_idx matches Some(i) ==> after.pool.slots[i as int]
                != SlotState::TxQueued
            &&& after.pool.rx == w.pool.rx.push(w.core.pending_rx_idx->0)
            &&& after.core.state == StatePrx::Receiver || after.core.state == StatePrx::Idle
            &&& w.core.ack_tx_idx is Some ==> after.core.state == StatePrx::Receiver
        }),
{
    let p = w.core.pending_rx_idx->0;
    crate::payload::law_queue_has_room(w.pool, n, size, p as int);
    let out = w.checked(sample.disabled).delivered_pending().released_ack_tx();
    crate::payload::law_first_slot(out.pool.slots, SlotState::Free, 0);
    if let Some(i) = w.core.ack_tx_idx {
        assert(out.pool.slots[i as int] == SlotState::Free);
    }
}

/// A stopped PRX is off the air, with no timeout armed.
pub proof fn law_prx_stopped_is_off(r: RadioRegs, t: TimerRegs, w: PrxWorld, disabled: bool)
    ensures
        ({
            let now = radio_after(r, w.stopped(disabled).log);
            let timer = timer_after(t, w.stopped(disabled).log);
            &&& now.activity is Disabled && !now.interrupt && !now.disabled_rxen
                && !now.disabled_txen
            &&& timer.retransmit is None && timer.ack_timeout is None && !timer.running
        }),
        radio_after(r, w.suspended(disabled).log) == radio_after(r, w.stopped(disabled).log),
        w.stopped(disabled).core.state == StatePrx::Idle,
{
    broadcast use crate::radio_model::lemma_radio_push;
    broadcast use crate::timer::lemma_timer_push_auto;

}

/// A PRX that is restored listens on all pipes that have an address, and on no other.
pub proof fn law_prx_restored_listens_on_addressed_pipes(
    w: PrxWorld,
    saved: crate::suspend::EsbSavedState,
    addresses: crate::addresses::EsbAddresses,
    p: u8,
)
    requires
        p < 8,
        addresses.pipes() <= 8,
    ensures
        ((prx::restored_prx(w.core, saved, addresses).enabled_pipes >> p) & 1 == 1) == (p
            < addresses.pipes()),
{
    crate::addresses::law_low_mask_members(addresses.pipes(), p);
}

/// A PRX listens on the pipes that it was given: from the start, once it is asked to,
/// and where a buffer is free.
pub proof fn law_prx_listens_on_given_pipes(
    r: RadioRegs,
    w: PrxWorld,
    config: crate::config::EsbConfig,
    enabled_pipes: u8,
)
    requires
        w.core == prx::new_prx(w.core.radio, w.core.timer, config, enabled_pipes),
    ensures
        w.core.state == StatePrx::Idle && w.core.config == config,
        w.core.rx_idx is None && w.core.pending_rx_idx is None && w.core.ack_tx_idx is None,
        w.pool.free() is None ==> w.listening() == w,
        w.pool.free() matches Some(i) ==> {
            let now = radio_after(r, w.listening().log);
            &&& w.listening().core.state == StatePrx::Receiver
            &&& now.activity is Rx && now.interrupt
            &&& now.rx_addresses == enabled_pipes
            &&& now.packet == Some(crate::hw::DmaBuffer::Pool(i))
        },
{
    broadcast use crate::radio_model::lemma_radio_push;

}

} // verus!
