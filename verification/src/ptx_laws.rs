//! What holds of a PTX over its whole life.

use crate::header;
use crate::header::EsbHeader;
use crate::payload;
use crate::payload::{PoolView, SlotState};
use crate::ptx;
use crate::ptx::{PtxSample, PtxStateMachine, PtxWorld};
use crate::radio_model::{radio_after, RadioRegs};
use crate::state_machine::{PtxEvent, StatePtx};
use crate::suspend::SavedProtocolState;
use crate::timer::{timer_after, TimerRegs};
use vstd::prelude::*;

verus! {

/// Every buffer that the radio owns is one that the machine names.
pub open spec fn ptx_owns_dma(w: PtxWorld) -> bool {
    forall|i: int|
        0 <= i < w.pool.slots.len() && #[trigger] w.pool.slots[i] == SlotState::InDma
            ==> w.sm.tx_idx == Some(i as usize) || w.sm.ack_rx_idx == Some(i as usize)
}

/// A pool of `n` buffers with a header each.
pub open spec fn pool_ok(pool: PoolView, n: int, size: int) -> bool {
    pool.fits(n, size) && 4 <= size && n <= usize::MAX
}

/// Sending the next packet keeps the invariant.
proof fn lemma_sent_next(w: PtxWorld, n: int, size: int)
    requires
        pool_ok(w.pool, n, size),
        w.sm.wf(n),
        w.pool.queue_sound(),
        w.sm.ack_rx_idx is None,
        w.sm.tx_idx matches Some(i) ==> w.pool.slots[i as int] == SlotState::InDma,
    ensures
        w.sent_next().inv(),
        pool_ok(w.sent_next().pool, n, size),
        ptx_owns_dma(w) ==> ptx_owns_dma(w.sent_next()),
{
    payload::law_first_slot(w.pool.slots, SlotState::TxQueued, 0);
}

/// Finishing a packet keeps the invariant.
proof fn lemma_next_packet(w: PtxWorld, suppress: bool, n: int, size: int)
    requires
        pool_ok(w.pool, n, size),
        w.sm.wf(n),
        w.pool.queue_sound(),
        w.sm.ack_rx_idx is None,
        w.sm.tx_idx matches Some(i) ==> w.pool.slots[i as int] == SlotState::InDma,
    ensures
        w.next_packet(suppress).inv(),
        pool_ok(w.next_packet(suppress).pool, n, size),
        ptx_owns_dma(w) ==> ptx_owns_dma(w.next_packet(suppress)),
{
    let r = w.released_tx();
    let a = PtxWorld { sm: PtxStateMachine { pid: ((r.sm.pid + 1) % 4) as u8, ..r.sm }, ..r };
    lemma_sent_next(a, n, size);
}

/// Every interrupt keeps the invariant, and no buffer is lost: the radio never
/// owns one that the machine has forgotten.
pub proof fn law_ptx_invariant(
    w: PtxWorld,
    sample: PtxSample,
    timer: bool,
    suppress: bool,
    n: int,
    size: int,
)
    requires
        w.inv(),
        pool_ok(w.pool, n, size),
    ensures
        w.handled(sample, timer, suppress).0.inv(),
        pool_ok(w.handled(sample, timer, suppress).0.pool, n, size),
        ptx_owns_dma(w) ==> ptx_owns_dma(w.handled(sample, timer, suppress).0),
{
    let c = w.checked(sample.disabled);
    match c.sm.state {
        StatePtx::Idle => {
            lemma_sent_next(c, n, size);
        },
        StatePtx::TxNoAck => {
            lemma_next_packet(
                PtxWorld { log: crate::radio::finish_tx_no_ack_log(c.log), ..c },
                suppress,
                n,
                size,
            );
        },
        StatePtx::Tx => {
            payload::law_first_slot(c.pool.slots, SlotState::Free, 0);
        },
        StatePtx::WaitAck => {
            let i = c.sm.ack_rx_idx->0;
            payload::law_queue_has_room(c.pool, n, size, i as int);
            let l = PtxWorld {
                log: crate::radio::stop_log(
                    crate::timer::disarm_retransmit_log(
                        crate::timer::disarm_ack_timeout_log(c.log),
                    ),
                ),
                ..c
            };
            let d = l.delivered_ack();
            lemma_next_packet(
                PtxWorld { sm: PtxStateMachine { attempts: 0, ..d.sm }, ..d },
                suppress,
                n,
                size,
            );
            let m = (PtxWorld {
                log: crate::radio::stop_log(crate::timer::disarm_ack_timeout_log(c.log)),
                ..c
            }).released_ack_rx();
            lemma_next_packet(
                PtxWorld { sm: PtxStateMachine { attempts: 0, ..m.sm }, ..m },
                suppress,
                n,
                size,
            );
        },
        StatePtx::WaitRetransmit => {},
    }
}

/// The start, a signal and the end of a timeslot keep the invariant. After its
/// end the radio owns no buffer.
pub proof fn law_ptx_timeslot_invariant(
    w: PtxWorld,
    pid: [u8; 8],
    crc: [u16; 8],
    valid: [bool; 8],
    sample: PtxSample,
    timer: bool,
    n: int,
    size: int,
)
    requires
        w.inv(),
        pool_ok(w.pool, n, size),
    ensures
        w.slot_started(pid, crc, valid).inv(),
        w.slot_signalled(sample, timer).0.inv(),
        w.slot_stopped().inv(),
        w.slot_stopped().sm.state == StatePtx::Idle,
        ptx_owns_dma(w) ==> forall|i: int|
            0 <= i < n ==> #[trigger] w.slot_stopped().pool.slots[i] != SlotState::InDma,
{
    let r = w.reinitialized(w.sm.addresses->0, pid, crc, valid);
    lemma_sent_next(
        PtxWorld {
            sm: PtxStateMachine {
                timeslot_managed: true,
                state: StatePtx::Idle,
                attempts: 0,
                tx_idx: None,
                ack_rx_idx: None,
                ..r.sm
            },
            ..r
        },
        n,
        size,
    );
    law_ptx_invariant(w, sample, timer, false, n, size);
}

/// An interrupt that neither the radio nor the timer raised changes nothing
/// while a packet is in flight.
pub proof fn law_ptx_ignores_user_event(w: PtxWorld, crc_ok: bool, suppress: bool)
    requires
        w.sm.state != StatePtx::Idle,
    ensures
        w.handled(PtxSample { disabled: false, crc_ok }, false, suppress) == (w, PtxEvent::Nothing),
{
}

/// A packet goes out with the current PID on the pipe that it was queued for,
/// with its payload and its NO_ACK flag as they were queued. With the flag set
/// the machine does not wait for an ACK.
pub proof fn law_ptx_sends_queued_packet(w: PtxWorld, crc_ok: bool, n: int, size: int)
    requires
        w.inv(),
        pool_ok(w.pool, n, size),
        w.sm.state == StatePtx::Idle,
        w.sm.tx_idx is None,
        w.pool.queued() is Some,
    ensures
        ({
            let i = w.pool.queued()->0;
            let after = w.handled(PtxSample { disabled: false, crc_ok }, false, false).0;
            let before = w.pool.header(i as int);
            &&& after.sm.tx_idx == Some(i)
            &&& after.sm.active_tx_pipe == before.pipe
            &&& header::s1_pid(after.pool.header(i as int).pid_no_ack) == w.sm.pid
            &&& header::s1_no_ack(after.pool.header(i as int).pid_no_ack) == header::s1_no_ack(
                before.pid_no_ack,
            )
            &&& after.pool.header(i as int).length == before.length
            &&& after.pool.bufs[i as int].skip(4) == w.pool.bufs[i as int].skip(4)
            &&& after.sm.state == if header::s1_no_ack(before.pid_no_ack) {
                StatePtx::TxNoAck
            } else {
                StatePtx::Tx
            }
        }),
{
    payload::law_first_slot(w.pool.slots, SlotState::TxQueued, 0);
    let i = w.pool.queued()->0;
    let before = w.pool.header(i as int);
    header::law_pid_round_trip(before.pid_no_ack, w.sm.pid);
    header::law_header_round_trip(
        w.pool.bufs[i as int],
        EsbHeader { pid_no_ack: header::s1_with_pid(before.pid_no_ack, w.sm.pid), ..before },
    );
}

/// While a packet is in flight and not done with, its buffer and the PID stay
/// as they are: every retransmission is a copy, so that the receiver can tell.
/// When it is done with, the PID moves on by one.
pub proof fn law_ptx_pid_marks_packets(
    w: PtxWorld,
    sample: PtxSample,
    timer: bool,
    suppress: bool,
    n: int,
    size: int,
)
    requires
        w.inv(),
        pool_ok(w.pool, n, size),
        w.sm.state != StatePtx::Idle,
    ensures
        ({
            let (after, event) = w.handled(sample, timer, suppress);
            let i = w.sm.tx_idx->0;
            ||| after.sm.pid == w.sm.pid && after.sm.tx_idx == w.sm.tx_idx
                && after.pool.bufs[i as int] == w.pool.bufs[i as int] && event == PtxEvent::Nothing
            ||| after.sm.pid == (w.sm.pid + 1) % 4
        }),
{
    let c = w.checked(sample.disabled);
    payload::law_first_slot(c.pool.slots, SlotState::Free, 0);
}

/// A missing ACK costs one attempt. The packet is given up, and that reported,
/// exactly when the attempts reach the limit; until then it is sent again.
pub proof fn law_ptx_bounded_attempts(
    w: PtxWorld,
    sample: PtxSample,
    timer: bool,
    suppress: bool,
)
    requires
        w.inv(),
        w.sm.state == StatePtx::WaitAck,
        sample.disabled || timer,
        !(sample.disabled && sample.crc_ok),
    ensures
        ({
            let (after, event) = w.handled(sample, timer, suppress);
            if w.sm.attempts + 1 >= w.sm.max_attempts {
                event == PtxEvent::MaxAttempts && after.sm.attempts == 0
            } else {
                event == PtxEvent::Nothing && after.sm.attempts == w.sm.attempts + 1
                    && after.sm.state == StatePtx::WaitRetransmit && after.sm.tx_idx
                    == w.sm.tx_idx
            }
        }),
{
}

/// One transmission that is not answered: the packet goes out, the ACK timeout
/// fires, and, unless the packet is given up, so does the retransmit timer.
pub open spec fn unanswered_once(w: PtxWorld) -> (PtxWorld, PtxEvent) {
    let waiting = w.handled(PtxSample { disabled: true, crc_ok: false }, false, false).0;
    let (missed, event) = waiting.handled(
        PtxSample { disabled: false, crc_ok: false },
        true,
        false,
    );
    if event == PtxEvent::MaxAttempts {
        (missed, event)
    } else {
        (missed.handled(PtxSample { disabled: false, crc_ok: false }, true, false).0, event)
    }
}

/// `k` unanswered transmissions in a row, or nothing once the packet was given up.
pub open spec fn unanswered(w: PtxWorld, k: nat) -> Option<PtxWorld>
    decreases k,
{
    if k == 0 {
        Some(w)
    } else {
        match unanswered(w, (k - 1) as nat) {
            Some(v) => match unanswered_once(v).1 {
                PtxEvent::MaxAttempts => None,
                PtxEvent::Nothing => Some(unanswered_once(v).0),
            },
            None => None,
        }
    }
}

/// One unanswered transmission leaves the pool as it was and costs one attempt.
proof fn lemma_unanswered_once(w: PtxWorld, n: int, size: int)
    requires
        w.inv(),
        pool_ok(w.pool, n, size),
        w.sm.state == StatePtx::Tx,
        w.pool.free() is Some,
    ensures
        ({
            let (after, event) = unanswered_once(w);
            if w.sm.attempts + 1 >= w.sm.max_attempts {
                event == PtxEvent::MaxAttempts
            } else {
                event == PtxEvent::Nothing && after.pool == w.pool && after.sm == (
                PtxStateMachine { attempts: (w.sm.attempts + 1) as u8, ..w.sm })
            }
        }),
{
    payload::law_first_slot(w.pool.slots, SlotState::Free, 0);
    let i = w.pool.free()->0 as int;
    assert(w.pool.slots.update(i, SlotState::InDma).update(i, SlotState::Free) =~= w.pool.slots);
}

/// A packet that is never acknowledged is transmitted as often as the limit
/// says (once, for a limit of zero), and then given up.
pub proof fn law_ptx_transmission_count(w: PtxWorld, k: nat, n: int, size: int)
    requires
        w.inv(),
        pool_ok(w.pool, n, size),
        w.sm.state == StatePtx::Tx,
        w.sm.attempts == 0,
        w.pool.free() is Some,
    ensures
        unanswered(w, k) is Some <==> k == 0 || k < w.sm.max_attempts,
        unanswered(w, k) matches Some(v) ==> v.pool == w.pool && v.sm == (PtxStateMachine {
            attempts: k as u8,
            ..w.sm
        }),
    decreases k,
{
    if k > 0 {
        law_ptx_transmission_count(w, (k - 1) as nat, n, size);
        if let Some(v) = unanswered(w, (k - 1) as nat) {
            lemma_unanswered_once(v, n, size);
        }
    }
}

/// An acknowledged packet is released, and the payload of its ACK, if it has
/// one, is queued for the application, as it was received, behind what is already
/// waiting.
pub proof fn law_ptx_delivers_ack_payload(
    w: PtxWorld,
    timer: bool,
    suppress: bool,
    n: int,
    size: int,
)
    requires
        w.inv(),
        pool_ok(w.pool, n, size),
        w.sm.state == StatePtx::WaitAck,
    ensures
        ({
            let i = w.sm.ack_rx_idx->0;
            let after = w.handled(PtxSample { disabled: true, crc_ok: true }, timer, suppress).0;
            &&& after.sm.ack_rx_idx is None
            &&& after.sm.attempts == 0
            &&& after.pool.rx == (if w.pool.header(i as int).length > 0 {
                w.pool.rx.push(i)
            } else {
                w.pool.rx
            })
            &&& w.pool.header(i as int).length > 0 ==> after.pool.bufs[i as int]
                == w.pool.bufs[i as int]
        }),
{
    let i = w.sm.ack_rx_idx->0;
    payload::law_queue_has_room(w.pool, n, size, i as int);
    let d = w.checked(true).delivered_ack().released_tx();
    payload::law_first_slot(d.pool.slots, SlotState::TxQueued, 0);
}

/// While sending is suppressed no packet is taken from the queue, and the
/// machine is idle as soon as the packet in flight is done with.
pub proof fn law_ptx_suppressed(
    w: PtxWorld,
    sample: PtxSample,
    timer: bool,
    i: int,
    n: int,
    size: int,
)
    requires
        w.inv(),
        pool_ok(w.pool, n, size),
        0 <= i < n,
        w.pool.slots[i] == SlotState::TxQueued,
    ensures
        ({
            let after = w.handled(sample, timer, true).0;
            &&& after.pool.slots[i] == SlotState::TxQueued
            &&& after.sm.pid != w.sm.pid ==> after.sm.state == StatePtx::Idle
            &&& w.sm.state == StatePtx::Idle ==> after.sm == w.sm
        }),
{
    payload::law_first_slot(w.pool.slots, SlotState::Free, 0);
}

/// A suspended machine that is restored from what it saved detects duplicates
/// and sends on the same pipe as before, and is idle.
pub proof fn law_ptx_suspend_round_trip(w: PtxWorld)
    ensures
        ({
            let restored = ptx::restored_ptx(w.suspended().sm, ptx::saved_ptx(w.sm));
            &&& restored.radio == w.sm.radio
            &&& restored.tx_pipe == w.sm.tx_pipe
            &&& restored.pid == w.sm.pid
            &&& restored.state == StatePtx::Idle
            &&& restored.tx_idx is None && restored.ack_rx_idx is None
        }),
{
}

/// Suspending keeps the invariant and leaves the radio no buffer, unless an
/// idle machine still holds a packet that could not be sent.
pub proof fn law_ptx_suspend_frees_buffers(w: PtxWorld, n: int, size: int)
    requires
        w.inv(),
        pool_ok(w.pool, n, size),
        ptx_owns_dma(w),
        w.sm.state == StatePtx::Idle ==> w.sm.tx_idx is None,
    ensures
        w.suspended().inv(),
        forall|i: int| 0 <= i < n ==> #[trigger] w.suspended().pool.slots[i] != SlotState::InDma,
        w.suspended().pool.rx == w.pool.rx,
{
}

/// The application can use the pool while the machine works: as long as the
/// radio's buffers stay with it and the queue stays sound, so does the invariant.
pub proof fn law_ptx_shares_pool(w: PtxWorld, pool: PoolView)
    requires
        w.inv(),
        pool.queue_sound(),
        pool.slots.len() == w.pool.slots.len(),
        forall|i: int|
            0 <= i < pool.slots.len() && w.pool.slots[i] == SlotState::InDma
                ==> #[trigger] pool.slots[i] == SlotState::InDma,
    ensures
        (PtxWorld { pool, ..w }).inv(),
{
}

/// A packet leaves with its ACK, with its last attempt, or once it is out where it asks
/// for none: its buffer is free again and the PID moves on. Until then it stays in its
/// buffer under its PID. No other packet is touched.
pub proof fn law_ptx_packet_leaves_when_done(
    w: PtxWorld,
    sample: PtxSample,
    timer: bool,
    n: int,
    size: int,
    j: int,
)
    requires
        w.inv(),
        pool_ok(w.pool, n, size),
        w.sm.state != StatePtx::Idle,
        sample.disabled || timer,
        0 <= j < n,
    ensures
        ({
            let (after, event) = w.handled(sample, timer, true);
            let i = w.sm.tx_idx->0;
            let acked = w.sm.state == StatePtx::WaitAck && sample.disabled && sample.crc_ok;
            let missed = w.sm.state == StatePtx::WaitAck && !acked;
            let given_up = missed && w.sm.attempts + 1 >= w.sm.max_attempts;
            let leaves = acked || given_up || w.sm.state == StatePtx::TxNoAck;
            &&& event == PtxEvent::MaxAttempts <==> given_up
            &&& leaves ==> {
                &&& after.pool.slots[i as int] == SlotState::Free
                &&& after.sm.tx_idx is None
                &&& after.sm.pid == (w.sm.pid + 1) % 4
                &&& after.sm.state == StatePtx::Idle
            }
            &&& !leaves ==> {
                &&& after.pool.slots[i as int] == SlotState::InDma
                &&& after.sm.tx_idx == Some(i)
                &&& after.sm.pid == w.sm.pid
                &&& after.pool.bufs == w.pool.bufs
            }
            &&& acked || given_up ==> after.sm.attempts == 0
            &&& w.pool.slots[j] == SlotState::TxQueued || w.pool.slots[j] == SlotState::RxQueued
                ==> after.pool.slots[j] == w.pool.slots[j] && after.pool.bufs[j] == w.pool.bufs[j]
        }),
{
    crate::payload::law_first_slot(w.pool.slots, SlotState::Free, 0);
}

/// A suspended or stopped PTX is off the air, with no timeout armed.
pub proof fn law_ptx_suspended_is_off(r: RadioRegs, t: TimerRegs, w: PtxWorld)
    ensures
        ({
            let now = radio_after(r, w.suspended().log);
            let timer = timer_after(t, w.suspended().log);
            &&& now.activity is Disabled && !now.interrupt && !now.disabled_rxen
                && !now.disabled_txen
            &&& timer.retransmit is None && timer.ack_timeout is None && !timer.running
        }),
        radio_after(r, w.slot_stopped().log).activity is Disabled,
        !radio_after(r, w.slot_stopped().log).interrupt,
{
    broadcast use crate::radio_model::lemma_radio_push;
    broadcast use crate::timer::lemma_timer_push_auto;

}

/// What is saved of a suspended PTX: its pipe, what it knows of received packets, and
/// whether a packet was given up for it, after how many attempts.
pub proof fn law_ptx_saves_what_matters(w: PtxWorld)
    ensures
        ({
            let saved = ptx::saved_ptx(w.sm);
            &&& saved.tx_pipe == w.sm.tx_pipe
            &&& saved.pid == w.sm.radio.last_pid && saved.last_crc == w.sm.radio.last_crc
                && saved.last_valid == w.sm.radio.last_valid
            &&& saved.attempts == w.sm.attempts
            &&& saved.protocol_state is Idle <==> w.sm.state == StatePtx::Idle
            &&& saved.protocol_state matches SavedProtocolState::ForcedIdle { dropped_attempt }
                ==> dropped_attempt == w.sm.attempts
        }),
{
}

/// In a timeslot the pipe that is reported last is the pipe of the last transmission.
pub proof fn law_ptx_notes_pipe(w: PtxWorld, sample: PtxSample, timer: bool)
    requires
        w.sm.state != StatePtx::Idle || timer,
    ensures
        ({
            let after = w.slot_signalled(sample, timer).0;
            let sends = after.sm.state == StatePtx::Tx || after.sm.state == StatePtx::TxNoAck;
            &&& sends ==> after.sm.last_pipe == after.sm.active_tx_pipe
            &&& !sends ==> after.sm.last_pipe == w.sm.last_pipe
        }),
{
}

/// A packet that is never answered goes out as often as the configuration says, and at
/// least once: a PTX takes its limit from its configuration, starts with no attempt made
/// and nothing in flight, and sends on the pipe that it was given.
pub proof fn law_ptx_attempts_follow_config(
    w: PtxWorld,
    config: crate::config::EsbConfig,
    tx_pipe: u8,
    k: nat,
    n: int,
    size: int,
)
    requires
        w.inv(),
        pool_ok(w.pool, n, size),
        w.sm.state == StatePtx::Tx,
        w.sm.attempts == 0,
        w.pool.free() is Some,
        w.sm.max_attempts == ptx::new_ptx(w.sm.radio, w.sm.timer, config, tx_pipe).max_attempts,
    ensures
        unanswered(w, k) is Some <==> k == 0 || k < config.retransmit.count,
        ({
            let fresh = ptx::new_ptx(w.sm.radio, w.sm.timer, config, tx_pipe);
            &&& fresh.state == StatePtx::Idle && fresh.attempts == 0
            &&& fresh.tx_idx is None && fresh.ack_rx_idx is None
            &&& fresh.tx_pipe == tx_pipe && fresh.config == config
            &&& fresh.pid < 4 && !fresh.timeslot_managed
        }),
{
    law_ptx_transmission_count(w, k, n, size);
}

} // verus!
