//! What holds of the timeslot sessions as a whole.

use crate::hw::{HwOp, RadioOp};
use crate::mpsl_common;
use crate::mpsl_profile;
use crate::mpsl_radio::RadioDisableResult;
use crate::mpsl_schedule;
use crate::mpsl_timeslot;
use crate::mpsl_timeslot::{
    SlotAction, SlotPriority, TimeslotRequest, TimeslotSignal, TIMESLOT_DISTANCE_MAX_US,
    TIMESLOT_EARLIEST_TIMEOUT_MAX_US,
};
use crate::prx_session;
use crate::prx_session::{PrxBaseline, PrxSlotResult};
use crate::ptx_session;
use crate::ptx_session::{PtxBaseline, PtxPollResult};
use crate::slot_prx::{PrxPhase, PrxSlotSample, PrxSlotState, PrxSlotWorld};
use crate::slot_ptx;
use crate::slot_ptx::{PtxOnDemand, PtxPhase, PtxSlotSample, PtxSlotState, PtxSlotWorld};
use vstd::prelude::*;

verus! {

/// A PTX session is open and its packet is in order: a packet that is on its way
/// is not acknowledged yet, and it has not been retried too often.
pub open spec fn ptx_slot_ok(s: PtxSlotState) -> bool {
    &&& s.plan.config is Some
    &&& s.plan.addresses is Some
    &&& s.packet.active() ==> !s.packet.acked_this_slot
    &&& s.packet.retry_count <= s.plan.max_retries
}

/// Opening a poll or an on-demand session puts it in order.
pub proof fn law_ptx_session_starts_in_order(
    s: PtxSlotState,
    config: crate::config::EsbConfig,
    addresses: crate::addresses::EsbAddresses,
    poll: crate::mpsl_profile::PtxPollConfig,
    event: crate::mpsl_profile::PtxEventConfig,
)
    ensures
        ptx_slot_ok(s.poll_started(config, addresses, poll)),
        ptx_slot_ok(s.event_started(config, addresses, event)),
        ptx_slot_ok(s.event_started(config, addresses, event)) ==> ptx_slot_ok(
            s.event_started(config, addresses, event).staged(),
        ),
{
}

/// Every signal keeps a session in order.
pub proof fn law_ptx_slot_invariant(
    w: PtxSlotWorld,
    signal: TimeslotSignal,
    sample: PtxSlotSample,
    rx: Seq<u8>,
)
    requires
        ptx_slot_ok(w.state),
    ensures
        ptx_slot_ok(w.signalled(signal, sample, rx).0.state),
{
    match signal {
        TimeslotSignal::Start => lemma_start_in_order(w),
        TimeslotSignal::Radio => lemma_radio_in_order(w, sample, rx),
        TimeslotSignal::Timer0 => lemma_timer_in_order(w, sample),
        _ => {},
    }
}

/// The start of a slot keeps a session in order.
proof fn lemma_start_in_order(w: PtxSlotWorld)
    requires
        ptx_slot_ok(w.state),
    ensures
        ptx_slot_ok(w.on_start().0.state),
        w.on_start().0.state.packet.pid == w.state.packet.pid,
{
}

/// A radio interrupt keeps a session in order.
proof fn lemma_radio_in_order(w: PtxSlotWorld, sample: PtxSlotSample, rx: Seq<u8>)
    requires
        ptx_slot_ok(w.state),
    ensures
        ptx_slot_ok(w.on_radio(sample, rx).0.state),
        w.on_radio(sample, rx).0.state.packet.pid == if w.state.packet.phase == PtxPhase::WaitAck
            && sample.disabled && sample.crc_ok {
            ((w.state.packet.pid + 1) % 4) as u8
        } else {
            w.state.packet.pid
        },
{
}

/// A timer interrupt keeps a session in order.
proof fn lemma_timer_in_order(w: PtxSlotWorld, sample: PtxSlotSample)
    requires
        ptx_slot_ok(w.state),
    ensures
        ptx_slot_ok(w.on_timer0(sample).0.state),
        w.on_timer0(sample).0.state.packet.pid == w.state.packet.pid,
{
}

/// The PID of a session moves on with a good ACK, by one, and with nothing else.
/// A retry sends the packet under the same PID.
pub proof fn law_ptx_slot_pid_moves_on_ack(
    w: PtxSlotWorld,
    signal: TimeslotSignal,
    sample: PtxSlotSample,
    rx: Seq<u8>,
)
    requires
        ptx_slot_ok(w.state),
    ensures
        ({
            let acked = signal == TimeslotSignal::Radio && w.state.packet.phase
                == PtxPhase::WaitAck && sample.disabled && sample.crc_ok;
            w.signalled(signal, sample, rx).0.state.packet.pid == if acked {
                ((w.state.packet.pid + 1) % 4) as u8
            } else {
                w.state.packet.pid
            }
        }),
{
    match signal {
        TimeslotSignal::Start => lemma_start_in_order(w),
        TimeslotSignal::Radio => lemma_radio_in_order(w, sample, rx),
        TimeslotSignal::Timer0 => lemma_timer_in_order(w, sample),
        _ => {},
    }
}

/// How many transmissions a log starts.
#[verifier::opaque]
pub open spec fn transmissions(log: Seq<HwOp>) -> nat
    decreases log.len(),
{
    if log.len() == 0 {
        0
    } else {
        transmissions(log.drop_last()) + if log.last() == HwOp::Radio(RadioOp::Txen) {
            1nat
        } else {
            0
        }
    }
}

/// One more operation.
pub broadcast proof fn lemma_transmissions_push(log: Seq<HwOp>, op: HwOp)
    ensures
        #[trigger] transmissions(log.push(op)) == transmissions(log) + if op == HwOp::Radio(
            RadioOp::Txen,
        ) {
            1nat
        } else {
            0
        },
{
    reveal(transmissions);
    assert(log.push(op).drop_last() =~= log);
}

/// The start of a slot transmits at most once, and exactly once where the slot is
/// used.
proof fn lemma_transmissions_start(w: PtxSlotWorld)
    ensures
        transmissions(w.on_start().0.log) <= transmissions(w.log) + 1,
        ptx_slot_ok(w.state) && !w.state.schedule.skips() && (w.state.event.mode
            ==> w.state.event.pending) ==> transmissions(w.on_start().0.log) == transmissions(
            w.log,
        ) + 1,
{
    broadcast use lemma_transmissions_push;

}

/// A radio signal transmits nothing.
proof fn lemma_transmissions_radio(w: PtxSlotWorld, sample: PtxSlotSample, rx: Seq<u8>)
    ensures
        transmissions(w.on_radio(sample, rx).0.log) == transmissions(w.log),
        w.on_radio(sample, rx).0.state.packet.retry_count == w.state.packet.retry_count,
        w.on_radio(sample, rx).0.state.plan.max_retries == w.state.plan.max_retries,
{
    broadcast use lemma_transmissions_push;

}

/// A signal of TIMER0 transmits where it retries.
proof fn lemma_transmissions_timer(w: PtxSlotWorld, sample: PtxSlotSample)
    requires
        ptx_slot_ok(w.state),
    ensures
        transmissions(w.on_timer0(sample).0.log) == transmissions(w.log) + w.on_timer0(
            sample,
        ).0.state.packet.retry_count - w.state.packet.retry_count,
        w.on_timer0(sample).0.state.plan.max_retries == w.state.plan.max_retries,
{
    broadcast use lemma_transmissions_push;

}

/// A slot starts with at most one transmission; after that every transmission is
/// a retry.
pub proof fn law_ptx_slot_transmissions(
    w: PtxSlotWorld,
    signal: TimeslotSignal,
    sample: PtxSlotSample,
    rx: Seq<u8>,
)
    requires
        ptx_slot_ok(w.state),
    ensures
        signal == TimeslotSignal::Start ==> transmissions(w.signalled(signal, sample, rx).0.log)
            <= transmissions(w.log) + 1,
        signal != TimeslotSignal::Start ==> transmissions(w.signalled(signal, sample, rx).0.log)
            == transmissions(w.log) + w.signalled(signal, sample, rx).0.state.packet.retry_count
            - w.state.packet.retry_count,
        signal != TimeslotSignal::Start ==> w.signalled(
            signal,
            sample,
            rx,
        ).0.state.plan.max_retries == w.state.plan.max_retries,
{
    match signal {
        TimeslotSignal::Start => lemma_transmissions_start(w),
        TimeslotSignal::Radio => lemma_transmissions_radio(w, sample, rx),
        TimeslotSignal::Timer0 => lemma_transmissions_timer(w, sample),
        _ => {
            broadcast use lemma_transmissions_push;

        },
    }
}

/// A signal with what the peripherals showed when it came.
pub struct PtxSlotEvent {
    /// The signal.
    pub signal: TimeslotSignal,
    /// The peripherals.
    pub sample: PtxSlotSample,
    /// The receive buffer.
    pub rx: Seq<u8>,
}

/// The session after a series of signals.
pub open spec fn ptx_slot_run(w: PtxSlotWorld, events: Seq<PtxSlotEvent>) -> PtxSlotWorld
    decreases events.len(),
{
    if events.len() == 0 {
        w
    } else {
        let before = ptx_slot_run(w, events.drop_last());
        let e = events.last();
        before.signalled(e.signal, e.sample, e.rx).0
    }
}

/// Within a slot, whatever happens, a packet is transmitted again at most as often
/// as the session allows.
pub proof fn law_ptx_slot_retries_bounded(w: PtxSlotWorld, events: Seq<PtxSlotEvent>)
    requires
        ptx_slot_ok(w.state),
        forall|i: int| 0 <= i < events.len() ==> (#[trigger] events[i]).signal
            != TimeslotSignal::Start,
    ensures
        ptx_slot_ok(ptx_slot_run(w, events).state),
        ptx_slot_run(w, events).state.plan.max_retries == w.state.plan.max_retries,
        transmissions(ptx_slot_run(w, events).log) == transmissions(w.log) + ptx_slot_run(
            w,
            events,
        ).state.packet.retry_count - w.state.packet.retry_count,
        transmissions(ptx_slot_run(w, events).log) <= transmissions(w.log)
            + w.state.plan.max_retries - w.state.packet.retry_count,
    decreases events.len(),
{
    if events.len() > 0 {
        let prior = events.drop_last();
        let e = events.last();
        assert(e == events[events.len() - 1]);
        assert forall|i: int| 0 <= i < prior.len() implies (#[trigger] prior[i]).signal
            != TimeslotSignal::Start by {
            assert(prior[i] == events[i]);
        }
        law_ptx_slot_retries_bounded(w, prior);
        let before = ptx_slot_run(w, prior);
        law_ptx_slot_invariant(before, e.signal, e.sample, e.rx);
        law_ptx_slot_transmissions(before, e.signal, e.sample, e.rx);
    }
}

/// The next slot of a poll session is requested at a distance that the service
/// layer accepts, or as early as possible.
pub proof fn law_ptx_poll_request_in_reach(w: PtxSlotWorld)
    ensures
        match w.polled().state.request {
            TimeslotRequest::Normal { priority, distance_us, length_us } => {
                &&& priority == SlotPriority::Normal
                &&& 0 < distance_us <= TIMESLOT_DISTANCE_MAX_US
                &&& length_us == w.state.plan.slot_length_us
                &&& w.state.schedule.locked()
            },
            TimeslotRequest::Earliest(r) => r.length_us == w.state.plan.slot_length_us
                && r.timeout_us == w.state.plan.request_timeout_us,
        },
{
}

/// After a blocked or cancelled request a session asks again for a slot of its
/// length, at high priority exactly where it was opened so, and its lock is gone.
pub proof fn law_ptx_blocked_request_is_repeated(
    w: PtxSlotWorld,
    signal: TimeslotSignal,
    sample: PtxSlotSample,
    rx: Seq<u8>,
)
    requires
        signal == TimeslotSignal::Blocked || signal == TimeslotSignal::Cancelled,
    ensures
        ({
            let (after, reply) = w.signalled(signal, sample, rx);
            &&& reply.submit && reply.action is None
            &&& after.state.request == slot_ptx::earliest(
                if w.state.plan.retry_blocked_at_high_priority {
                    SlotPriority::High
                } else {
                    SlotPriority::Normal
                },
                w.state.plan.slot_length_us,
                TIMESLOT_EARLIEST_TIMEOUT_MAX_US,
            )
            &&& !after.state.schedule.locked()
            &&& after.log == w.log && after.tx == w.tx
        }),
{
}

/// A slot of a poll session goes to a pipe of the session's mask: the next one
/// after the pipe before it.
pub proof fn law_ptx_poll_next_pipe(w: PtxSlotWorld)
    requires
        ptx_slot_ok(w.state),
        w.state.poll.pipes > 0,
        w.state.poll.pipe_mask != 0,
        !w.state.event.mode,
    ensures
        ({
            let after = w.on_start().0.state.packet.tx_pipe;
            &&& after < 8
            &&& mpsl_common::pipe_in_mask(w.state.poll.pipe_mask, after)
            &&& mpsl_common::next_pipe(w.state.packet.tx_pipe, w.state.poll.pipe_mask) == Some(
                after,
            )
        }),
{
    mpsl_common::law_next_pipe(w.state.packet.tx_pipe, w.state.poll.pipe_mask);
}

/// The pipe after `k` slots of a poll session.
pub open spec fn pipe_after_slots(pipe: u8, mask: u8, k: nat) -> u8
    decreases k,
{
    if k == 0 {
        pipe
    } else {
        mpsl_common::next_pipe(pipe_after_slots(pipe, mask, (k - 1) as nat), mask)->0
    }
}

/// A poll session starves no pipe: whatever pipe it is at, every pipe of its mask
/// has its turn within eight slots.
pub proof fn law_ptx_poll_visits_every_pipe(pipe: u8, mask: u8, wanted: u8) -> (k: nat)
    requires
        pipe < 8,
        wanted < 8,
        mpsl_common::pipe_in_mask(mask, wanted),
    ensures
        1 <= k <= 8,
        pipe_after_slots(pipe, mask, k) == wanted,
{
    lemma_mask_not_empty(mask, wanted);
    lemma_visit(pipe, mask, wanted, pipe, 0)
}

/// A mask with a pipe is not empty.
proof fn lemma_mask_not_empty(mask: u8, p: u8)
    requires
        mpsl_common::pipe_in_mask(mask, p),
    ensures
        mask != 0,
{
    assert(0u8 & (1u8 << p) == 0) by (bit_vector);
}

/// How many steps lead from `from` to `to`, at least one.
spec fn steps(from: u8, to: u8) -> int {
    if to > from {
        to - from
    } else {
        to - from + 8
    }
}

/// From any pipe on the way, the wanted pipe comes within the steps to it.
proof fn lemma_visit(start: u8, mask: u8, wanted: u8, at: u8, done: nat) -> (k: nat)
    requires
        start < 8,
        at < 8,
        wanted < 8,
        mask != 0,
        mpsl_common::pipe_in_mask(mask, wanted),
        at == pipe_after_slots(start, mask, done),
        done + steps(at, wanted) <= 8,
    ensures
        done < k <= 8,
        pipe_after_slots(start, mask, k) == wanted,
    decreases steps(at, wanted),
{
    mpsl_common::law_next_pipe(at, mask);
    let next = mpsl_common::next_pipe(at, mask)->0;
    let d = choose|d: int|
        1 <= d <= 8 && next == #[trigger] mpsl_common::pipe_after(at, d) && (forall|e: int|
            1 <= e < d ==> !mpsl_common::pipe_in_mask(
                mask,
                #[trigger] mpsl_common::pipe_after(at, e),
            ));
    assert(pipe_after_slots(start, mask, done + 1) == next);
    let s = steps(at, wanted);
    assert(mpsl_common::pipe_after(at, s) == wanted);
    if next == wanted {
        done + 1
    } else {
        assert(d < s);
        assert(steps(next, wanted) == s - d);
        lemma_visit(start, mask, wanted, next, done + 1)
    }
}

/// Counts per pipe only grow.
pub open spec fn pipes_grow(before: [u32; 8], after: [u32; 8]) -> bool {
    forall|i: int| 0 <= i < 8 ==> #[trigger] before@[i] <= after@[i]
}

/// No count goes back from one state to the next.
pub open spec fn ptx_counts_grow(before: PtxBaseline, after: PtxBaseline) -> bool {
    let b = before.traffic;
    let a = after.traffic;
    &&& before.counters.start <= after.counters.start
    &&& before.counters.radio <= after.counters.radio
    &&& before.counters.timer0 <= after.counters.timer0
    &&& b.tx_count <= a.tx_count
    &&& b.ack_ok_count <= a.ack_ok_count
    &&& pipes_grow(b.tx_per_pipe, a.tx_per_pipe)
    &&& pipes_grow(b.ack_ok_per_pipe, a.ack_ok_per_pipe)
    &&& b.ack_timeout_count <= a.ack_timeout_count
    &&& b.ack_crc_fail_count <= a.ack_crc_fail_count
    &&& before.schedule.hint_count <= after.schedule.hint_count
    &&& before.schedule.hint_bad_count <= after.schedule.hint_bad_count
    &&& before.schedule.lock_count <= after.schedule.lock_count
    &&& before.schedule.reacquire_count <= after.schedule.reacquire_count
    &&& before.schedule.skip_count <= after.schedule.skip_count
}

/// No signal takes a count back.
#[verifier::rlimit(40)]
pub proof fn law_ptx_counts_grow(
    w: PtxSlotWorld,
    signal: TimeslotSignal,
    sample: PtxSlotSample,
    rx: Seq<u8>,
)
    requires
        w.state.has_room(),
    ensures
        ptx_counts_grow(
            PtxBaseline::of(w.state),
            PtxBaseline::of(w.signalled(signal, sample, rx).0.state),
        ),
{
    match signal {
        TimeslotSignal::Start => lemma_start_grows(w),
        TimeslotSignal::Radio => lemma_radio_grows(w, sample, rx),
        TimeslotSignal::Timer0 => lemma_timer_grows(w, sample),
        _ => lemma_other_signal_grows(w, signal, sample, rx),
    }
}

/// The signals between slots take no count back.
proof fn lemma_other_signal_grows(
    w: PtxSlotWorld,
    signal: TimeslotSignal,
    sample: PtxSlotSample,
    rx: Seq<u8>,
)
    requires
        w.state.has_room(),
        signal != TimeslotSignal::Start,
        signal != TimeslotSignal::Radio,
        signal != TimeslotSignal::Timer0,
    ensures
        ptx_counts_grow(
            PtxBaseline::of(w.state),
            PtxBaseline::of(w.signalled(signal, sample, rx).0.state),
        ),
{
}

/// The start of a slot takes no count back.
proof fn lemma_start_grows(w: PtxSlotWorld)
    requires
        w.state.has_room(),
    ensures
        ptx_counts_grow(PtxBaseline::of(w.state), PtxBaseline::of(w.on_start().0.state)),
{
    let p = w.counted(TimeslotSignal::Start).in_phase(PtxPhase::Tx).on_next_pipe();
    assert(p.state.traffic == w.state.traffic);
    assert(pipes_grow(
        w.state.traffic.tx_per_pipe,
        mpsl_timeslot::pipe_counted(w.state.traffic.tx_per_pipe, p.state.packet.tx_pipe),
    ));
}

/// A radio interrupt takes no count back.
proof fn lemma_radio_grows(w: PtxSlotWorld, sample: PtxSlotSample, rx: Seq<u8>)
    requires
        w.state.has_room(),
    ensures
        ptx_counts_grow(PtxBaseline::of(w.state), PtxBaseline::of(w.on_radio(sample, rx).0.state)),
{
    let s = w.state;
    assert(pipes_grow(
        s.traffic.ack_ok_per_pipe,
        mpsl_timeslot::pipe_counted(s.traffic.ack_ok_per_pipe, s.packet.tx_pipe),
    ));
    let hint = slot_ptx::ack_hint(rx);
    assert(s.schedule.acked(
        hint,
        sample.elapsed_us,
        s.plan.in_slot_match_us,
    ).counts.hint_count >= s.schedule.counts.hint_count);
}

/// A timer interrupt takes no count back.
proof fn lemma_timer_grows(w: PtxSlotWorld, sample: PtxSlotSample)
    requires
        w.state.has_room(),
    ensures
        ptx_counts_grow(PtxBaseline::of(w.state), PtxBaseline::of(w.on_timer0(sample).0.state)),
{
}

/// A report and the counts before it add up to the counts now.
pub proof fn law_ptx_report_adds_up(
    report: PtxPollResult,
    state: PtxSlotState,
    last: PtxBaseline,
)
    requires
        ptx_session::reports(report, state, last),
        ptx_counts_grow(last, PtxBaseline::of(state)),
    ensures
        last.counters.start + report.counters.start == state.counters.start,
        last.traffic.tx_count + report.tx_count == state.traffic.tx_count,
        last.traffic.ack_ok_count + report.ack_ok_count == state.traffic.ack_ok_count,
        forall|i: int|
            0 <= i < 8 ==> last.traffic.tx_per_pipe@[i] + #[trigger] report.tx_per_pipe@[i]
                == state.traffic.tx_per_pipe@[i],
        forall|i: int|
            0 <= i < 8 ==> last.traffic.ack_ok_per_pipe@[i] + #[trigger] report.ack_per_pipe@[i]
                == state.traffic.ack_ok_per_pipe@[i],
        last.traffic.ack_timeout_count + report.ack_timeout_count
            == state.traffic.ack_timeout_count,
        last.traffic.ack_crc_fail_count + report.ack_crc_fail_count
            == state.traffic.ack_crc_fail_count,
        last.schedule.reacquire_count + report.schedule_reacquire_count
            == state.schedule.counts.reacquire_count,
{
    assert forall|i: int| 0 <= i < 8 implies last.traffic.tx_per_pipe@[i]
        + #[trigger] report.tx_per_pipe@[i] == state.traffic.tx_per_pipe@[i] by {
        assert(last.traffic.tx_per_pipe@[i] <= state.traffic.tx_per_pipe@[i]);
    }
    assert forall|i: int| 0 <= i < 8 implies last.traffic.ack_ok_per_pipe@[i]
        + #[trigger] report.ack_per_pipe@[i] == state.traffic.ack_ok_per_pipe@[i] by {
        assert(last.traffic.ack_ok_per_pipe@[i] <= state.traffic.ack_ok_per_pipe@[i]);
    }
}

/// An on-demand session uses no slot without a packet: it gives the slot back at
/// once and transmits nothing.
pub proof fn law_event_session_is_silent(w: PtxSlotWorld, sample: PtxSlotSample, rx: Seq<u8>)
    requires
        w.state.event.mode,
        !w.state.event.pending,
    ensures
        w.signalled(TimeslotSignal::Start, sample, rx).0.log == w.log,
        w.signalled(TimeslotSignal::Start, sample, rx).1 == slot_ptx::answer(SlotAction::End),
{
}

/// The end of the slot of an on-demand session gives the result of the send:
/// whether the packet was acknowledged in the slot.
pub proof fn law_event_send_is_reported(w: PtxSlotWorld, sample: PtxSlotSample, rx: Seq<u8>)
    requires
        w.state.event.mode,
        sample.slot_end,
        !sample.ack_timeout || w.state.packet.phase != PtxPhase::WaitAck
            || w.state.packet.retry_count >= w.state.plan.max_retries,
    ensures
        ({
            let after = w.signalled(TimeslotSignal::Timer0, sample, rx).0.state;
            &&& after.event.result_ready
            &&& !after.event.pending
            &&& after.event.ack_ok == w.state.packet.acked_this_slot
        }),
{
}

/// What can happen to an on-demand session while it is open.
pub enum EventStep {
    /// A signal of the service layer.
    Signal(PtxSlotEvent),
    /// A packet is staged.
    Staged(Seq<u8>),
    /// The request of a staged packet was refused.
    SendRefused,
    /// The result of a send was taken.
    Taken,
    /// The radio was to be disabled, with this result.
    Disabled(RadioDisableResult),
    /// A request that a signal submitted was refused.
    Refused,
}

/// A session after one such step.
pub open spec fn event_step(w: PtxSlotWorld, step: EventStep) -> PtxSlotWorld {
    match step {
        EventStep::Signal(e) => w.signalled(e.signal, e.sample, e.rx).0,
        EventStep::Staged(tx) => PtxSlotWorld { state: w.state.staged(), tx, ..w },
        EventStep::SendRefused => PtxSlotWorld {
            state: PtxSlotState {
                event: PtxOnDemand {
                    pending: false,
                    result_ready: false,
                    ack_ok: false,
                    ..w.state.event
                },
                ..w.state
            },
            ..w
        },
        EventStep::Taken => PtxSlotWorld {
            state: PtxSlotState {
                event: PtxOnDemand { result_ready: false, pending: false, ..w.state.event },
                ..w.state
            },
            ..w
        },
        EventStep::Disabled(result) => PtxSlotWorld { state: w.state.disabled_as(result), ..w },
        EventStep::Refused => w.refused(),
    }
}

/// A session after a series of steps.
pub open spec fn event_run(w: PtxSlotWorld, steps: Seq<EventStep>) -> PtxSlotWorld
    decreases steps.len(),
{
    if steps.len() == 0 {
        w
    } else {
        event_step(event_run(w, steps.drop_last()), steps.last())
    }
}

/// An on-demand session in order: it polls nothing, and no schedule makes it skip
/// a slot.
pub open spec fn event_ok(s: PtxSlotState) -> bool {
    &&& ptx_slot_ok(s)
    &&& s.event.mode
    &&& s.poll.pipes == 0
    &&& s.schedule.gate == mpsl_profile::gate_disabled()
}

/// What a session was opened for stays.
pub open spec fn same_session(before: PtxSlotState, after: PtxSlotState) -> bool {
    &&& after.plan == before.plan
    &&& after.poll.pipes == before.poll.pipes
    &&& after.event.mode == before.event.mode
    &&& after.schedule.gate == before.schedule.gate
}

/// The start of a slot, in the same session; it ends only one without a
/// configuration.
proof fn lemma_start_stays(w: PtxSlotWorld)
    ensures
        same_session(w.state, w.on_start().0.state),
        w.on_start().0.state.counters.start == (w.state.counters.start + 1) as u32,
        w.state.plan.config is Some && w.state.plan.addresses is Some
            ==> w.on_start().0.state.done == w.state.done,
{
}

/// A radio signal, in the same slot.
proof fn lemma_radio_stays(w: PtxSlotWorld, sample: PtxSlotSample, rx: Seq<u8>)
    ensures
        same_session(w.state, w.on_radio(sample, rx).0.state),
        w.on_radio(sample, rx).0.state.counters.start == w.state.counters.start,
        w.on_radio(sample, rx).0.state.done == w.state.done,
{
}

/// The end of a slot, in the same session: a chain ends with its last slot.
proof fn lemma_slot_over(w: PtxSlotWorld)
    ensures
        same_session(w.state, w.slot_over().0.state),
        w.slot_over().0.state.counters.start == w.state.counters.start,
        w.slot_over().0.state.done == (w.state.done || (!w.state.event.mode && w.state.poll.pipes
            == 0 && w.state.counters.start >= w.state.plan.target_count)),
{
}

/// A signal of TIMER0, in the same session; before the end of the slot, it stays
/// in the slot.
proof fn lemma_timer_stays(w: PtxSlotWorld, sample: PtxSlotSample)
    ensures
        same_session(w.state, w.on_timer0(sample).0.state),
        w.on_timer0(sample).0.state.counters.start == w.state.counters.start,
        !sample.slot_end ==> w.on_timer0(sample).0.state.done == w.state.done,
        sample.slot_end && !sample.ack_timeout ==> w.on_timer0(sample).0.state.done == (
        w.state.done || (!w.state.event.mode && w.state.poll.pipes == 0 && w.state.counters.start
            >= w.state.plan.target_count)),
{
    let c = w.counted(TimeslotSignal::Timer0);
    lemma_slot_over(c);
    lemma_slot_over(c.ack_timed_out().given_up());
}

/// Any signal, in the same session.
proof fn lemma_signal_stays(
    w: PtxSlotWorld,
    signal: TimeslotSignal,
    sample: PtxSlotSample,
    rx: Seq<u8>,
)
    ensures
        same_session(w.state, w.signalled(signal, sample, rx).0.state),
{
    match signal {
        TimeslotSignal::Start => lemma_start_stays(w),
        TimeslotSignal::Radio => lemma_radio_stays(w, sample, rx),
        TimeslotSignal::Timer0 => lemma_timer_stays(w, sample),
        _ => {},
    }
}

/// A step keeps an on-demand session in order.
proof fn lemma_event_step(w: PtxSlotWorld, step: EventStep)
    requires
        event_ok(w.state),
    ensures
        event_ok(event_step(w, step).state),
{
    if let EventStep::Signal(e) = step {
        law_ptx_slot_invariant(w, e.signal, e.sample, e.rx);
        lemma_signal_stays(w, e.signal, e.sample, e.rx);
    }
}

/// An on-demand session stays in order from its opening on, whatever session the
/// driver served before and whatever happens: no slot of it is skipped.
pub proof fn law_event_session_never_skips(
    s: PtxSlotState,
    config: crate::config::EsbConfig,
    addresses: crate::addresses::EsbAddresses,
    event: crate::mpsl_profile::PtxEventConfig,
    tx: Seq<u8>,
    log: Seq<HwOp>,
    steps: Seq<EventStep>,
)
    ensures
        ({
            let opened = PtxSlotWorld {
                state: s.event_started(config, addresses, event),
                tx,
                log,
            };
            &&& event_ok(event_run(opened, steps).state)
            &&& !event_run(opened, steps).state.schedule.skips()
        }),
    decreases steps.len(),
{
    if steps.len() > 0 {
        law_event_session_never_skips(
            s,
            config,
            addresses,
            event,
            tx,
            log,
            steps.drop_last(),
        );
        let opened = PtxSlotWorld { state: s.event_started(config, addresses, event), tx, log };
        lemma_event_step(event_run(opened, steps.drop_last()), steps.last());
    }
}

/// A packet that is staged in an on-demand session, at any time after its opening,
/// goes out as it was staged when its slot starts. One that is acknowledged in the
/// slot is reported as acknowledged at the end of the slot.
#[verifier::rlimit(40)]
pub proof fn law_event_send_round_trip(
    s: PtxSlotState,
    config: crate::config::EsbConfig,
    addresses: crate::addresses::EsbAddresses,
    event: crate::mpsl_profile::PtxEventConfig,
    tx: Seq<u8>,
    log: Seq<HwOp>,
    steps: Seq<EventStep>,
    packet: Seq<u8>,
    sent: PtxSlotSample,
    acked: PtxSlotSample,
    over: PtxSlotSample,
    rx: Seq<u8>,
)
    requires
        sent.disabled,
        acked.disabled,
        acked.crc_ok,
        over.slot_end,
    ensures
        ({
            let opened = PtxSlotWorld {
                state: s.event_started(config, addresses, event),
                tx,
                log,
            };
            let staged = event_step(event_run(opened, steps), EventStep::Staged(packet));
            let started = staged.signalled(TimeslotSignal::Start, sent, rx).0;
            let waiting = started.signalled(TimeslotSignal::Radio, sent, rx).0;
            let answered = waiting.signalled(TimeslotSignal::Radio, acked, rx).0;
            let finished = answered.signalled(TimeslotSignal::Timer0, over, rx).0;
            &&& transmissions(started.log) == transmissions(staged.log) + 1
            &&& started.tx == packet
            &&& waiting.state.packet.phase == PtxPhase::WaitAck
            &&& finished.state.event.result_ready
            &&& finished.state.event.ack_ok
            &&& finished.tx == packet
        }),
{
    let opened = PtxSlotWorld { state: s.event_started(config, addresses, event), tx, log };
    let before = event_run(opened, steps);
    law_event_session_never_skips(s, config, addresses, event, tx, log, steps);
    lemma_event_step(before, EventStep::Staged(packet));
    lemma_transmissions_start(event_step(before, EventStep::Staged(packet)));
}

/// What a signal within a slot of a chain can be: the radio's, or that of TIMER0
/// before the end of the slot.
pub open spec fn within_slot(e: PtxSlotEvent) -> bool {
    e.signal == TimeslotSignal::Radio || (e.signal == TimeslotSignal::Timer0
        && !e.sample.slot_end)
}

/// One slot of a PTX: its start, the signals within it, and its end.
#[verifier::opaque]
pub open spec fn ptx_slot(
    w: PtxSlotWorld,
    events: Seq<PtxSlotEvent>,
    over: PtxSlotSample,
) -> PtxSlotWorld {
    ptx_slot_run(w.on_start().0, events).on_timer0(over).0
}

/// Slots of a PTX, one after the other.
pub open spec fn ptx_slots_run(
    w: PtxSlotWorld,
    slots: Seq<Seq<PtxSlotEvent>>,
    over: PtxSlotSample,
) -> PtxSlotWorld
    decreases slots.len(),
{
    if slots.len() == 0 {
        w
    } else {
        ptx_slot(ptx_slots_run(w, slots.drop_last(), over), slots.last(), over)
    }
}

/// Signals within a slot do not end it.
proof fn lemma_within_slot(w: PtxSlotWorld, events: Seq<PtxSlotEvent>)
    requires
        forall|i: int| 0 <= i < events.len() ==> within_slot(#[trigger] events[i]),
    ensures
        same_session(w.state, ptx_slot_run(w, events).state),
        ptx_slot_run(w, events).state.counters.start == w.state.counters.start,
        ptx_slot_run(w, events).state.done == w.state.done,
    decreases events.len(),
{
    if events.len() > 0 {
        let prior = events.drop_last();
        assert forall|i: int| 0 <= i < prior.len() implies within_slot(#[trigger] prior[i]) by {
            assert(prior[i] == events[i]);
        }
        lemma_within_slot(w, prior);
        let e = events[events.len() - 1];
        assert(within_slot(e));
        lemma_radio_stays(ptx_slot_run(w, prior), e.sample, e.rx);
        lemma_timer_stays(ptx_slot_run(w, prior), e.sample);
    }
}

/// One slot of a chain: it is counted, and ends the chain where it is the last.
proof fn lemma_chain_slot(w: PtxSlotWorld, events: Seq<PtxSlotEvent>, over: PtxSlotSample)
    requires
        w.state.plan.config is Some,
        w.state.plan.addresses is Some,
        w.state.poll.pipes == 0,
        !w.state.event.mode,
        w.state.counters.start < u32::MAX,
        over.slot_end,
        !over.ack_timeout,
        forall|i: int| 0 <= i < events.len() ==> within_slot(#[trigger] events[i]),
    ensures
        same_session(w.state, ptx_slot(w, events, over).state),
        ptx_slot(w, events, over).state.counters.start == w.state.counters.start + 1,
        ptx_slot(w, events, over).state.done == (w.state.done || w.state.counters.start + 1
            >= w.state.plan.target_count),
{
    reveal(ptx_slot);
    lemma_start_stays(w);
    let started = w.on_start().0;
    lemma_within_slot(started, events);
    lemma_timer_stays(ptx_slot_run(started, events), over);
}

/// A chain of `count` PTX slots ends with exactly the slot that was asked for last
/// (a chain of none with its single slot), and not before, whatever session the
/// driver served earlier.
pub proof fn law_ptx_chain_runs_count_slots(
    s: PtxSlotState,
    config: crate::config::EsbConfig,
    addresses: crate::addresses::EsbAddresses,
    slot_length_us: u32,
    in_slot_match_us: u32,
    count: u32,
    tx_pipe: u8,
    packets_per_slot: u32,
    tx: Seq<u8>,
    log: Seq<HwOp>,
    slots: Seq<Seq<PtxSlotEvent>>,
    over: PtxSlotSample,
)
    requires
        !s.event.mode,
        slots.len() <= count || slots.len() <= 1,
        over.slot_end,
        !over.ack_timeout,
        forall|k: int, i: int|
            0 <= k < slots.len() && 0 <= i < slots[k].len() ==> within_slot(
                #[trigger] slots[k][i],
            ),
    ensures
        ({
            let chain = PtxSlotWorld {
                state: s.chain_started(
                    config,
                    addresses,
                    slot_length_us,
                    in_slot_match_us,
                    count,
                    tx_pipe,
                    packets_per_slot,
                ),
                tx,
                log,
            };
            let run = ptx_slots_run(chain, slots, over).state;
            &&& run.counters.start == slots.len()
            &&& run.plan == chain.state.plan
            &&& run.poll.pipes == 0 && !run.event.mode
            &&& run.done <==> slots.len() > 0 && slots.len() >= count
        }),
    decreases slots.len(),
{
    if slots.len() > 0 {
        let prior = slots.drop_last();
        let events = slots.last();
        assert forall|k: int, i: int| 0 <= k < prior.len() && 0 <= i < prior[k].len() implies
            within_slot(#[trigger] prior[k][i]) by {
            assert(prior[k][i] == slots[k][i]);
        }
        assert forall|i: int| 0 <= i < events.len() implies within_slot(#[trigger] events[i]) by {
            assert(events[i] == slots[slots.len() - 1][i]);
        }
        law_ptx_chain_runs_count_slots(
            s,
            config,
            addresses,
            slot_length_us,
            in_slot_match_us,
            count,
            tx_pipe,
            packets_per_slot,
            tx,
            log,
            prior,
            over,
        );
        let chain = PtxSlotWorld {
            state: s.chain_started(
                config,
                addresses,
                slot_length_us,
                in_slot_match_us,
                count,
                tx_pipe,
                packets_per_slot,
            ),
            tx,
            log,
        };
        let before = ptx_slots_run(chain, prior, over);
        lemma_chain_slot(before, events, over);
        assert(ptx_slots_run(chain, slots, over) == ptx_slot(before, events, over));
    }
}

/// A driver serves one session at a time: while it is in use every session is
/// refused, and once it is left a valid one is taken again.
pub proof fn law_one_session_at_a_time(
    s: PtxSlotState,
    config: crate::config::EsbConfig,
    valid: bool,
)
    ensures
        s.busy ==> ptx_session::admission(s.busy, config, valid)
            == Err::<(), crate::error::Error>(crate::error::Error::Busy),
        config.payload_length >= 4 && valid ==> ptx_session::admission(
            s.left().busy,
            config,
            valid,
        ) is Ok,
{
}

/// What a receiver writes into an ACK, the sender reads from it: the counter of
/// the pipe and the hint of the window.
pub proof fn law_prx_ack_is_read(
    w: PrxSlotWorld,
    pipe: u8,
    pid: u8,
    crc: u16,
    elapsed_us: u32,
)
    requires
        w.ack.len() == 256,
        0 < w.state.plan.in_slot_match_us <= w.state.plan.slot_length_us,
    ensures
        ({
            let ack = w.acknowledged(pipe, pid, crc, elapsed_us).ack;
            let dup = w.state.radio.is_duplicate(pipe as int, pid, crc);
            &&& mpsl_common::counter_of(ack) == Some(w.state.counter_for(pipe, dup))
            &&& slot_ptx::ack_hint(ack) == Some(w.state.hint(elapsed_us))
        }),
{
    let dup = w.state.radio.is_duplicate(pipe as int, pid, crc);
    let hint = w.state.hint(elapsed_us);
    mpsl_common::law_counter_round_trip(
        w.ack,
        0,
        w.state.counter_for(pipe, dup),
        hint,
        Seq::empty(),
    );
    mpsl_schedule::law_hint_round_trip(hint, Seq::empty());
    assert(mpsl_common::counter_schedule_packet(
        w.ack,
        0,
        w.state.counter_for(pipe, dup),
        hint,
    )[2] == 24);
}

/// A packet that comes twice on a pipe is counted once: the second one is a copy,
/// and its ACK repeats the counter of the first.
pub proof fn law_prx_slot_copy_counted_once(
    w: PrxSlotWorld,
    pipe: u8,
    pid: u8,
    crc: u16,
    first_us: u32,
    second_us: u32,
)
    requires
        pipe < 8,
        !w.state.radio.is_duplicate(pipe as int, pid, crc),
        w.state.has_room(),
    ensures
        ({
            let once = w.acknowledged(pipe, pid, crc, first_us).ack_sent();
            let twice = once.acknowledged(pipe, pid, crc, second_us);
            &&& once.state.traffic.rx_count == w.state.traffic.rx_count + 1
            &&& twice.state.traffic.rx_count == once.state.traffic.rx_count
            &&& twice.state.traffic.dup_count == w.state.traffic.dup_count + 1
            &&& once.state.radio.is_duplicate(pipe as int, pid, crc)
            &&& once.state.counter_for(pipe, true) == w.state.counter_for(pipe, false)
            &&& twice.state.ack_counter == once.state.ack_counter
            &&& twice.state.progress.phase == PrxPhase::TxRepeatedAck
        }),
{
}

/// A slot of a receiver leaves the radio listening or about to acknowledge, and
/// the end of the slot brings it to rest.
pub proof fn law_prx_slot_phases(
    w: PrxSlotWorld,
    signal: TimeslotSignal,
    sample: PrxSlotSample,
    rx: Seq<u8>,
)
    requires
        w.state.plan.config is Some,
        w.state.plan.addresses is Some,
    ensures
        signal == TimeslotSignal::Start ==> w.signalled(signal, sample, rx).0.state.progress.phase
            == PrxPhase::Receiving,
        signal == TimeslotSignal::Timer0 ==> w.signalled(signal, sample, rx).0.state.progress.phase
            == PrxPhase::Idle && !w.signalled(signal, sample, rx).0.state.progress.slot_active,
        signal == TimeslotSignal::Radio && w.state.progress.phase == PrxPhase::Idle ==> w.signalled(
            signal,
            sample,
            rx,
        ).0.log == w.log,
{
}

/// The state after `k` windows have been requested.
pub open spec fn windows_requested(s: PrxSlotState, k: nat) -> PrxSlotState
    decreases k,
{
    if k == 0 {
        s
    } else {
        windows_requested(s, (k - 1) as nat).next_window()
    }
}

/// With a planned gap, the window after every `gap_after_windows` ones is the gap's
/// distance away, and the others are not.
pub proof fn law_prx_planned_gap(s: PrxSlotState, k: nat)
    requires
        s.progress.windows_since_gap == 0,
        0 < k < s.plan.schedule.gap_after_windows,
    ensures
        windows_requested(s, k).plan == s.plan,
        windows_requested(s, k).progress.windows_since_gap == k,
        !windows_requested(s, (k - 1) as nat).gap_due(),
        k + 1 == s.plan.schedule.gap_after_windows ==> {
            &&& windows_requested(s, k).gap_due()
            &&& windows_requested(s, k).window_distance() == s.plan.schedule.gap_distance_us
            &&& windows_requested(s, k + 1).progress.windows_since_gap == 0
        },
    decreases k,
{
    if k > 1 {
        law_prx_planned_gap(s, (k - 1) as nat);
    } else {
        assert(windows_requested(s, 0) == s);
        assert(windows_requested(s, 1) == s.next_window());
    }
    assert(windows_requested(s, k + 1) == windows_requested(s, k).next_window());
}

/// Without a gap every window follows at the normal distance, or right after the
/// one before it.
pub proof fn law_prx_continuous_windows(s: PrxSlotState)
    requires
        s.plan.schedule.gap_after_windows == 0,
    ensures
        s.window_distance() == if s.plan.schedule.normal_distance_us > 0 {
            s.plan.schedule.normal_distance_us
        } else {
            s.plan.slot_length_us
        },
        s.next_window().window_distance() == s.window_distance(),
{
}

/// A long-lived session reports every `report_every` slots.
pub proof fn law_prx_reports_every_batch(w: PrxSlotWorld, sample: PrxSlotSample, rx: Seq<u8>)
    requires
        w.state.plan.report_every > 0,
        w.state.progress.last_report_start <= w.state.counters.start,
    ensures
        ({
            let (after, reply) = w.signalled(TimeslotSignal::Timer0, sample, rx);
            let due = w.state.counters.start - w.state.progress.last_report_start
                >= w.state.plan.report_every;
            &&& reply == slot_ptx::answer(SlotAction::Request)
            &&& after.state.progress.report_ready == (w.state.progress.report_ready || due)
            &&& after.state.progress.last_report_start == if due {
                w.state.counters.start
            } else {
                w.state.progress.last_report_start
            }
            &&& !after.state.done || w.state.done
        }),
{
}

/// A radio signal of a PRX, with what the peripherals showed when it came.
pub struct PrxRadioSignal {
    /// The peripherals.
    pub sample: PrxSlotSample,
    /// The receive buffer.
    pub rx: Seq<u8>,
}

/// A PRX after a series of radio signals.
pub open spec fn prx_radio_run(w: PrxSlotWorld, events: Seq<PrxRadioSignal>) -> PrxSlotWorld
    decreases events.len(),
{
    if events.len() == 0 {
        w
    } else {
        let e = events.last();
        prx_radio_run(w, events.drop_last()).on_radio(e.sample, e.rx).0
    }
}

/// One slot of a PRX: its start, the radio signals within it, and its end.
#[verifier::opaque]
pub open spec fn prx_slot(w: PrxSlotWorld, events: Seq<PrxRadioSignal>) -> PrxSlotWorld {
    prx_radio_run(w.on_start().0, events).on_timer0().0
}

/// Slots of a PRX, one after the other.
pub open spec fn prx_slots_run(
    w: PrxSlotWorld,
    slots: Seq<Seq<PrxRadioSignal>>,
) -> PrxSlotWorld
    decreases slots.len(),
{
    if slots.len() == 0 {
        w
    } else {
        prx_slot(prx_slots_run(w, slots.drop_last()), slots.last())
    }
}

/// Radio signals do not end a slot.
proof fn lemma_prx_radio_run(w: PrxSlotWorld, events: Seq<PrxRadioSignal>)
    ensures
        prx_radio_run(w, events).state.plan == w.state.plan,
        prx_radio_run(w, events).state.counters.start == w.state.counters.start,
        prx_radio_run(w, events).state.done == w.state.done,
    decreases events.len(),
{
    if events.len() > 0 {
        lemma_prx_radio_run(w, events.drop_last());
    }
}

/// One slot of a chain: it is counted, and ends the chain where it is the last.
proof fn lemma_prx_chain_slot(w: PrxSlotWorld, events: Seq<PrxRadioSignal>)
    requires
        w.state.plan.config is Some,
        w.state.plan.addresses is Some,
        w.state.plan.report_every == 0,
        w.state.counters.start < u32::MAX,
    ensures
        prx_slot(w, events).state.plan == w.state.plan,
        prx_slot(w, events).state.counters.start == w.state.counters.start + 1,
        prx_slot(w, events).state.done == (w.state.done || w.state.counters.start + 1
            >= w.state.plan.target_count),
{
    reveal(prx_slot);
    lemma_prx_radio_run(w.on_start().0, events);
}

/// A chain of `count` PRX slots ends with exactly the slot that was asked for last
/// (a chain of none with its single slot), and not before, whatever session the
/// driver served earlier.
pub proof fn law_prx_chain_runs_count_slots(
    s: PrxSlotState,
    config: crate::config::EsbConfig,
    addresses: crate::addresses::EsbAddresses,
    slot_length_us: u32,
    in_slot_match_us: u32,
    count: u32,
    enabled_pipes: u8,
    ack: Seq<u8>,
    log: Seq<HwOp>,
    slots: Seq<Seq<PrxRadioSignal>>,
)
    requires
        slots.len() <= count || slots.len() <= 1,
    ensures
        ({
            let plan = s.chain_plan(
                config,
                addresses,
                slot_length_us,
                in_slot_match_us,
                count,
                enabled_pipes,
            );
            let chain = PrxSlotWorld { state: s.started(plan), ack, log };
            let run = prx_slots_run(chain, slots).state;
            &&& run.counters.start == slots.len()
            &&& run.plan == plan
            &&& run.done <==> slots.len() > 0 && slots.len() >= count
        }),
    decreases slots.len(),
{
    if slots.len() > 0 {
        law_prx_chain_runs_count_slots(
            s,
            config,
            addresses,
            slot_length_us,
            in_slot_match_us,
            count,
            enabled_pipes,
            ack,
            log,
            slots.drop_last(),
        );
        let plan = s.chain_plan(
            config,
            addresses,
            slot_length_us,
            in_slot_match_us,
            count,
            enabled_pipes,
        );
        let chain = PrxSlotWorld { state: s.started(plan), ack, log };
        lemma_prx_chain_slot(prx_slots_run(chain, slots.drop_last()), slots.last());
    }
}

/// No signal takes a count of a receiver back, so that a report and the counts
/// before it add up to the counts now.
pub proof fn law_prx_report_adds_up(
    w: PrxSlotWorld,
    signal: TimeslotSignal,
    sample: PrxSlotSample,
    rx: Seq<u8>,
    report: PrxSlotResult,
)
    requires
        w.state.has_room(),
        prx_session::prx_reports(
            report,
            w.signalled(signal, sample, rx).0.state,
            PrxBaseline::of(w.state),
        ),
    ensures
        ({
            let now = w.signalled(signal, sample, rx).0.state;
            &&& w.state.traffic.rx_count + report.rx_count == now.traffic.rx_count
            &&& w.state.traffic.dup_count + report.dup_count == now.traffic.dup_count
            &&& w.state.traffic.bad_crc_count + report.bad_crc_count == now.traffic.bad_crc_count
            &&& w.state.counters.start + report.counters.start == now.counters.start
            &&& w.state.requests.normal_blocked + report.normal_blocked
                == now.requests.normal_blocked
        }),
{
}

} // verus!
