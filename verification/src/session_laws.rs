//! What a session does with its configuration, and what its reports add up to.

use crate::addresses::EsbAddresses;
use crate::air_laws::sends;
use crate::config::EsbConfig;
use crate::hw::{DmaBuffer, HwOp};
use crate::mpsl_common;
use crate::mpsl_profile;
use crate::mpsl_profile::{PrxSlotConfig, PtxEventConfig, PtxPollConfig, PtxScheduleMode};
use crate::mpsl_radio::{RadioDisableResult, RadioQuiesceResult};
use crate::mpsl_schedule::{ScheduleHint, ScheduleTrackerSnapshot};
use crate::mpsl_timeslot::{
    counters_at_most, one_if, SlotAction, SlotPriority, TimeslotRequest, TimeslotSignal,
    TIMESLOT_DISTANCE_MAX_US,
};
use crate::prx_session;
use crate::prx_session::{PrxBaseline, PrxSlotResult};
use crate::ptx_session;
use crate::ptx_session::{PtxBaseline, PtxPollResult};
use crate::radio_model::{radio_after, RadioRegs};
use crate::slot_air_laws;
use crate::slot_air_laws::{slot_listens, slot_timer_after, SlotTimer};
use crate::slot_laws;
use crate::slot_laws::pipes_grow;
use crate::slot_prx;
use crate::slot_prx::{PrxRequests, PrxSlotSample, PrxSlotState, PrxSlotWorld};
use crate::slot_ptx;
use crate::slot_ptx::{
    PtxAckCounters, PtxPhase, PtxPolling, PtxSlotSample, PtxSlotState, PtxSlotWorld,
};
use vstd::prelude::*;

verus! {

/// A request for the earliest slot of a length, at normal priority.
pub open spec fn asks_plainly(request: TimeslotRequest, length_us: u32, timeout_us: u32) -> bool {
    request matches TimeslotRequest::Earliest(r) && r.priority == SlotPriority::Normal
        && r.length_us == length_us && r.timeout_us == timeout_us
}

/// A request for the earliest slot of a length, at high priority or not.
pub open spec fn asks_again(request: TimeslotRequest, length_us: u32, high: bool) -> bool {
    request matches TimeslotRequest::Earliest(r) && (r.priority == SlotPriority::High) == high
        && r.length_us == length_us
}

/// A packet that is handed to an on-demand session goes out on the configured pipe and
/// channel, in a slot of the configured length. The slot ends when it was configured
/// to, the ACK is waited for as long as was configured, and a request that is blocked
/// is repeated at the configured priority.
pub proof fn law_event_session_follows_config(
    s: PtxSlotState,
    config: EsbConfig,
    addresses: EsbAddresses,
    event: PtxEventConfig,
    tx: Seq<u8>,
    log: Seq<HwOp>,
    r: RadioRegs,
    t: SlotTimer,
    sample: PtxSlotSample,
    rx: Seq<u8>,
)
    requires
        sample.disabled,
    ensures
        ({
            let w = PtxSlotWorld {
                state: s.event_started(config, addresses, event).staged(),
                tx,
                log,
            };
            let sent = w.on_start().0;
            let turned = sent.on_radio(sample, rx).0;
            let now = radio_after(r, sent.log);
            &&& asks_plainly(w.state.request, event.slot_length_us, event.request.timeout_us)
            &&& sends(now, event.pipe, DmaBuffer::SlotTx)
            &&& now.frequency == config.channel.0 && now.mode == config.bitrate
            &&& sent.tx == tx
            &&& slot_timer_after(t, sent.log).slot_end == Some(event.in_slot_match_us)
            &&& slot_timer_after(t, turned.log).ack_timeout == Some(event.ack_timeout_us)
            &&& turned.state.packet.retry_count == 0
            &&& turned.state.plan.max_retries == event.max_retries
            &&& asks_again(
                w.on_blocked(TimeslotSignal::Blocked).0.state.request,
                event.slot_length_us,
                event.request.retry_blocked_at_high_priority,
            )
        }),
{
    let w = PtxSlotWorld {
        state: s.event_started(config, addresses, event).staged(),
        tx,
        log,
    };
    slot_air_laws::law_ptx_slot_sends_on_its_pipe(r, w);
    slot_air_laws::law_ptx_slot_end_is_armed(t, w);
    slot_air_laws::law_ptx_slot_turns_to_ack(r, t, w.on_start().0, sample, rx);
}

/// The first slot of a poll session goes to a pipe of the configured mask, on the
/// configured channel, and its slots, timeouts, retries, gate and reports are those
/// that were configured.
pub proof fn law_poll_session_follows_config(
    s: PtxSlotState,
    config: EsbConfig,
    addresses: EsbAddresses,
    poll: PtxPollConfig,
    tx: Seq<u8>,
    log: Seq<HwOp>,
    r: RadioRegs,
    t: SlotTimer,
    sample: PtxSlotSample,
    rx: Seq<u8>,
)
    requires
        sample.disabled,
        !s.event.mode,
        poll.pipe_mask != 0,
        mpsl_profile::mask_size(poll.pipe_mask) > 0,
        mpsl_profile::mask_size(poll.pipe_mask) <= 8,
    ensures
        ({
            let w = PtxSlotWorld {
                state: s.poll_started(config, addresses, poll),
                tx,
                log,
            };
            let sent = w.on_start().0;
            let turned = sent.on_radio(sample, rx).0;
            let now = radio_after(r, sent.log);
            &&& asks_plainly(w.state.request, poll.slot_length_us, poll.request.timeout_us)
            &&& now.tx_address < 8
            &&& mpsl_common::pipe_in_mask(poll.pipe_mask, now.tx_address)
            &&& sends(now, now.tx_address, DmaBuffer::SlotTx)
            &&& now.frequency == config.channel.0 && now.mode == config.bitrate
            &&& slot_timer_after(t, sent.log).slot_end == Some(poll.in_slot_match_us)
            &&& slot_timer_after(t, turned.log).ack_timeout == Some(poll.ack_timeout_us)
            &&& turned.state.packet.retry_count == 0
            &&& turned.state.plan.max_retries == poll.max_retries
            &&& turned.state.schedule.gate == poll.schedule_gate
            &&& turned.state.poll.report_every == poll.report_every
            &&& asks_again(
                w.on_blocked(TimeslotSignal::Blocked).0.state.request,
                poll.slot_length_us,
                poll.request.retry_blocked_at_high_priority,
            )
        }),
{
    let w = PtxSlotWorld { state: s.poll_started(config, addresses, poll), tx, log };
    slot_air_laws::law_ptx_slot_sends_on_its_pipe(r, w);
    slot_air_laws::law_ptx_slot_end_is_armed(t, w);
    slot_air_laws::law_ptx_slot_turns_to_ack(r, t, w.on_start().0, sample, rx);
    slot_laws::law_ptx_poll_next_pipe(w);
}

/// The first slot of a chain sends on the pipe that was asked for, and its slots have
/// the length and the end that were asked for.
pub proof fn law_chain_session_follows_config(
    s: PtxSlotState,
    config: EsbConfig,
    addresses: EsbAddresses,
    slot_length_us: u32,
    in_slot_match_us: u32,
    count: u32,
    tx_pipe: u8,
    packets_per_slot: u32,
    tx: Seq<u8>,
    log: Seq<HwOp>,
    r: RadioRegs,
    t: SlotTimer,
)
    requires
        !s.event.mode,
        s.packet.retry_count <= s.plan.max_retries,
    ensures
        ({
            let w = PtxSlotWorld {
                state: s.chain_started(
                    config,
                    addresses,
                    slot_length_us,
                    in_slot_match_us,
                    count,
                    tx_pipe,
                    packets_per_slot,
                ),
                tx,
                log,
            };
            let sent = w.on_start().0;
            let now = radio_after(r, sent.log);
            &&& w.state.request matches TimeslotRequest::Earliest(q) && q.length_us
                == slot_length_us && q.priority == SlotPriority::Normal
            &&& sends(now, tx_pipe, DmaBuffer::SlotTx)
            &&& now.frequency == config.channel.0 && now.mode == config.bitrate
            &&& slot_timer_after(t, sent.log).slot_end == Some(in_slot_match_us)
            &&& asks_again(
                w.on_blocked(TimeslotSignal::Blocked).0.state.request,
                slot_length_us,
                true,
            )
        }),
{
    let w = PtxSlotWorld {
        state: s.chain_started(
            config,
            addresses,
            slot_length_us,
            in_slot_match_us,
            count,
            tx_pipe,
            packets_per_slot,
        ),
        tx,
        log,
    };
    slot_air_laws::law_ptx_slot_sends_on_its_pipe(r, w);
    slot_air_laws::law_ptx_slot_end_is_armed(t, w);
}

/// A receiver's session listens on the configured pipes and channel, in slots of the
/// configured length that end when they were configured to. Its windows are as far
/// apart as was configured, it knows of no earlier packet, and a request that is
/// blocked is repeated at the configured priority.
pub proof fn law_prx_session_follows_config(
    s: PrxSlotState,
    config: EsbConfig,
    addresses: EsbAddresses,
    slot: PrxSlotConfig,
    w: PrxSlotWorld,
    r: RadioRegs,
    t: SlotTimer,
    pipe: int,
    pid: u8,
    crc: u16,
)
    requires
        w.state == s.started(prx_session::session_plan(config, addresses, slot)),
        0 <= pipe < 8,
    ensures
        ({
            let after = w.on_start().0;
            let now = radio_after(r, after.log);
            &&& asks_plainly(w.state.request, slot.slot_length_us, slot.request.timeout_us)
            &&& slot_listens(r, after)
            &&& now.rx_addresses == slot.enabled_pipes
            &&& now.frequency == config.channel.0 && now.mode == config.bitrate
            &&& slot_timer_after(t, after.log).slot_end == Some(slot.in_slot_match_us)
            &&& !w.state.radio.is_duplicate(pipe, pid, crc)
            &&& slot.schedule.gap_after_windows == 0 && slot.schedule.normal_distance_us > 0
                ==> w.state.window_distance() == slot.schedule.normal_distance_us
            &&& slot.schedule.gap_after_windows == 0 && slot.schedule.normal_distance_us == 0
                ==> w.state.window_distance() == slot.slot_length_us
            &&& after.state.plan.report_every == slot.report_every
            &&& after.state.plan.recovery_policy == slot.recovery
            &&& asks_again(
                w.on_blocked(TimeslotSignal::Blocked).0.state.request,
                slot.slot_length_us,
                slot.request.retry_blocked_at_high_priority,
            )
        }),
{
    slot_air_laws::law_prx_slot_listens(r, t, w);
    crate::radio_model::law_first_packet_is_new(s.radio.fast_ramp_up, pipe, pid, crc);
}

/// What the windows of a receiver are announced as: where windows follow each other
/// without a gap, the ACK of a window announces the next one for when it is requested.
pub proof fn law_prx_announces_next_window(s: PrxSlotState, elapsed_us: u32)
    requires
        s.plan.schedule.gap_after_windows == 0,
        s.plan.schedule.normal_distance_us == 0,
        elapsed_us <= s.plan.slot_length_us,
    ensures
        elapsed_us + s.hint(elapsed_us).next_delay_us == s.window_distance(),
        s.hint(elapsed_us).period_us == s.window_distance(),
        s.hint(elapsed_us).window_id == s.counters.start,
        s.hint(elapsed_us).window_us == s.plan.in_slot_match_us,
        s.next_window().request matches TimeslotRequest::Normal { distance_us, length_us, .. }
            && distance_us == elapsed_us + s.hint(elapsed_us).next_delay_us && length_us
            == s.plan.slot_length_us,
{
}

/// The next window of a receiver is requested as its schedule plans it: at the normal
/// distance, or right behind this one where none is configured, and at the distance of
/// the gap once as many windows as were configured have passed since the last gap.
pub proof fn law_prx_requests_planned_windows(w: PrxSlotWorld)
    requires
        w.state.progress.windows_since_gap < u32::MAX,
    ensures
        ({
            let plan = w.state.plan.schedule;
            let passed = w.state.progress.windows_since_gap + 1;
            let gap = plan.gap_after_windows > 0 && passed >= plan.gap_after_windows;
            let after = w.next_window().state;
            &&& after.request matches TimeslotRequest::Normal { priority, distance_us, length_us } && {
                &&& priority == SlotPriority::Normal
                &&& length_us == w.state.plan.slot_length_us
                &&& gap ==> distance_us == plan.gap_distance_us
                &&& !gap && plan.normal_distance_us > 0 ==> distance_us == plan.normal_distance_us
                &&& !gap && plan.normal_distance_us == 0 ==> distance_us
                    == w.state.plan.slot_length_us
            }
            &&& gap ==> after.progress.windows_since_gap == 0
            &&& !gap && plan.gap_after_windows > 0 ==> after.progress.windows_since_gap == passed
            &&& after.requests.last_kind == slot_prx::PRX_REQ_NORMAL
            &&& w.on_timer0().1 == slot_ptx::answer(SlotAction::Request)
                ==> w.on_timer0().0.state.request == after.request
        }),
{
}

/// A receiver's failed request is counted once, by what was asked for and by how it
/// failed, and is repeated as a request for the earliest slot.
pub proof fn law_prx_failed_request_counts_once(w: PrxSlotWorld, signal: TimeslotSignal)
    requires
        w.state.requests.has_room(),
        signal == TimeslotSignal::Blocked || signal == TimeslotSignal::Cancelled,
        w.state.requests.last_kind == slot_prx::PRX_REQ_NORMAL || w.state.requests.last_kind
            == slot_prx::PRX_REQ_EARLIEST,
    ensures
        ({
            let b: PrxRequests = w.state.requests;
            let a: PrxRequests = w.on_blocked(signal).0.state.requests;
            let normal = b.last_kind == slot_prx::PRX_REQ_NORMAL;
            let blocked = signal == TimeslotSignal::Blocked;
            &&& a.normal_blocked == b.normal_blocked + one_if(normal && blocked)
            &&& a.normal_cancelled == b.normal_cancelled + one_if(normal && !blocked)
            &&& a.earliest_blocked == b.earliest_blocked + one_if(!normal && blocked)
            &&& a.earliest_cancelled == b.earliest_cancelled + one_if(!normal && !blocked)
            &&& a.last_kind == slot_prx::PRX_REQ_EARLIEST
            &&& asks_again(
                w.on_blocked(signal).0.state.request,
                w.state.plan.slot_length_us,
                w.state.plan.retry_blocked_at_high_priority,
            )
        }),
{
}

/// The polling state after `n` slots.
pub open spec fn polls_run(p: PtxPolling, n: nat) -> PtxPolling
    decreases n,
{
    if n == 0 {
        p
    } else {
        polls_run(p, (n - 1) as nat).advanced()
    }
}

/// A poll session reports at the end of every `report_every`th slot, and at no other.
pub proof fn law_poll_reports_every_batch(p: PtxPolling, n: nat)
    requires
        p.slots_since_report == 0,
        !p.report_ready,
        0 < p.report_every,
        n <= p.report_every,
    ensures
        ({
            let after = polls_run(p, n);
            &&& after.pipes == p.pipes && after.pipe_mask == p.pipe_mask && after.report_every
                == p.report_every
            &&& n < p.report_every ==> !after.report_ready && after.slots_since_report == n
                && after.due() == (n + 1 == p.report_every)
            &&& n == p.report_every ==> after.report_ready && after.slots_since_report == 0
        }),
    decreases n,
{
    if n > 0 {
        law_poll_reports_every_batch(p, (n - 1) as nat);
    }
}

/// No count of a snapshot is above that of another.
pub open spec fn snapshot_at_most(a: ScheduleTrackerSnapshot, b: ScheduleTrackerSnapshot) -> bool {
    &&& a.valid_hint_count <= b.valid_hint_count
    &&& a.bad_hint_count <= b.bad_hint_count
    &&& a.repeat_count <= b.repeat_count
    &&& a.jump_count <= b.jump_count
    &&& a.missed_window_count <= b.missed_window_count
    &&& a.regress_count <= b.regress_count
}

/// No count of a PTX session is above that of another.
pub open spec fn ptx_at_most(a: PtxBaseline, b: PtxBaseline) -> bool {
    let (x, y) = (a.traffic, b.traffic);
    &&& counters_at_most(a.counters, b.counters)
    &&& x.tx_count <= y.tx_count
    &&& x.ack_ok_count <= y.ack_ok_count
    &&& x.ack_timeout_count <= y.ack_timeout_count
    &&& x.ack_crc_fail_count <= y.ack_crc_fail_count
    &&& pipes_grow(x.tx_per_pipe, y.tx_per_pipe)
    &&& pipes_grow(x.ack_ok_per_pipe, y.ack_ok_per_pipe)
    &&& pipes_grow(x.ack_timeout_per_pipe, y.ack_timeout_per_pipe)
    &&& pipes_grow(x.ack_crc_fail_per_pipe, y.ack_crc_fail_per_pipe)
    &&& a.schedule.hint_count <= b.schedule.hint_count
    &&& a.schedule.hint_bad_count <= b.schedule.hint_bad_count
    &&& a.schedule.skip_count <= b.schedule.skip_count
    &&& a.schedule.lock_count <= b.schedule.lock_count
    &&& a.schedule.reacquire_count <= b.schedule.reacquire_count
    &&& snapshot_at_most(a.schedule.tracker.snapshot, b.schedule.tracker.snapshot)
}

/// Each pipe's count before, and what is reported for it, add up to its count now.
pub open spec fn pipes_add_up(before: [u32; 8], gained: [u32; 8], now: [u32; 8]) -> bool {
    forall|i: int| 0 <= i < 8 ==> before@[i] + #[trigger] gained@[i] == now@[i]
}

/// Growth of per-pipe counts adds up with the counts before it.
proof fn lemma_pipes_add_up(before: [u32; 8], gained: [u32; 8], now: [u32; 8])
    requires
        pipes_grow(before, now),
        gained@ == mpsl_common::pipe_deltas(now@, before@),
    ensures
        pipes_add_up(before, gained, now),
{
    assert forall|i: int| 0 <= i < 8 implies before@[i] + #[trigger] gained@[i] == now@[i] by {
        assert(before@[i] <= now@[i]);
    }
}

/// Every count of a PTX report, with the count before it, is the count now, and what
/// a report says of the schedule is how the schedule stands.
pub proof fn law_ptx_report_is_complete(
    report: PtxPollResult,
    state: PtxSlotState,
    last: PtxBaseline,
)
    requires
        ptx_session::reports(report, state, last),
        ptx_at_most(last, PtxBaseline::of(state)),
    ensures
        ({
            let (t, b) = (state.traffic, last.traffic);
            let (c, d) = (state.schedule.counts, last.schedule);
            let (u, v) = (c.tracker.snapshot, d.tracker.snapshot);
            &&& last.counters.plus_all(report.counters) == state.counters
            &&& b.tx_count + report.tx_count == t.tx_count
            &&& b.ack_ok_count + report.ack_ok_count == t.ack_ok_count
            &&& b.ack_timeout_count + report.ack_timeout_count == t.ack_timeout_count
            &&& b.ack_crc_fail_count + report.ack_crc_fail_count == t.ack_crc_fail_count
            &&& pipes_add_up(b.tx_per_pipe, report.tx_per_pipe, t.tx_per_pipe)
            &&& pipes_add_up(b.ack_ok_per_pipe, report.ack_per_pipe, t.ack_ok_per_pipe)
            &&& pipes_add_up(
                b.ack_timeout_per_pipe,
                report.ack_timeout_per_pipe,
                t.ack_timeout_per_pipe,
            )
            &&& pipes_add_up(
                b.ack_crc_fail_per_pipe,
                report.ack_crc_fail_per_pipe,
                t.ack_crc_fail_per_pipe,
            )
            &&& d.hint_count + report.schedule_hint_count == c.hint_count
            &&& d.hint_bad_count + report.schedule_hint_bad_count == c.hint_bad_count
            &&& d.skip_count + report.schedule_skip_count == c.skip_count
            &&& d.lock_count + report.schedule_lock_count == c.lock_count
            &&& d.reacquire_count + report.schedule_reacquire_count == c.reacquire_count
            &&& v.valid_hint_count + report.schedule.valid_hint_count == u.valid_hint_count
            &&& v.bad_hint_count + report.schedule.bad_hint_count == u.bad_hint_count
            &&& v.repeat_count + report.schedule.repeat_count == u.repeat_count
            &&& v.jump_count + report.schedule.jump_count == u.jump_count
            &&& v.missed_window_count + report.schedule.missed_window_count
                == u.missed_window_count
            &&& v.regress_count + report.schedule.regress_count == u.regress_count
            &&& report.schedule.current_miss_streak == u.current_miss_streak
            &&& report.schedule.max_miss_streak == u.max_miss_streak
            &&& report.schedule.last_window_id == u.last_window_id
            &&& report.last_schedule_window_id == state.schedule.last_window_id
            &&& report.schedule_lock_active == state.schedule.lock_active
            &&& report.schedule_lock_miss_streak == state.schedule.lock_miss_streak
            &&& report.schedule_period_us == state.schedule.period_us
        }),
{
    let (t, b) = (state.traffic, last.traffic);
    crate::mpsl_timeslot::law_counters_split_in_time(state.counters, last.counters);
    lemma_pipes_add_up(b.tx_per_pipe, report.tx_per_pipe, t.tx_per_pipe);
    lemma_pipes_add_up(b.ack_ok_per_pipe, report.ack_per_pipe, t.ack_ok_per_pipe);
    lemma_pipes_add_up(
        b.ack_timeout_per_pipe,
        report.ack_timeout_per_pipe,
        t.ack_timeout_per_pipe,
    );
    lemma_pipes_add_up(
        b.ack_crc_fail_per_pipe,
        report.ack_crc_fail_per_pipe,
        t.ack_crc_fail_per_pipe,
    );
}

/// No count of a PRX session is above that of another.
pub open spec fn prx_at_most(a: PrxBaseline, b: PrxBaseline) -> bool {
    let (x, y) = (a.traffic, b.traffic);
    let (p, q) = (a.requests, b.requests);
    &&& counters_at_most(a.counters, b.counters)
    &&& x.rx_count <= y.rx_count
    &&& x.dup_count <= y.dup_count
    &&& x.bad_crc_count <= y.bad_crc_count
    &&& pipes_grow(x.rx_per_pipe, y.rx_per_pipe)
    &&& pipes_grow(x.dup_per_pipe, y.dup_per_pipe)
    &&& pipes_grow(x.bad_crc_per_pipe, y.bad_crc_per_pipe)
    &&& pipes_grow(x.ack_tx_per_pipe, y.ack_tx_per_pipe)
    &&& p.normal_blocked <= q.normal_blocked
    &&& p.normal_cancelled <= q.normal_cancelled
    &&& p.earliest_blocked <= q.earliest_blocked
    &&& p.earliest_cancelled <= q.earliest_cancelled
}

/// Every count of a PRX report, with the count before it, is the count now.
pub proof fn law_prx_report_is_complete(
    report: PrxSlotResult,
    state: PrxSlotState,
    last: PrxBaseline,
)
    requires
        prx_session::prx_reports(report, state, last),
        prx_at_most(last, PrxBaseline::of(state)),
    ensures
        ({
            let (t, b) = (state.traffic, last.traffic);
            let (q, p) = (state.requests, last.requests);
            &&& last.counters.plus_all(report.counters) == state.counters
            &&& b.rx_count + report.rx_count == t.rx_count
            &&& b.dup_count + report.dup_count == t.dup_count
            &&& b.bad_crc_count + report.bad_crc_count == t.bad_crc_count
            &&& pipes_add_up(b.rx_per_pipe, report.rx_per_pipe, t.rx_per_pipe)
            &&& pipes_add_up(b.dup_per_pipe, report.dup_per_pipe, t.dup_per_pipe)
            &&& pipes_add_up(b.bad_crc_per_pipe, report.bad_crc_per_pipe, t.bad_crc_per_pipe)
            &&& pipes_add_up(b.ack_tx_per_pipe, report.ack_tx_per_pipe, t.ack_tx_per_pipe)
            &&& p.normal_blocked + report.normal_blocked == q.normal_blocked
            &&& p.normal_cancelled + report.normal_cancelled == q.normal_cancelled
            &&& p.earliest_blocked + report.earliest_blocked == q.earliest_blocked
            &&& p.earliest_cancelled + report.earliest_cancelled == q.earliest_cancelled
            &&& report.last_request_kind == q.last_kind
            &&& report.slot_active == state.progress.slot_active
        }),
{
    let (t, b) = (state.traffic, last.traffic);
    crate::mpsl_timeslot::law_counters_split_in_time(state.counters, last.counters);
    lemma_pipes_add_up(b.rx_per_pipe, report.rx_per_pipe, t.rx_per_pipe);
    lemma_pipes_add_up(b.dup_per_pipe, report.dup_per_pipe, t.dup_per_pipe);
    lemma_pipes_add_up(b.bad_crc_per_pipe, report.bad_crc_per_pipe, t.bad_crc_per_pipe);
    lemma_pipes_add_up(b.ack_tx_per_pipe, report.ack_tx_per_pipe, t.ack_tx_per_pipe);
}

/// The result of a receiver's chain is its report since the very start.
pub proof fn law_prx_chain_result_is_whole_report(state: PrxSlotState)
    ensures
        prx_session::prx_reports(
            prx_session::chain_result(state),
            state,
            prx_session::no_prx_baseline(),
        ),
{
    let t = state.traffic;
    let none = prx_session::no_prx_baseline().traffic;
    assert(t.rx_per_pipe@ =~= mpsl_common::pipe_deltas(t.rx_per_pipe@, none.rx_per_pipe@));
    assert(t.dup_per_pipe@ =~= mpsl_common::pipe_deltas(t.dup_per_pipe@, none.dup_per_pipe@));
    assert(t.bad_crc_per_pipe@ =~= mpsl_common::pipe_deltas(
        t.bad_crc_per_pipe@,
        none.bad_crc_per_pipe@,
    ));
    assert(t.ack_tx_per_pipe@ =~= mpsl_common::pipe_deltas(
        t.ack_tx_per_pipe@,
        none.ack_tx_per_pipe@,
    ));
}

/// What an ACK says is what the schedule follows: under a phase-locked gate the next
/// slot is at or behind the window that the ACK announces, counted from when the ACK
/// came. An ACK without a hint is counted as such, and a missing or broken one as a
/// miss.
pub proof fn law_ptx_schedule_follows_ack(
    w: PtxSlotWorld,
    sample: PtxSlotSample,
    rx: Seq<u8>,
    hint: ScheduleHint,
)
    requires
        w.state.has_room(),
        w.state.packet.phase == PtxPhase::WaitAck,
        sample.disabled,
    ensures
        ({
            let s = w.state.schedule;
            let after = w.on_radio(sample, rx).0.state.schedule;
            let late = w.on_timer0(sample).0.state.schedule;
            let offset = s.gate.lock_tx_offset_us;
            &&& sample.crc_ok && slot_ptx::ack_hint(rx) == Some(hint) && s.gate.mode
                == PtxScheduleMode::PhaseLocked && w.state.plan.in_slot_match_us + 100
                <= TIMESLOT_DISTANCE_MAX_US && sample.elapsed_us + hint.next_delay_us + offset
                <= TIMESLOT_DISTANCE_MAX_US ==> {
                &&& after.locked()
                &&& after.next_distance() is Some
                &&& after.next_distance()->0 >= sample.elapsed_us + hint.next_delay_us + offset
                &&& after.next_distance()->0 > w.state.plan.in_slot_match_us
                &&& after.period_us == hint.period_us
            }
            &&& sample.crc_ok && slot_ptx::ack_hint(rx) is None ==> after.counts.hint_bad_count
                == s.counts.hint_bad_count + 1
            &&& !sample.crc_ok ==> after.counts.tracker.snapshot.current_miss_streak
                == s.counts.tracker.snapshot.current_miss_streak + 1
            &&& sample.ack_timeout && !sample.slot_end
                ==> late.counts.tracker.snapshot.current_miss_streak
                == s.counts.tracker.snapshot.current_miss_streak + 1
        }),
{
}

/// The next slot of a poll session is requested where its schedule wants it, and as
/// early as possible where it wants none.
pub proof fn law_poll_request_follows_schedule(w: PtxSlotWorld)
    ensures
        match w.state.schedule.next_distance() {
            Some(d) => w.polled().state.request matches TimeslotRequest::Normal {
                distance_us,
                length_us,
                ..
            } && distance_us == d && length_us == w.state.plan.slot_length_us,
            None => asks_plainly(
                w.polled().state.request,
                w.state.plan.slot_length_us,
                w.state.plan.request_timeout_us,
            ),
        },
{
}

/// The counters in the ACKs of a poll session: each one is counted, and one that is
/// below the one before it is an inversion.
pub proof fn law_ack_counters_are_compared(a: PtxAckCounters, counter: Option<u32>)
    requires
        a.payload_count < u32::MAX,
        a.inversions < u32::MAX,
    ensures
        a.seen(counter).payload_count == a.payload_count + one_if(counter is Some),
        a.seen(counter).inversions == a.inversions + one_if(
            counter is Some && counter->0 < a.last,
        ),
        counter is Some ==> a.seen(counter).last == counter->0,
        counter is None ==> a.seen(counter).last == a.last,
{
}

/// The ACK of a receiver carries the number of packets that were new on its pipe: a
/// new packet counts one up, a copy repeats the number, and other pipes keep theirs.
pub proof fn law_prx_ack_numbers_packets(
    w: PrxSlotWorld,
    pipe: u8,
    pid: u8,
    crc: u16,
    elapsed_us: u32,
    other: int,
)
    requires
        pipe < 8,
        0 <= other < 8,
        w.ack.len() == 256,
        w.state.ack_counter@[pipe as int] < u32::MAX,
    ensures
        ({
            let after = w.acknowledged(pipe, pid, crc, elapsed_us);
            let dup = w.state.radio.is_duplicate(pipe as int, pid, crc);
            let (a, b) = (after.state.ack_counter, w.state.ack_counter);
            &&& mpsl_common::counter_of(after.ack) == Some(a@[pipe as int])
            &&& a@[pipe as int] == b@[pipe as int] + one_if(!dup)
            &&& other != pipe ==> a@[other] == b@[other]
            &&& after.state.radio.is_duplicate(pipe as int, pid, crc)
        }),
{
    let dup = w.state.radio.is_duplicate(pipe as int, pid, crc);
    let counter = w.state.counter_for(pipe, dup);
    crate::bytes::lemma_u32_round_trip(counter);
    let hint = w.state.hint(elapsed_us);
    crate::mpsl_schedule::law_hint_layout(hint);
    let p = mpsl_common::counter_schedule_packet(w.ack, 0, counter, hint);
    assert(p[2] == 24);
    assert(crate::bytes::u32_at(p, 4) == counter);
}

/// At the end of its slot the radio of a PTX is off: an ACK turns it off, whatever it
/// holds, and so does the end of a slot in which a packet is still on its way, with
/// nothing left that would start it again.
pub proof fn law_ptx_slot_turns_radio_off(w: PtxSlotWorld, sample: PtxSlotSample, rx: Seq<u8>)
    ensures
        w.state.packet.phase == PtxPhase::WaitAck && sample.disabled ==> w.on_radio(
            sample,
            rx,
        ).0.log.last() is DisableRadio && w.on_radio(sample, rx).0.state.packet.phase
            == PtxPhase::Done,
        w.state.packet.active() ==> w.cut_off().log.last() == (HwOp::DisableRadio {
            clear_rxen: true,
            clear_txen: true,
        }),
        !w.cut_off().state.packet.active(),
{
}

/// At the end of its slot the radio of a PRX is brought to rest, by the policy that the
/// session was opened with.
pub proof fn law_prx_slot_brings_radio_to_rest(w: PrxSlotWorld)
    ensures
        w.quiesced().log.last() == HwOp::QuiesceRadio(w.state.plan.recovery_policy),
        !w.quiesced().state.progress.slot_active,
        w.on_timer0().0.log.len() >= w.counted(TimeslotSignal::Timer0).quiesced().log.len(),
        w.on_timer0().0.log.take(
            w.counted(TimeslotSignal::Timer0).quiesced().log.len() as int,
        ) == w.counted(TimeslotSignal::Timer0).quiesced().log,
{
    let q = w.counted(TimeslotSignal::Timer0).quiesced().log;
    assert(w.on_timer0().0.log.take(q.len() as int) =~= q);
}

/// A radio that does not go off in time is counted, and one that does is not.
pub proof fn law_disable_timeout_is_counted(
    s: PtxSlotState,
    p: PrxSlotState,
    disabled: RadioDisableResult,
    quiesced: RadioQuiesceResult,
)
    requires
        s.counters.has_room(),
        p.counters.has_room(),
    ensures
        s.disabled_as(disabled).counters.radio_disable_timeout
            == s.counters.radio_disable_timeout + one_if(disabled == RadioDisableResult::TimedOut),
        s.disabled_as(disabled).counters.start == s.counters.start,
        p.quiesced_as(quiesced).counters.radio_disable_timeout
            == p.counters.radio_disable_timeout + one_if(
            quiesced == RadioQuiesceResult::TimedOutForcedReset,
        ),
        p.quiesced_as(quiesced).counters.start == p.counters.start,
        s.disabled_as(disabled).traffic == s.traffic && p.quiesced_as(quiesced).traffic
            == p.traffic,
{
}

/// A session that is closed or whose request is refused is over and wakes whoever waits
/// for it. A slot that was not given back in time ends a chain and a receiver's session,
/// fails a send, and has a poll session ask for the next slot at high priority.
pub proof fn law_sessions_end(w: PtxSlotWorld, p: PrxSlotWorld, sample: PrxSlotSample, rx: Seq<u8>)
    ensures
        w.on_closed().0.state.done && w.on_closed().0.log.last() == HwOp::WakeSession,
        w.refused().state.done && w.refused().log.last() == HwOp::WakeSession,
        ({
            let (after, reply) = w.on_overstayed();
            let polls = w.state.poll.pipes > 0;
            &&& after.state.packet.phase == PtxPhase::Idle
            &&& polls ==> {
                &&& reply == slot_ptx::answer(SlotAction::Request)
                &&& asks_again(after.state.request, w.state.plan.slot_length_us, true)
                &&& !after.state.schedule.locked()
                &&& after.state.done == w.state.done
            }
            &&& !polls && w.state.event.mode ==> {
                &&& after.state.event.result_ready && !after.state.event.ack_ok
                &&& !after.state.event.pending
                &&& after.log.last() == HwOp::WakeSession
            }
            &&& !polls && !w.state.event.mode ==> after.state.done && reply == slot_ptx::answer(
                SlotAction::End,
            )
        }),
        p.signalled(TimeslotSignal::SessionClosed, sample, rx).0.state.done,
        p.signalled(TimeslotSignal::Overstayed, sample, rx).0.state.done,
        p.signalled(TimeslotSignal::Overstayed, sample, rx).1 == slot_ptx::answer(SlotAction::End),
        p.signalled(TimeslotSignal::Overstayed, sample, rx).0.log.last() == HwOp::WakeSession,
        p.refused().state.done && p.refused().log.last() == HwOp::WakeSession,
{
}

/// A poll session that is left without a request asks for its next slot again, plainly
/// and without a lock, and reports; any other session only wakes whoever waits for it.
pub proof fn law_idle_session_goes_on(w: PtxSlotWorld, p: PrxSlotWorld)
    ensures
        ({
            let (after, reply) = w.on_session_idle();
            let polls = w.state.poll.pipes > 0;
            &&& after.log.last() == HwOp::WakeSession && reply.action is None
            &&& reply.submit == polls
            &&& polls ==> {
                &&& asks_plainly(
                    after.state.request,
                    w.state.plan.slot_length_us,
                    w.state.plan.request_timeout_us,
                )
                &&& !after.state.schedule.locked()
                &&& after.state.poll.report_ready
            }
            &&& !polls ==> after.state.request == w.state.request && after.state.schedule
                == w.state.schedule
            &&& after.state.done == w.state.done && after.state.traffic == w.state.traffic
        }),
        p.on_session_idle().0.log.last() == HwOp::WakeSession,
        p.on_session_idle().1.action is None && !p.on_session_idle().1.submit,
        p.on_session_idle().0.state.request == p.state.request,
{
}

/// Whoever waits for a report is woken when one is due, and not before.
pub proof fn law_due_report_wakes(w: PtxSlotWorld, p: PrxSlotWorld)
    ensures
        w.state.poll.due() ==> w.polled().log == w.log.push(HwOp::WakeSession)
            && w.polled().state.poll.report_ready,
        !w.state.poll.due() ==> w.polled().log == w.log,
        p.report_due().log == p.log.push(HwOp::WakeSession),
        p.report_due().state.progress.report_ready,
        p.report_due().state.progress.last_report_start == p.state.counters.start,
{
}

/// A slot for which nothing was configured is given back at once, counted as a refused
/// answer, and ends its session; nothing is done to the radio.
pub proof fn law_unconfigured_slot_ends(r: RadioRegs, w: PtxSlotWorld, p: PrxSlotWorld)
    requires
        w.state.plan.config is None || w.state.plan.addresses is None,
        p.state.plan.config is None || p.state.plan.addresses is None,
        w.state.counters.has_room(),
        p.state.counters.has_room(),
    ensures
        w.on_start().1 == slot_ptx::answer(SlotAction::End),
        p.on_start().1 == slot_ptx::answer(SlotAction::End),
        !w.state.event.mode ==> w.on_start().0.state.done
            && w.on_start().0.state.counters.invalid_return == w.state.counters.invalid_return + 1,
        p.on_start().0.state.done,
        p.on_start().0.state.counters.invalid_return == p.state.counters.invalid_return + 1,
        radio_after(r, w.on_start().0.log) == radio_after(r, w.log),
        radio_after(r, p.on_start().0.log) == radio_after(r, p.log),
{
    broadcast use crate::radio_model::lemma_radio_push;

}

} // verus!
