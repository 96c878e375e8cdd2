//! PTX and PRX sessions inside timeslots.

use embassy_nrf_esb::addresses::EsbAddresses;
use embassy_nrf_esb::config::EsbConfig;
use embassy_nrf_esb::error::Error;
use embassy_nrf_esb::hw::{DmaBuffer, HwOp, RadioOp, TimerOp};
use embassy_nrf_esb::mpsl_common::{read_counter_payload, write_counter_schedule_packet};
use embassy_nrf_esb::mpsl_profile::{
    CoexistenceProfile, PrxScheduleConfig, PrxSlotConfig, PtxEventConfig, PtxPollConfig,
    PtxScheduleGateConfig,
};
use embassy_nrf_esb::mpsl_radio::{RadioDisableResult, RadioQuiesceResult};
use embassy_nrf_esb::mpsl_schedule::ScheduleHint;
use embassy_nrf_esb::mpsl_timeslot::{
    mpsl_ok, EarliestRequest, SignalCounters, SlotAction, SlotPriority, SlotReply,
    TimeslotRequest, TimeslotSession, TimeslotSignal,
};
use embassy_nrf_esb::prx_session::PrxSlotSession;
use embassy_nrf_esb::ptx_session::{PtxEventSession, PtxPollSession};
use embassy_nrf_esb::slot_prx::{
    PrxPhase, PrxSlotSample, PrxSlots, PRX_REQ_EARLIEST, PRX_REQ_NORMAL,
};
use embassy_nrf_esb::slot_ptx::{read_hint, PtxPhase, PtxSlotSample, PtxSlots};

const QUIET: PtxSlotSample = PtxSlotSample {
    disabled: false,
    crc_ok: false,
    slot_end: false,
    ack_timeout: false,
    elapsed_us: 0,
};
const DISABLED: PtxSlotSample = PtxSlotSample { disabled: true, ..QUIET };
const SLOT_END: PtxSlotSample = PtxSlotSample { slot_end: true, ..QUIET };
const ACK_TIMEOUT: PtxSlotSample = PtxSlotSample { ack_timeout: true, ..QUIET };

const NO_ANSWER: SlotReply = SlotReply { action: None, submit: false };
const SUBMIT: SlotReply = SlotReply { action: None, submit: true };

fn answer(action: SlotAction) -> SlotReply {
    SlotReply { action: Some(action), submit: false }
}

fn earliest(priority: SlotPriority, length_us: u32, timeout_us: u32) -> TimeslotRequest {
    TimeslotRequest::Earliest(EarliestRequest { priority, length_us, timeout_us })
}

fn acked(elapsed_us: u32) -> PtxSlotSample {
    PtxSlotSample { disabled: true, crc_ok: true, elapsed_us, ..QUIET }
}

/// An ACK with a counter and a hint.
fn ack_with_hint(counter: u32, window_id: u32, next_delay_us: u32) -> [u8; 256] {
    let mut rx = [0u8; 256];
    write_counter_schedule_packet(
        &mut rx,
        0,
        counter,
        ScheduleHint::new(0, window_id, next_delay_us, 5000, 4500),
    );
    rx
}

fn polling(poll: PtxPollConfig) -> (PtxSlots, PtxPollSession, Vec<HwOp>) {
    let mut s = PtxSlots::new(false);
    let config = EsbConfig::default();
    s.enter_poll(&config, poll).unwrap();
    let session = s
        .open_ptx_poll_session(&config, &EsbAddresses::default(), poll, Ok(7))
        .unwrap();
    (s, session, Vec::new())
}

fn on_demand() -> (PtxSlots, PtxEventSession, Vec<HwOp>) {
    let mut s = PtxSlots::new(false);
    let config = EsbConfig::default();
    let event = PtxEventConfig::for_profile(CoexistenceProfile::DiagnosticPipe1Retry1);
    s.enter_event(&config, event).unwrap();
    let session = s
        .open_event_session(&config, &EsbAddresses::default(), event, Ok(3))
        .unwrap();
    (s, session, Vec::new())
}

/// Run the slot of a PTX session; `rx` is the ACK, if one comes.
fn ptx_slot(s: &mut PtxSlots, rx: Option<(&[u8; 256], u32)>, ops: &mut Vec<HwOp>) -> SlotReply {
    let empty = [0u8; 256];
    s.ptx_timeslot_callback(TimeslotSignal::Start, QUIET, &empty, ops);
    s.ptx_timeslot_callback(TimeslotSignal::Radio, DISABLED, &empty, ops);
    match rx {
        Some((rx, elapsed_us)) => {
            s.ptx_timeslot_callback(TimeslotSignal::Radio, acked(elapsed_us), rx, ops);
        }
        None => {
            s.ptx_timeslot_callback(TimeslotSignal::Timer0, ACK_TIMEOUT, &empty, ops);
        }
    }
    s.ptx_timeslot_callback(TimeslotSignal::Timer0, SLOT_END, &empty, ops)
}

#[test]
fn one_session_at_a_time() {
    let config = EsbConfig::default();
    let poll = PtxPollConfig::diagnostic(1500, 1300, 0x06, 2);
    let mut s = PtxSlots::new(false);
    assert_eq!(s.enter_poll(&config, poll), Ok(()));
    assert_eq!(s.enter_chain(&config), Err(Error::Busy));
    s.leave();
    assert_eq!(s.enter_chain(&config), Ok(()));
    // Opening the session failed: the driver is free again.
    let r = s.run_ptx_slots(
        &config,
        &EsbAddresses::default(),
        1500,
        1300,
        2,
        0,
        1,
        Err(Error::Mpsl),
    );
    assert_eq!(r, Err(Error::Mpsl));
    assert_eq!(s.enter_chain(&config), Ok(()));
    assert_eq!(s.first_request_refused(Error::Mpsl), Error::Mpsl);
    assert!(!s.state.busy);

    let mut p = PrxSlots::new(false);
    assert_eq!(p.enter_chain(&config), Ok(()));
    let slot = PrxSlotConfig::for_profile(CoexistenceProfile::DiagnosticPipe1Prx8ms);
    assert_eq!(p.enter_session(&config, slot), Err(Error::Busy));
    assert_eq!(p.first_request_refused(Error::Mpsl), Error::Mpsl);
    assert_eq!(p.enter_session(&config, slot), Ok(()));
}

#[test]
fn sessions_need_valid_configurations() {
    let mut config = EsbConfig::default();
    let mut s = PtxSlots::new(false);
    let mut p = PrxSlots::new(false);
    let poll = PtxPollConfig::diagnostic(1500, 1500, 0x06, 2);
    assert_eq!(s.enter_poll(&config, poll), Err(Error::InvalidParam));
    let mut event = PtxEventConfig::for_profile(CoexistenceProfile::DiagnosticPipe1Retry1);
    event.pipe = 8;
    assert_eq!(s.enter_event(&config, event), Err(Error::InvalidParam));
    let mut slot = PrxSlotConfig::for_profile(CoexistenceProfile::DiagnosticPipe1Prx8ms);
    slot.enabled_pipes = 0;
    assert_eq!(p.enter_session(&config, slot), Err(Error::InvalidParam));
    // A packet must hold a counter.
    config.payload_length = 3;
    assert_eq!(s.enter_chain(&config), Err(Error::InvalidParam));
    assert_eq!(p.enter_chain(&config), Err(Error::InvalidParam));
}

#[test]
fn service_layer_results() {
    assert_eq!(mpsl_ok(0), Ok(()));
    assert_eq!(mpsl_ok(12), Ok(()));
    assert_eq!(mpsl_ok(-1), Err(Error::Mpsl));
}

#[test]
fn slot_sends_a_counter_packet() {
    let (mut s, _, mut ops) = polling(PtxPollConfig::diagnostic(1500, 1300, 0x06, 2));
    assert_eq!(s.state.request, earliest(SlotPriority::Normal, 1500, 1_000_000));
    let r = s.ptx_timeslot_callback(TimeslotSignal::Start, QUIET, &[0; 256], &mut ops);
    assert_eq!(r, answer(SlotAction::Nothing));
    assert_eq!(s.state.packet.phase, PtxPhase::Tx);
    // The first slot goes to the pipe after the first of the mask.
    assert_eq!(s.state.packet.tx_pipe, 2);
    assert_eq!(s.tx[2], 4);
    assert_eq!(read_counter_payload(&s.tx), Some(0));
    assert!(ops.contains(&HwOp::Radio(RadioOp::PacketPtr(DmaBuffer::SlotTx))));
    assert!(ops.contains(&HwOp::Timer0(TimerOp::Compare { channel: 0, value: 1300 })));
    assert_eq!(ops.last(), Some(&HwOp::UnmaskRadio));

    ops.clear();
    s.ptx_timeslot_callback(TimeslotSignal::Radio, DISABLED, &[0; 256], &mut ops);
    assert_eq!(s.state.packet.phase, PtxPhase::WaitAck);
    assert!(ops.contains(&HwOp::Timer0(TimerOp::CompareAfter { channel: 1, micros: 400 })));
    assert!(ops.contains(&HwOp::Radio(RadioOp::PacketPtr(DmaBuffer::SlotRx))));
}

#[test]
fn poll_session_visits_its_pipes_in_turn_and_reports() {
    let (mut s, mut session, mut ops) = polling(PtxPollConfig::diagnostic(1500, 1300, 0x16, 3));
    let rx = ack_with_hint(1, 10, 600);
    let mut pipes = Vec::new();
    for i in 0..3 {
        assert!(session.next_report(&mut s).is_none());
        let reply = if i == 1 {
            ptx_slot(&mut s, None, &mut ops)
        } else {
            ptx_slot(&mut s, Some((&rx, 700)), &mut ops)
        };
        assert_eq!(reply, answer(SlotAction::Request));
        pipes.push(s.state.packet.tx_pipe);
    }
    assert_eq!(pipes, [2, 4, 1]);
    assert_eq!(ops.last(), Some(&HwOp::WakeSession));

    let report = session.next_report(&mut s).unwrap().unwrap();
    assert_eq!(report.tx_count, 3);
    assert_eq!(report.ack_ok_count, 2);
    assert_eq!(report.ack_timeout_count, 1);
    assert_eq!(report.ack_crc_fail_count, 0);
    assert_eq!(report.tx_per_pipe, [0, 1, 1, 0, 1, 0, 0, 0]);
    assert_eq!(report.ack_per_pipe, [0, 1, 1, 0, 0, 0, 0, 0]);
    assert_eq!(report.ack_timeout_per_pipe, [0, 0, 0, 0, 1, 0, 0, 0]);
    assert_eq!(report.counters.start, 3);
    assert_eq!(report.schedule_hint_count, 2);
    assert_eq!(report.last_schedule_window_id, 10);
    assert!(session.next_report(&mut s).is_none());

    // The next report starts from here.
    for _ in 0..3 {
        ptx_slot(&mut s, None, &mut ops);
    }
    let report = session.next_report(&mut s).unwrap().unwrap();
    assert_eq!(report.tx_count, 3);
    assert_eq!(report.ack_ok_count, 0);
    assert_eq!(report.ack_timeout_count, 3);
}

#[test]
fn pid_moves_on_with_every_ack() {
    let (mut s, _, mut ops) = polling(PtxPollConfig::diagnostic(1500, 1300, 0x02, 100));
    let rx = [0u8; 256];
    let mut pids = Vec::new();
    for i in 0..6 {
        if i == 2 {
            ptx_slot(&mut s, None, &mut ops);
        } else {
            ptx_slot(&mut s, Some((&rx, 700)), &mut ops);
        }
        pids.push(s.state.packet.pid);
    }
    assert_eq!(pids, [1, 2, 2, 3, 0, 1]);
}

#[test]
fn packet_is_retried_within_its_slot() {
    let mut poll = PtxPollConfig::diagnostic(1500, 1300, 0x02, 100);
    poll.max_retries = 1;
    let (mut s, _, mut ops) = polling(poll);
    let rx = [0u8; 256];
    s.ptx_timeslot_callback(TimeslotSignal::Start, QUIET, &rx, &mut ops);
    s.ptx_timeslot_callback(TimeslotSignal::Radio, DISABLED, &rx, &mut ops);
    s.ptx_timeslot_callback(TimeslotSignal::Timer0, ACK_TIMEOUT, &rx, &mut ops);
    assert_eq!(s.state.packet.phase, PtxPhase::Tx);
    assert_eq!(s.state.packet.retry_count, 1);
    // The copy carries the same counter.
    assert_eq!(read_counter_payload(&s.tx), Some(0));
    s.ptx_timeslot_callback(TimeslotSignal::Radio, DISABLED, &rx, &mut ops);
    s.ptx_timeslot_callback(TimeslotSignal::Timer0, ACK_TIMEOUT, &rx, &mut ops);
    assert_eq!(s.state.packet.phase, PtxPhase::Done);
    assert_eq!(s.state.packet.retry_count, 1);
    assert_eq!(s.state.traffic.tx_count, 1);
    assert_eq!(s.state.traffic.ack_timeout_count, 2);
}

#[test]
fn bad_ack_is_counted() {
    let (mut s, _, mut ops) = polling(PtxPollConfig::diagnostic(1500, 1300, 0x02, 100));
    let rx = [0u8; 256];
    s.ptx_timeslot_callback(TimeslotSignal::Start, QUIET, &rx, &mut ops);
    s.ptx_timeslot_callback(TimeslotSignal::Radio, DISABLED, &rx, &mut ops);
    s.ptx_timeslot_callback(TimeslotSignal::Radio, DISABLED, &rx, &mut ops);
    assert_eq!(s.state.traffic.ack_crc_fail_count, 1);
    assert_eq!(s.state.traffic.ack_crc_fail_per_pipe[1], 1);
    assert_eq!(s.state.packet.phase, PtxPhase::Done);
    s.radio_disabled(RadioDisableResult::Disabled);
    assert_eq!(s.state.counters.radio_disable_timeout, 0);
    s.radio_disabled(RadioDisableResult::TimedOut);
    assert_eq!(s.state.counters.radio_disable_timeout, 1);
}

#[test]
fn hint_locks_the_next_slots() {
    let mut poll = PtxPollConfig::diagnostic(1500, 1300, 0x02, 100);
    poll.schedule_gate = PtxScheduleGateConfig::phase_locked_pipe1();
    let (mut s, mut session, mut ops) = polling(poll);
    let rx = ack_with_hint(1, 10, 3000);
    ptx_slot(&mut s, Some((&rx, 700)), &mut ops);
    assert!(s.state.schedule.is_locked());
    assert_eq!(
        s.state.request,
        TimeslotRequest::Normal {
            priority: SlotPriority::Normal,
            distance_us: 700 + 3000 + 250,
            length_us: 1500,
        }
    );
    // From then on the period is the distance.
    for _ in 0..3 {
        ptx_slot(&mut s, None, &mut ops);
        assert_eq!(
            s.state.request,
            TimeslotRequest::Normal {
                priority: SlotPriority::Normal,
                distance_us: 5000,
                length_us: 1500,
            }
        );
    }
    // The fourth miss in a row loses the lock.
    ptx_slot(&mut s, None, &mut ops);
    assert!(!s.state.schedule.is_locked());
    assert_eq!(s.state.request, earliest(SlotPriority::Normal, 1500, 1_000_000));
    assert_eq!(s.state.schedule.counts.reacquire_count, 1);
    assert_eq!(s.state.schedule.counts.lock_count, 1);
    assert!(session.next_report(&mut s).is_none());
}

#[test]
fn hinted_window_is_never_within_the_slot() {
    let mut poll = PtxPollConfig::diagnostic(1500, 1300, 0x02, 100);
    poll.schedule_gate = PtxScheduleGateConfig::phase_locked_pipe1();
    let (mut s, _, mut ops) = polling(poll);
    let rx = ack_with_hint(1, 10, 1);
    ptx_slot(&mut s, Some((&rx, 700)), &mut ops);
    assert_eq!(
        s.state.request,
        TimeslotRequest::Normal {
            priority: SlotPriority::Normal,
            distance_us: 1400,
            length_us: 1500,
        }
    );
}

#[test]
fn fixed_skip_passes_slots_over() {
    let mut poll = PtxPollConfig::diagnostic(1500, 1300, 0x02, 100);
    poll.schedule_gate = PtxScheduleGateConfig::fixed_skip_pipe1();
    let (mut s, _, mut ops) = polling(poll);
    let rx = ack_with_hint(1, 10, 3000);
    ptx_slot(&mut s, Some((&rx, 700)), &mut ops);
    for skipped in 1..3 {
        ops.clear();
        s.ptx_timeslot_callback(TimeslotSignal::Start, QUIET, &rx, &mut ops);
        assert_eq!(s.state.packet.phase, PtxPhase::Done);
        assert_eq!(s.state.schedule.counts.skip_count, skipped);
        assert!(!ops.contains(&HwOp::Radio(RadioOp::Txen)));
        s.ptx_timeslot_callback(TimeslotSignal::Timer0, SLOT_END, &rx, &mut ops);
    }
    s.ptx_timeslot_callback(TimeslotSignal::Start, QUIET, &rx, &mut ops);
    assert_eq!(s.state.packet.phase, PtxPhase::Tx);
    assert_eq!(s.state.traffic.tx_count, 2);
}

#[test]
fn ack_without_hint_is_counted_apart() {
    let (mut s, _, mut ops) = polling(PtxPollConfig::diagnostic(1500, 1300, 0x02, 100));
    let mut rx = ack_with_hint(5, 10, 3000);
    assert_eq!(read_hint(&rx), Some(ScheduleHint::new(0, 10, 3000, 5000, 4500)));
    rx[8] ^= 0xFF;
    assert_eq!(read_hint(&rx), None);
    ptx_slot(&mut s, Some((&rx, 700)), &mut ops);
    assert_eq!(s.state.schedule.counts.hint_bad_count, 1);
    assert_eq!(s.state.schedule.counts.hint_count, 0);
    assert_eq!(s.state.acks.last, 5);
    // A counter that goes back.
    let rx = ack_with_hint(4, 11, 3000);
    ptx_slot(&mut s, Some((&rx, 700)), &mut ops);
    assert_eq!(s.state.acks.inversions, 1);
    assert_eq!(s.state.acks.payload_count, 2);
}

#[test]
fn blocked_request_is_repeated_with_priority() {
    let (mut s, _, mut ops) = polling(PtxPollConfig::diagnostic(1500, 1300, 0x02, 100));
    for signal in [TimeslotSignal::Blocked, TimeslotSignal::Cancelled] {
        let r = s.ptx_timeslot_callback(signal, QUIET, &[0; 256], &mut ops);
        assert_eq!(r, SUBMIT);
        assert_eq!(s.state.request, earliest(SlotPriority::High, 1500, 255_999_999));
    }
    assert_eq!(s.state.counters.blocked, 1);
    assert_eq!(s.state.counters.cancelled, 1);
    let r = s.ptx_timeslot_callback(TimeslotSignal::SessionIdle, QUIET, &[0; 256], &mut ops);
    assert_eq!(r, SUBMIT);
    assert_eq!(s.state.request, earliest(SlotPriority::Normal, 1500, 1_000_000));
    assert!(s.state.poll.report_ready);
    let r = s.ptx_timeslot_callback(TimeslotSignal::Overstayed, QUIET, &[0; 256], &mut ops);
    assert_eq!(r, answer(SlotAction::Request));
    assert_eq!(s.state.request, earliest(SlotPriority::High, 1500, 255_999_999));
}

#[test]
fn blocked_request_is_repeated_at_the_priority_of_the_session() {
    let mut poll = PtxPollConfig::diagnostic(1500, 1300, 0x02, 100);
    poll.request.retry_blocked_at_high_priority = false;
    let (mut s, _, mut ops) = polling(poll);
    for signal in [TimeslotSignal::Blocked, TimeslotSignal::Cancelled] {
        let r = s.ptx_timeslot_callback(signal, QUIET, &[0; 256], &mut ops);
        assert_eq!(r, SUBMIT);
        assert_eq!(s.state.request, earliest(SlotPriority::Normal, 1500, 255_999_999));
    }
    // A slot that was not given back in time is asked for with priority all the same.
    s.ptx_timeslot_callback(TimeslotSignal::Overstayed, QUIET, &[0; 256], &mut ops);
    assert_eq!(s.state.request, earliest(SlotPriority::High, 1500, 255_999_999));
}

#[test]
fn blocked_send_is_repeated_with_the_length_of_its_session() {
    let (mut s, session, mut ops) = on_demand();
    let event = PtxEventConfig::for_profile(CoexistenceProfile::DiagnosticPipe1Retry1);
    session.send(&[1], &mut s).unwrap();
    s.ptx_timeslot_callback(TimeslotSignal::Blocked, QUIET, &[0; 256], &mut ops);
    assert_eq!(s.state.request, earliest(SlotPriority::High, event.slot_length_us, 255_999_999));
    assert_eq!(s.state.plan.request_timeout_us, 1_000_000);

    let mut s = PtxSlots::new(false);
    let config = EsbConfig::default();
    let mut event = event;
    event.request.retry_blocked_at_high_priority = false;
    s.enter_event(&config, event).unwrap();
    let session = s.open_event_session(&config, &EsbAddresses::default(), event, Ok(3)).unwrap();
    session.send(&[1], &mut s).unwrap();
    s.ptx_timeslot_callback(TimeslotSignal::Cancelled, QUIET, &[0; 256], &mut ops);
    assert_eq!(s.state.request, earliest(SlotPriority::Normal, event.slot_length_us, 255_999_999));
}

/// A driver that a poll session with this gate has used, with one ACK missed and one
/// hint heard.
fn used_by_polling(gate: PtxScheduleGateConfig) -> PtxSlots {
    let mut poll = PtxPollConfig::diagnostic(1500, 1300, 0x02, 100);
    poll.schedule_gate = gate;
    let (mut s, _, mut ops) = polling(poll);
    ptx_slot(&mut s, None, &mut ops);
    ptx_slot(&mut s, Some((&ack_with_hint(1, 10, 3000), 700)), &mut ops);
    assert!(s.state.traffic.ack_timeout_count > 0);
    s.ptx_timeslot_callback(TimeslotSignal::SessionClosed, QUIET, &[0; 256], &mut ops);
    s.leave();
    s
}

#[test]
fn chain_ends_after_a_poll_session_too() {
    let config = EsbConfig::default();
    let mut s = used_by_polling(PtxScheduleGateConfig::disabled());
    let mut ops = Vec::new();
    s.enter_chain(&config).unwrap();
    s.run_ptx_slots(&config, &EsbAddresses::default(), 1500, 1300, 2, 3, 1, Ok(9)).unwrap();
    let rx = ack_with_hint(8, 1, 100);
    assert_eq!(ptx_slot(&mut s, Some((&rx, 700)), &mut ops), answer(SlotAction::Request));
    assert!(s.poll_chain().is_none());
    assert_eq!(ptx_slot(&mut s, Some((&rx, 700)), &mut ops), answer(SlotAction::End));
    assert_eq!(s.poll_chain().unwrap().tx_count, 2);
}

#[test]
fn send_is_not_skipped_after_a_poll_session() {
    let config = EsbConfig::default();
    let mut s = used_by_polling(PtxScheduleGateConfig::fixed_skip_pipe1());
    assert!(s.state.schedule.skip_slots_remaining > 0);
    let event = PtxEventConfig::for_profile(CoexistenceProfile::DiagnosticPipe1Retry1);
    s.enter_event(&config, event).unwrap();
    let session = s.open_event_session(&config, &EsbAddresses::default(), event, Ok(3)).unwrap();
    session.send(&[7], &mut s).unwrap();
    let mut ops = Vec::new();
    s.ptx_timeslot_callback(TimeslotSignal::Start, QUIET, &[0; 256], &mut ops);
    assert_eq!(s.state.packet.phase, PtxPhase::Tx);
    assert!(ops.contains(&HwOp::Radio(RadioOp::Txen)));
    assert_eq!(s.state.traffic.ack_timeout_count, 0);
}

#[test]
fn first_report_holds_no_counts_of_an_earlier_session() {
    let config = EsbConfig::default();
    let mut s = used_by_polling(PtxScheduleGateConfig::disabled());
    let poll = PtxPollConfig::diagnostic(1500, 1300, 0x02, 1);
    s.enter_poll(&config, poll).unwrap();
    let mut session =
        s.open_ptx_poll_session(&config, &EsbAddresses::default(), poll, Ok(4)).unwrap();
    let mut ops = Vec::new();
    ptx_slot(&mut s, Some((&ack_with_hint(1, 10, 3000), 700)), &mut ops);
    let report = session.next_report(&mut s).unwrap().unwrap();
    assert_eq!((report.tx_count, report.ack_ok_count), (1, 1));
    assert_eq!((report.ack_timeout_count, report.ack_crc_fail_count), (0, 0));
}

#[test]
fn ended_poll_session_reports_an_error() {
    let (mut s, mut session, mut ops) = polling(PtxPollConfig::diagnostic(1500, 1300, 0x02, 1));
    s.request_refused(&mut ops);
    assert_eq!(s.state.counters.invalid_return, 1);
    assert_eq!(ops, [HwOp::WakeSession]);
    assert!(matches!(session.next_report(&mut s), Some(Err(Error::Mpsl))));

    let (mut s, mut session, mut ops) = polling(PtxPollConfig::diagnostic(1500, 1300, 0x02, 1));
    let r = s.ptx_timeslot_callback(TimeslotSignal::SessionClosed, QUIET, &[0; 256], &mut ops);
    assert_eq!(r, NO_ANSWER);
    assert!(matches!(session.next_report(&mut s), Some(Err(Error::Mpsl))));
}

#[test]
fn unknown_signals_end_the_slot() {
    let (mut s, _, mut ops) = polling(PtxPollConfig::diagnostic(1500, 1300, 0x02, 1));
    let r = s.ptx_timeslot_callback(TimeslotSignal::from_code(99), QUIET, &[0; 256], &mut ops);
    assert_eq!(r, answer(SlotAction::End));
}

#[test]
fn chain_ends_after_its_last_slot() {
    let config = EsbConfig::default();
    let mut s = PtxSlots::new(false);
    let mut ops = Vec::new();
    s.enter_chain(&config).unwrap();
    let id = s.run_ptx_slots(&config, &EsbAddresses::default(), 1500, 1300, 2, 3, 1, Ok(9));
    assert_eq!(id, Ok(9));
    let rx = ack_with_hint(8, 1, 100);
    assert_eq!(ptx_slot(&mut s, Some((&rx, 700)), &mut ops), answer(SlotAction::Request));
    assert!(s.poll_chain().is_none());
    assert_eq!(ptx_slot(&mut s, Some((&rx, 700)), &mut ops), answer(SlotAction::End));
    let result = s.poll_chain().unwrap();
    assert_eq!(result.tx_count, 2);
    assert_eq!(result.ack_ok_count, 2);
    assert_eq!(result.ack_payload_count, 2);
    assert_eq!(result.last_ack_counter, 8);
    assert_eq!(result.counters.start, 2);
    assert_eq!(s.state.packet.tx_pipe, 3);
}

#[test]
fn send_on_demand_round_trip() {
    let (mut s, mut session, mut ops) = on_demand();
    assert_eq!(session.session_id, 3);
    // Without a staged packet a slot is given back at once.
    let r = s.ptx_timeslot_callback(TimeslotSignal::Start, QUIET, &[0; 256], &mut ops);
    assert_eq!(r, answer(SlotAction::End));
    assert!(ops.is_empty());

    assert_eq!(session.send(&[0xAB, 0xCD], &mut s), Ok(()));
    assert!(session.poll_send(&mut s).is_none());
    assert_eq!(&s.tx[2..10], &[6, 0, 0, 0, 0, 0, 0xAB, 0xCD][..]);
    let rx = [0u8; 256];
    assert_eq!(ptx_slot(&mut s, Some((&rx, 700)), &mut ops), answer(SlotAction::Nothing));
    let result = session.poll_send(&mut s).unwrap().unwrap();
    assert!(result.ack_ok);
    assert_eq!(result.counters.start, 1);
    assert_eq!((session.pid, session.tx_count), (1, 1));
    assert!(session.poll_send(&mut s).is_none());

    // A packet that is not acknowledged keeps the PID.
    session.send(&[1], &mut s).unwrap();
    s.ptx_timeslot_callback(TimeslotSignal::Start, QUIET, &rx, &mut ops);
    s.ptx_timeslot_callback(TimeslotSignal::Timer0, SLOT_END, &rx, &mut ops);
    let result = session.poll_send(&mut s).unwrap().unwrap();
    assert!(!result.ack_ok);
    assert_eq!((session.pid, session.tx_count), (1, 2));
}

#[test]
fn send_on_demand_checks_the_payload() {
    let (mut s, session, _) = on_demand();
    assert_eq!(session.send(&[0; 28], &mut s), Ok(()));
    assert_eq!(session.send(&[0; 29], &mut s), Err(Error::InvalidParam));
    assert!(s.state.event.pending);
    assert_eq!(session.send_refused(Error::Mpsl, &mut s), Error::Mpsl);
    assert!(!s.state.event.pending);
}

#[test]
fn send_on_demand_fails_with_the_session() {
    let (mut s, mut session, mut ops) = on_demand();
    session.send(&[1], &mut s).unwrap();
    s.ptx_timeslot_callback(TimeslotSignal::SessionClosed, QUIET, &[0; 256], &mut ops);
    assert_eq!(session.poll_send(&mut s), Some(Err(Error::Mpsl)));
    s.close_event_session();
    assert!(!s.state.busy && !s.state.event.mode);

    let (mut s, mut session, mut ops) = on_demand();
    session.send(&[1], &mut s).unwrap();
    s.ptx_timeslot_callback(TimeslotSignal::Overstayed, QUIET, &[0; 256], &mut ops);
    assert!(!session.poll_send(&mut s).unwrap().unwrap().ack_ok);
}

#[test]
fn room_is_checked_before_a_count_reaches_its_limit() {
    let (mut s, _, _) = polling(PtxPollConfig::diagnostic(1500, 1300, 0x02, 1));
    assert!(s.check_room(&[0; 256]));
    s.state.counters.radio = u32::MAX;
    assert!(!s.check_room(&[0; 256]));
    let mut p = PrxSlots::new(false);
    assert!(p.check_room());
    p.state.traffic.dup_per_pipe[7] = u32::MAX;
    assert!(!p.check_room());
}

fn listening(slot: PrxSlotConfig) -> (PrxSlots, PrxSlotSession, Vec<HwOp>) {
    let mut s = PrxSlots::new(false);
    let config = EsbConfig::default();
    s.enter_session(&config, slot).unwrap();
    let session = s
        .open_prx_session(&config, &EsbAddresses::default(), slot, Ok(5))
        .unwrap();
    (s, session, Vec::new())
}

fn heard(pipe: u8, crc: u16, crc_ok: bool) -> PrxSlotSample {
    PrxSlotSample { disabled: true, crc_ok, pipe, crc, elapsed_us: 1000 }
}

/// A received packet with the given PID.
fn packet(pid: u8, no_ack: bool) -> [u8; 256] {
    let mut rx = [0u8; 256];
    rx[2] = 4;
    rx[3] = (pid << 1) | no_ack as u8;
    rx
}

fn prx_slot(s: &mut PrxSlots, ops: &mut Vec<HwOp>) -> SlotReply {
    s.prx_timeslot_callback(TimeslotSignal::Start, heard(0, 0, false), &[0; 256], ops);
    s.prx_timeslot_callback(TimeslotSignal::Timer0, heard(0, 0, false), &[0; 256], ops)
}

#[test]
fn prx_ack_is_read_by_a_ptx() {
    let slot = PrxSlotConfig::for_profile(CoexistenceProfile::DiagnosticPipe1Prx8ms);
    let (mut s, _, mut ops) = listening(slot);
    s.prx_timeslot_callback(TimeslotSignal::Start, heard(0, 0, false), &[0; 256], &mut ops);
    assert_eq!(s.state.progress.phase, PrxPhase::Receiving);
    ops.clear();
    let r = s.prx_timeslot_callback(
        TimeslotSignal::Radio,
        heard(1, 77, true),
        &packet(2, false),
        &mut ops,
    );
    assert_eq!(r, answer(SlotAction::Nothing));
    assert_eq!(s.state.progress.phase, PrxPhase::TxAck);
    assert!(ops.contains(&HwOp::Radio(RadioOp::PacketPtr(DmaBuffer::SlotAck))));
    assert_eq!(read_counter_payload(&s.ack), Some(1));
    assert_eq!(read_hint(&s.ack), Some(ScheduleHint::new(0, 1, 7000, 8000, 7600)));
    s.prx_timeslot_callback(TimeslotSignal::Radio, heard(1, 0, true), &[0; 256], &mut ops);
    assert_eq!(s.state.progress.phase, PrxPhase::Receiving);

    // A copy is acknowledged with the same counter, and counted apart.
    s.prx_timeslot_callback(
        TimeslotSignal::Radio,
        heard(1, 77, true),
        &packet(2, false),
        &mut ops,
    );
    assert_eq!(s.state.progress.phase, PrxPhase::TxRepeatedAck);
    assert_eq!(read_counter_payload(&s.ack), Some(1));
    assert_eq!(s.state.traffic.rx_count, 1);
    assert_eq!(s.state.traffic.dup_count, 1);
    assert_eq!(s.state.traffic.ack_tx_per_pipe[1], 2);
}

#[test]
fn prx_slot_counts_what_it_hears() {
    let slot = PrxSlotConfig::for_profile(CoexistenceProfile::DiagnosticPipe1Prx8ms);
    let (mut s, _, mut ops) = listening(slot);
    s.prx_timeslot_callback(TimeslotSignal::Start, heard(0, 0, false), &[0; 256], &mut ops);
    s.prx_timeslot_callback(TimeslotSignal::Radio, heard(1, 1, false), &packet(0, false), &mut ops);
    s.prx_timeslot_callback(TimeslotSignal::Radio, heard(3, 1, true), &packet(0, true), &mut ops);
    s.prx_timeslot_callback(TimeslotSignal::Radio, heard(3, 1, true), &packet(0, true), &mut ops);
    let t = s.state.traffic;
    assert_eq!((t.bad_crc_count, t.rx_count, t.dup_count), (1, 1, 1));
    assert_eq!(t.bad_crc_per_pipe[1], 1);
    assert_eq!(t.rx_per_pipe[3], 1);
    assert_eq!(t.dup_per_pipe[3], 1);
    assert_eq!(t.ack_tx_per_pipe, [0; 8]);
    s.radio_quiesced(RadioQuiesceResult::TimedOutForcedReset);
    s.radio_quiesced(RadioQuiesceResult::Disabled);
    assert_eq!(s.state.counters.radio_disable_timeout, 1);
}

#[test]
fn prx_session_reports_every_batch() {
    let mut slot = PrxSlotConfig::for_profile(CoexistenceProfile::DiagnosticPipe1Prx8ms);
    slot.report_every = 2;
    let (mut s, mut session, mut ops) = listening(slot);
    for _ in 0..2 {
        assert_eq!(prx_slot(&mut s, &mut ops), answer(SlotAction::Request));
        assert!(session.next_report(&mut s).is_none());
        assert_eq!(prx_slot(&mut s, &mut ops), answer(SlotAction::Request));
        let report = session.next_report(&mut s).unwrap().unwrap();
        assert_eq!(report.counters.start, 2);
        assert_eq!(report.counters.timer0, 2);
        assert_eq!(report.slot_length_us, 8000);
        assert_eq!(report.in_slot_match_us, 7600);
        assert_eq!(report.report_every, 2);
        assert_eq!(report.last_request_kind, PRX_REQ_NORMAL);
        assert!(!report.slot_active);
    }
    s.prx_timeslot_callback(TimeslotSignal::Overstayed, heard(0, 0, false), &[0; 256], &mut ops);
    assert!(matches!(session.next_report(&mut s), Some(Err(Error::Mpsl))));
}

#[test]
fn prx_windows_follow_their_plan() {
    let distances = |schedule: PrxScheduleConfig| {
        let mut slot = PrxSlotConfig::for_profile(CoexistenceProfile::DiagnosticPipe1Prx8ms);
        slot.schedule = schedule;
        let (mut s, _, mut ops) = listening(slot);
        let mut found = Vec::new();
        for _ in 0..4 {
            prx_slot(&mut s, &mut ops);
            match s.state.request {
                TimeslotRequest::Normal { distance_us, .. } => found.push(distance_us),
                TimeslotRequest::Earliest(_) => panic!("not at a distance"),
            }
        }
        found
    };
    assert_eq!(distances(PrxScheduleConfig::continuous()), [8000, 8000, 8000, 8000]);
    assert_eq!(distances(PrxScheduleConfig::paced(9000)), [9000, 9000, 9000, 9000]);
    assert_eq!(distances(PrxScheduleConfig::planned_gap(2, 20_000)), [8000, 20_000, 8000, 20_000]);
}

#[test]
fn prx_request_failures_are_told_apart() {
    let slot = PrxSlotConfig::for_profile(CoexistenceProfile::DiagnosticPipe1Prx8ms);
    let (mut s, _, mut ops) = listening(slot);
    let none = heard(0, 0, false);
    assert_eq!(
        s.prx_timeslot_callback(TimeslotSignal::Blocked, none, &[0; 256], &mut ops),
        SUBMIT
    );
    assert_eq!(s.state.requests.earliest_blocked, 1);
    assert_eq!(s.state.request, earliest(SlotPriority::High, 8000, 255_999_999));
    prx_slot(&mut s, &mut ops);
    assert_eq!(s.state.requests.last_kind, PRX_REQ_NORMAL);
    s.prx_timeslot_callback(TimeslotSignal::Cancelled, none, &[0; 256], &mut ops);
    assert_eq!(s.state.requests.normal_cancelled, 1);
    assert_eq!(s.state.requests.last_kind, PRX_REQ_EARLIEST);
}

#[test]
fn prx_chain_ends_after_its_last_slot() {
    let config = EsbConfig::default();
    let mut s = PrxSlots::new(false);
    let mut ops = Vec::new();
    s.enter_chain(&config).unwrap();
    let id = s.run_prx_slots(&config, &EsbAddresses::default(), 6000, 5500, 2, 0x03, Ok(1));
    assert_eq!(id, Ok(1));
    assert_eq!(prx_slot(&mut s, &mut ops), answer(SlotAction::Request));
    assert!(s.poll_chain().is_none());
    assert_eq!(prx_slot(&mut s, &mut ops), answer(SlotAction::End));
    let result = s.poll_chain().unwrap();
    assert_eq!(result.counters.start, 2);
    assert_eq!(result.report_every, 0);
    assert_eq!(result.phase, PrxPhase::Idle.as_u8());
}

#[test]
fn plain_session_counts_signals() {
    let mut s = TimeslotSession::new();
    let mut ops = Vec::new();
    assert_eq!(s.try_enter(), Ok(()));
    assert_eq!(s.try_enter(), Err(Error::Busy));
    s.run_chained_slots(6000, 5500, 2);
    assert_eq!(
        s.request,
        EarliestRequest {
            priority: SlotPriority::Normal,
            length_us: 6000,
            timeout_us: 1_000_000,
        }
    );
    for last in [false, true] {
        let r = s.timeslot_callback(TimeslotSignal::Start, &mut ops);
        assert_eq!(r, answer(SlotAction::Nothing));
        let r = s.timeslot_callback(TimeslotSignal::Timer0, &mut ops);
        if last {
            assert_eq!(r, answer(SlotAction::End));
        } else {
            assert_eq!(r, answer(SlotAction::Request));
        }
    }
    assert_eq!(s.counters, SignalCounters { start: 2, timer0: 2, ..SignalCounters::zero() });
    let r = s.timeslot_callback(TimeslotSignal::Blocked, &mut ops);
    assert_eq!(r, SUBMIT);
    s.request_refused(&mut ops);
    assert!(s.done);
    assert_eq!(s.counters.invalid_return, 1);
    s.leave();
    assert_eq!(s.try_enter(), Ok(()));
}

#[test]
fn signal_counters_saturate() {
    let mut a = SignalCounters::zero();
    a.count(TimeslotSignal::Start);
    a.radio = u32::MAX;
    let mut b = SignalCounters::zero();
    b.count(TimeslotSignal::Start);
    b.count(TimeslotSignal::Radio);
    let sum = a.saturating_add(b);
    assert_eq!((sum.start, sum.radio), (2, u32::MAX));
    let d = b.saturating_sub(a);
    assert_eq!((d.start, d.radio), (0, 0));
    assert!(!a.check_room());
    assert!(b.check_room());
}

#[test]
fn single_slot_ends_at_its_match() {
    let mut s = TimeslotSession::new();
    let mut ops = Vec::new();
    s.run_single_slot(6000, 5500);
    s.timeslot_callback(TimeslotSignal::Start, &mut ops);
    assert!(ops.contains(&HwOp::Timer0(TimerOp::Compare { channel: 0, value: 5500 })));
    assert!(s.poll_done().is_none());
    let r = s.timeslot_callback(TimeslotSignal::Timer0, &mut ops);
    assert_eq!(r, answer(SlotAction::End));
    assert_eq!(s.poll_done().unwrap().start, 1);
    assert_eq!(PtxScheduleGateConfig::conservative_pipe1().lock_miss_limit, 4);
}
