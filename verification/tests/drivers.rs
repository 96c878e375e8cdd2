//! The PTX and PRX drivers.

use embassy_nrf_esb::addresses::EsbAddresses;
use embassy_nrf_esb::config::EsbConfig;
use embassy_nrf_esb::error::Error;
use embassy_nrf_esb::hw::{DmaBuffer, HwOp, RadioOp, TimerOp};
use embassy_nrf_esb::isr::{EsbPrx, EsbPtx, TimeslotPrxDriver};
use embassy_nrf_esb::payload::{PacketPool, SlotState};
use embassy_nrf_esb::prx::PrxSample;
use embassy_nrf_esb::ptx::{PtxSample, PtxStateMachine};
use embassy_nrf_esb::radio::{EsbRadio, RxStatus};
use embassy_nrf_esb::state_machine::{PrxEvent, StatePrx, StatePtx, TimeslotDiagAckContext};
use embassy_nrf_esb::suspend::SavedProtocolState;
use embassy_nrf_esb::timer::EsbTimer;

const QUIET: PtxSample = PtxSample { disabled: false, crc_ok: false };
const DISABLED: PtxSample = PtxSample { disabled: true, crc_ok: false };
const ACKED: PtxSample = PtxSample { disabled: true, crc_ok: true };

fn ptx() -> (EsbPtx<4, 64>, Vec<HwOp>) {
    let mut ops = Vec::new();
    let d = EsbPtx::new(
        PacketPool::new(),
        &EsbConfig::default(),
        &EsbAddresses::default(),
        0,
        false,
        &mut ops,
    )
    .unwrap();
    (d, Vec::new())
}

fn prx() -> (EsbPrx<4, 64>, Vec<HwOp>) {
    let mut ops = Vec::new();
    let d = EsbPrx::new(
        PacketPool::new(),
        &EsbConfig::default(),
        &EsbAddresses::default(),
        false,
        &mut ops,
    )
    .unwrap();
    (d, Vec::new())
}

fn heard(pipe: u8, crc: u16, crc_ok: bool) -> PrxSample {
    PrxSample { disabled: true, status: RxStatus { crc_ok, pipe, crc, rssi: 60 } }
}

/// Put a packet into the buffer that the radio of `d` listens into.
fn on_air(d: &mut EsbPrx<4, 64>, pid: u8, no_ack: bool, payload: &[u8]) {
    let idx = d.sm.core.rx_idx.unwrap();
    let mut h = d.pool.header(idx);
    h.length = payload.len() as u8;
    h.set_pid(pid);
    h.set_no_ack(no_ack);
    d.pool.set_header(idx, h);
    d.pool.write_buf(idx, 4, payload);
}

#[test]
fn invalid_configuration_is_refused_before_anything_is_programmed() {
    let mut config = EsbConfig::default();
    config.payload_length = 0;
    let mut ops = Vec::new();
    let r = EsbPtx::<4, 64>::new(
        PacketPool::new(),
        &config,
        &EsbAddresses::default(),
        0,
        false,
        &mut ops,
    );
    assert!(matches!(r, Err(Error::InvalidParam)));
    let r = EsbPrx::<4, 64>::new(
        PacketPool::new(),
        &config,
        &EsbAddresses::default(),
        false,
        &mut ops,
    );
    assert!(matches!(r, Err(Error::InvalidParam)));
    let r = EsbPrx::<4, 64>::new_timeslot(
        PacketPool::new(),
        &config,
        &EsbAddresses::default(),
        false,
        &mut ops,
    );
    assert!(matches!(r, Err(Error::InvalidParam)));
    assert!(ops.is_empty());
}

#[test]
fn send_checks_pipe_and_length() {
    let (mut d, mut ops) = ptx();
    assert_eq!(d.send_to(8, &[1], &mut ops), Err(Error::InvalidParam));
    assert_eq!(d.send_to(0, &[], &mut ops), Err(Error::InvalidParam));
    assert_eq!(d.send_to(0, &[0; 33], &mut ops), Err(Error::InvalidParam));
    assert_eq!(d.send_to(0, &[0; 32], &mut ops), Ok(()));
    assert_eq!(ops, [HwOp::PendRadio]);
}

#[test]
fn send_checks_the_buffer_size() {
    let mut ops = Vec::new();
    let mut d = EsbPtx::<2, 16>::new(
        PacketPool::new(),
        &EsbConfig::default(),
        &EsbAddresses::default(),
        0,
        false,
        &mut ops,
    )
    .unwrap();
    assert_eq!(d.send(&[0; 13], &mut ops), Err(Error::InvalidParam));
    assert_eq!(d.send(&[0; 12], &mut ops), Ok(()));
}

#[test]
fn send_reports_a_full_pool() {
    let (mut d, mut ops) = ptx();
    for _ in 0..4 {
        assert_eq!(d.send(&[1], &mut ops), Ok(()));
    }
    assert_eq!(d.send(&[1], &mut ops), Err(Error::TxFull));
    assert_eq!(d.send_no_ack(&[1], &mut ops), Err(Error::TxFull));
}

#[test]
fn queued_packet_is_transmitted_on_its_own_pipe() {
    let (mut d, mut ops) = ptx();
    d.send_to(3, &[9, 8, 7], &mut ops).unwrap();
    d.set_pipe(5, &mut ops);
    ops.clear();

    d.on_radio_interrupt(QUIET, &mut ops);
    assert_eq!(d.state(), StatePtx::Tx);
    assert!(ops.contains(&HwOp::Radio(RadioOp::TxAddress(3))));
    assert!(ops.contains(&HwOp::Radio(RadioOp::RxAddresses(1 << 3))));
    assert!(ops.contains(&HwOp::Radio(RadioOp::PacketPtr(DmaBuffer::Pool(0)))));
    assert_eq!(ops.last(), Some(&HwOp::UnpendRadio));
    assert_eq!(&d.pool.buf(0)[4..7], &[9, 8, 7]);
    assert_eq!(d.pool.header(0).length, 3);
    assert_eq!(d.pool.header(0).pid(), 0);
}

#[test]
fn default_pipe_is_used_and_bad_pipes_are_ignored() {
    let (mut d, mut ops) = ptx();
    d.set_pipe(5, &mut ops);
    assert_eq!(ops, [HwOp::MaskRadio, HwOp::UnpendRadio, HwOp::UnmaskRadio]);
    ops.clear();
    d.set_pipe(8, &mut ops);
    assert!(ops.is_empty());
    d.send_no_ack(&[1], &mut ops).unwrap();
    assert_eq!(d.pool.header(0).pipe, 5);
    assert!(d.pool.header(0).no_ack());
}

#[test]
fn acknowledged_packet_advances_the_pid_and_frees_its_buffers() {
    let (mut d, mut ops) = ptx();
    d.send(&[1, 2], &mut ops).unwrap();
    d.send(&[3], &mut ops).unwrap();
    d.on_radio_interrupt(QUIET, &mut ops);
    d.on_radio_interrupt(DISABLED, &mut ops);
    assert_eq!(d.state(), StatePtx::WaitAck);
    d.on_radio_interrupt(ACKED, &mut ops);

    // The second packet follows at once, under the next PID.
    assert_eq!(d.state(), StatePtx::Tx);
    assert_eq!(d.sm.pid(), 1);
    assert_eq!(d.pool.slot(0), SlotState::Free);
    assert_eq!(d.pool.header(1).pid(), 1);
    assert!(!d.max_attempts_reached());
}

#[test]
fn ack_payload_reaches_the_application() {
    let (mut d, mut ops) = ptx();
    d.send(&[1], &mut ops).unwrap();
    d.on_radio_interrupt(QUIET, &mut ops);
    d.on_radio_interrupt(DISABLED, &mut ops);
    let idx = d.sm.ack_rx_idx.unwrap();
    let mut h = d.pool.header(idx);
    h.length = 2;
    h.pipe = 0;
    h.rssi = 42;
    d.pool.set_header(idx, h);
    d.pool.write_buf(idx, 4, &[0xAA, 0xBB]);
    d.on_radio_interrupt(ACKED, &mut ops);
    assert!(d.is_tx_idle());

    let index = {
        let p = d.try_receive().unwrap();
        assert_eq!(p.payload(), &[0xAA, 0xBB]);
        assert_eq!(p.len(), 2);
        assert!(!p.is_empty());
        assert_eq!(p.pipe(), 0);
        assert_eq!(p.rssi(), 42);
        p.index()
    };
    assert_eq!(index, idx);
    assert_eq!(d.pool.slot(index), SlotState::RxQueued);
    d.release(index);
    assert_eq!(d.pool.slot(index), SlotState::Free);
    assert!(d.try_receive().is_none());
}

#[test]
fn packet_is_given_up_after_the_last_attempt() {
    let (mut d, mut ops) = ptx();
    d.send(&[1], &mut ops).unwrap();
    d.on_radio_interrupt(QUIET, &mut ops);
    let mut transmissions = 1;
    loop {
        d.on_radio_interrupt(DISABLED, &mut ops);
        assert_eq!(d.state(), StatePtx::WaitAck);
        d.on_timer_interrupt(false, true, &mut ops);
        d.on_radio_interrupt(QUIET, &mut ops);
        if d.state() == StatePtx::Idle {
            break;
        }
        assert_eq!(d.state(), StatePtx::WaitRetransmit);
        d.on_timer_interrupt(true, false, &mut ops);
        d.on_radio_interrupt(QUIET, &mut ops);
        assert_eq!(d.state(), StatePtx::Tx);
        transmissions += 1;
    }
    assert_eq!(transmissions, 3);
    assert!(d.max_attempts_reached());
    assert!(!d.max_attempts_reached());
    assert_eq!(d.pool.slot(0), SlotState::Free);
    assert_eq!(d.sm.pid(), 1);
}

#[test]
fn timer_interrupt_sets_the_flag_and_pends_the_radio() {
    let (mut d, mut ops) = ptx();
    d.on_timer_interrupt(true, false, &mut ops);
    assert!(d.timer_flag);
    assert_eq!(ops.last(), Some(&HwOp::PendRadio));
    d.on_radio_interrupt(QUIET, &mut ops);
    assert!(!d.timer_flag);

    let (mut r, mut ops) = prx();
    r.on_timer_interrupt(false, true, &mut ops);
    assert!(r.timer_flag);
    assert!(!ops.contains(&HwOp::PendRadio));
}

#[test]
fn ptx_suspends_when_idle_and_resumes() {
    let (mut d, mut ops) = ptx();
    d.send(&[1], &mut ops).unwrap();
    d.on_radio_interrupt(QUIET, &mut ops);
    ops.clear();
    assert_eq!(d.try_suspend(&mut ops).err(), Some(Error::Busy));
    assert_eq!(ops, [HwOp::MaskRadio, HwOp::UnmaskRadio]);

    assert!(d.suspend(&mut ops).is_none());
    assert!(d.suspend_requested);
    d.on_radio_interrupt(DISABLED, &mut ops);
    ops.clear();
    d.on_radio_interrupt(ACKED, &mut ops);
    assert!(ops.contains(&HwOp::WakeSuspend));
    let saved = d.suspend(&mut ops).unwrap();
    assert!(!d.suspend_requested);
    assert_eq!(saved.protocol_state, SavedProtocolState::Idle);
    assert_eq!(ops.last(), Some(&HwOp::UnpendRadio));
    assert!(!ops.contains(&HwOp::UnmaskRadio));
    assert!(ops.contains(&HwOp::Timer(TimerOp::Stop)));

    ops.clear();
    d.restore(&saved, &EsbAddresses::default(), &mut ops);
    assert_eq!(ops[0], HwOp::Radio(RadioOp::Power(false)));
    assert_eq!(ops[ops.len() - 2..], [HwOp::UnpendRadio, HwOp::UnmaskRadio]);
    assert_eq!(d.state(), StatePtx::Idle);
}

#[test]
fn cancelled_suspend_lets_the_transmitter_go_on() {
    let (mut d, mut ops) = ptx();
    d.send(&[1], &mut ops).unwrap();
    d.send(&[2], &mut ops).unwrap();
    d.on_radio_interrupt(QUIET, &mut ops);
    assert!(d.suspend(&mut ops).is_none());
    d.cancel_suspend();
    d.on_radio_interrupt(DISABLED, &mut ops);
    d.on_radio_interrupt(ACKED, &mut ops);
    assert_eq!(d.state(), StatePtx::Tx);
}

#[test]
fn prx_receives_acknowledges_and_delivers() {
    let (mut d, mut ops) = prx();
    d.send_ack_payload(2, &[0x55, 0x66]).unwrap();
    d.start_listening(&mut ops).unwrap();
    assert_eq!(d.state(), StatePrx::Receiver);
    on_air(&mut d, 1, false, &[1, 2, 3]);
    ops.clear();

    d.on_radio_interrupt(heard(2, 0x1234, true), &mut ops);
    assert_eq!(d.state(), StatePrx::TxAck);
    // The queued payload for the pipe goes out with the ACK.
    assert!(ops.contains(&HwOp::Radio(RadioOp::PacketPtr(DmaBuffer::Pool(0)))));
    assert!(d.receive().is_none());

    d.on_radio_interrupt(heard(2, 0, true), &mut ops);
    assert_eq!(d.state(), StatePrx::Receiver);
    let p = d.receive().unwrap();
    assert_eq!(p.payload(), &[1, 2, 3]);
    assert_eq!(p.pipe(), 2);
    assert_eq!(p.rssi(), 60);
    let index = p.index();
    d.release(index);
    assert_eq!(d.pool.slot(index), SlotState::Free);
}

#[test]
fn prx_delivers_a_repeated_packet_once() {
    let (mut d, mut ops) = prx();
    d.start_listening(&mut ops).unwrap();
    on_air(&mut d, 1, false, &[7]);
    d.on_radio_interrupt(heard(0, 99, true), &mut ops);
    d.on_radio_interrupt(heard(0, 0, true), &mut ops);
    on_air(&mut d, 1, false, &[7]);
    d.on_radio_interrupt(heard(0, 99, true), &mut ops);
    assert_eq!(d.state(), StatePrx::TxRepeatedAck);
    d.on_radio_interrupt(heard(0, 0, true), &mut ops);
    assert_eq!(d.state(), StatePrx::Receiver);
    assert!(d.receive().is_some());
    assert!(d.receive().is_none());
}

#[test]
fn prx_restarts_after_a_bad_crc() {
    let (mut d, mut ops) = prx();
    d.start_listening(&mut ops).unwrap();
    on_air(&mut d, 1, false, &[7]);
    d.on_radio_interrupt(heard(0, 99, false), &mut ops);
    assert_eq!(d.state(), StatePrx::Receiver);
    assert!(d.receive().is_none());
}

#[test]
fn prx_delivers_packets_without_ack_at_once() {
    let (mut d, mut ops) = prx();
    d.start_listening(&mut ops).unwrap();
    on_air(&mut d, 2, true, &[7, 8]);
    d.on_radio_interrupt(heard(4, 5, true), &mut ops);
    assert_eq!(d.state(), StatePrx::Receiver);
    assert_eq!(d.receive().unwrap().payload(), &[7, 8]);
}

#[test]
fn ack_payload_is_checked_and_kept_for_its_pipe() {
    let (mut d, mut ops) = prx();
    assert_eq!(d.send_ack_payload(8, &[1]), Err(Error::InvalidParam));
    assert_eq!(d.send_ack_payload(0, &[]), Err(Error::InvalidParam));
    assert_eq!(d.send_ack_payload(0, &[0; 33]), Err(Error::InvalidParam));
    d.send_ack_payload(1, &[0x11]).unwrap();
    d.start_listening(&mut ops).unwrap();
    on_air(&mut d, 0, false, &[1]);
    ops.clear();
    d.on_radio_interrupt(heard(0, 1, true), &mut ops);
    // The payload waits for pipe 1; pipe 0 gets an empty ACK.
    assert!(ops.contains(&HwOp::Radio(RadioOp::PacketPtr(DmaBuffer::FallbackAck))));
    assert_eq!(d.pool.slot(0), SlotState::TxQueued);
}

#[test]
fn listening_needs_a_free_buffer() {
    let (mut d, mut ops) = prx();
    for _ in 0..4 {
        d.send_ack_payload(0, &[1]).unwrap();
    }
    assert_eq!(d.send_ack_payload(0, &[1]), Err(Error::TxFull));
    assert_eq!(d.start_listening(&mut ops), Err(Error::OutOfMemory));
    assert_eq!(d.state(), StatePrx::Idle);
}

#[test]
fn prx_stops_and_suspends() {
    let (mut d, mut ops) = prx();
    d.start_listening(&mut ops).unwrap();
    d.stop(true, &mut ops);
    assert_eq!(d.state(), StatePrx::Idle);
    assert_eq!(d.pool.slot(0), SlotState::Free);

    d.start_listening(&mut ops).unwrap();
    on_air(&mut d, 1, false, &[7]);
    d.on_radio_interrupt(heard(0, 99, true), &mut ops);
    assert_eq!(d.try_suspend(true, &mut ops).err(), Some(Error::Busy));
    assert!(d.suspend(true, &mut ops).is_none());
    ops.clear();
    d.on_radio_interrupt(heard(0, 0, true), &mut ops);
    assert!(ops.contains(&HwOp::WakeSuspend));
    let saved = d.suspend(true, &mut ops).unwrap();
    assert_eq!(saved.pid[0], 1);
    assert_eq!(saved.last_crc[0], 99);
    assert!(saved.last_valid[0]);

    // The same packet is still a copy after the resume.
    d.restore(&saved, &EsbAddresses::default(), &mut ops);
    d.start_listening(&mut ops).unwrap();
    on_air(&mut d, 1, false, &[7]);
    d.on_radio_interrupt(heard(0, 99, true), &mut ops);
    assert_eq!(d.state(), StatePrx::TxRepeatedAck);
}

#[test]
fn timeslot_receiver_runs_within_slots() {
    let mut ops = Vec::new();
    let mut d = EsbPrx::<4, 64>::new_timeslot(
        PacketPool::new(),
        &EsbConfig::default(),
        &EsbAddresses::default(),
        false,
        &mut ops,
    )
    .unwrap();
    assert!(!ops.contains(&HwOp::UnmaskRadio));
    d.ts_configure(&EsbAddresses::default(), 0x03);
    assert_eq!(d.ts_last_pipe(), 0xFF);

    d.ts_start_rx([0; 8], [0; 8], [false; 8], &mut ops).unwrap();
    assert_eq!(d.state(), StatePrx::Receiver);
    d.ts_set_diag_ack_context(TimeslotDiagAckContext {
        window_id: 3,
        next_delay_us: 100,
        period_us: 5000,
        window_us: 4500,
    });
    on_air(&mut d, 1, false, &[7]);
    ops.clear();
    let (event, index) = d.ts_on_radio(heard(1, 77, true), &mut ops);
    assert_eq!(event, PrxEvent::Received);
    assert!(index.is_some());
    assert!(ops.contains(&HwOp::Radio(RadioOp::PacketPtr(DmaBuffer::DiagAck))));
    assert_eq!(d.ts_last_pipe(), 1);
    let (event, _) = d.ts_on_radio(heard(1, 0, true), &mut ops);
    assert_eq!(event, PrxEvent::Nothing);
    d.ts_discard_received();
    assert!(d.receive().is_none());

    let (pid, crc, valid) = d.ts_snapshot_dup_state();
    assert_eq!((pid[1], crc[1], valid[1]), (1, 77, true));
    d.ts_force_stop(true, &mut ops);
    assert_eq!(d.state(), StatePrx::Idle);

    // The next slot still knows the packet.
    d.ts_start_rx(pid, crc, valid, &mut ops).unwrap();
    on_air(&mut d, 1, false, &[7]);
    let (event, _) = d.ts_on_radio(heard(1, 77, true), &mut ops);
    assert_eq!(event, PrxEvent::Duplicate);
}

/// A slot through the interface that a callback uses.
fn one_slot<D: TimeslotPrxDriver>(d: &mut D, ops: &mut Vec<HwOp>) -> (PrxEvent, u8) {
    let (pid, crc, valid) = d.ts_snapshot_dup_state();
    d.ts_start_rx(pid, crc, valid, ops).unwrap();
    let (event, _) = d.ts_on_radio(heard(6, 1, false), ops);
    d.ts_discard_received();
    d.ts_force_stop(true, ops);
    (event, d.ts_last_pipe())
}

#[test]
fn timeslot_receiver_is_driven_through_its_interface() {
    let mut ops = Vec::new();
    let mut d = EsbPrx::<2, 32>::new_timeslot(
        PacketPool::new(),
        &EsbConfig::default(),
        &EsbAddresses::default(),
        false,
        &mut ops,
    )
    .unwrap();
    assert_eq!(one_slot(&mut d, &mut ops), (PrxEvent::BadCrc, 6));
}

#[test]
fn received_queue_is_first_in_first_out_and_bounded() {
    let mut pool = PacketPool::<3, 16>::new();
    for _ in 0..3 {
        let i = pool.alloc_dma_buffer().unwrap();
        pool.rx_complete(i);
    }
    // A fourth completion of a buffer that is already queued finds no room.
    pool.rx_complete(0);
    assert_eq!(pool.try_receive_rx(), Some(0));
    assert_eq!(pool.try_receive_rx(), Some(1));
    assert_eq!(pool.try_receive_rx(), Some(2));
    assert_eq!(pool.try_receive_rx(), None);
}

#[test]
fn timeslot_transmitter_sends_what_is_queued() {
    let mut ops = Vec::new();
    let mut pool = PacketPool::<4, 64>::new();
    let timer = EsbTimer::new(&mut ops);
    let mut sm = PtxStateMachine::new(EsbRadio::new(false), timer, &EsbConfig::default(), 0);
    sm.set_addresses(&EsbAddresses::default());
    let i = pool.alloc_tx().unwrap();
    pool.enqueue_tx(i);
    sm.ts_start_tx(&mut pool, [0; 8], [0; 8], [false; 8], &mut ops).unwrap();
    assert_eq!(sm.state(), StatePtx::Tx);
    assert_eq!(pool.slot(i), SlotState::InDma);
    sm.ts_force_stop(&mut pool, &mut ops);
    assert_eq!(sm.state(), StatePtx::Idle);

    let i = pool.alloc_tx().unwrap();
    pool.tx_to_dma(i);
    assert_eq!(pool.slot(i), SlotState::TxAllocated);
    pool.enqueue_tx(i);
    pool.tx_to_dma(i);
    assert_eq!(pool.slot(i), SlotState::InDma);
}
