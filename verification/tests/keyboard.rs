//! Matrix, keymap, reports, and the link between the halves.

use embassy_nrf_esb::event_sender::{
    keepalive_ms, link_mode_id, link_timing_config, EventSender, SendOutcome, SendStep,
};
use embassy_nrf_esb::hid::{build_report, HidRound};
use embassy_nrf_esb::keymap::{hid_for_pos, key_id_to_pos, HidUsage, TOTAL_KEYS};
use embassy_nrf_esb::matrix::{KeyEvent, Matrix};
use embassy_nrf_esb::mpsl_schedule::{LinkTimingMode, ScheduleHint};
use embassy_nrf_esb::mpsl_timeslot::SignalCounters;
use embassy_nrf_esb::mpsl_common::{
    app_payload, write_counter_packet, write_counter_payload_packet, write_counter_schedule_packet,
};
use embassy_nrf_esb::right_half::{
    extend_ack, read_transport_ack, right_transport_ack_extension, RightEvent, RightHalf,
    RIGHT_DEVICE_ID, RIGHT_PIPE,
};
use embassy_nrf_esb::transport::{
    decode_frame, decode_transport_ack, encode_frame, SequenceTracker, StaticBindingTable,
    TransportAck, FLAG_RETRANSMIT,
};

fn bindings() -> StaticBindingTable<8> {
    let mut b = StaticBindingTable::new();
    b.bind(RIGHT_PIPE, RIGHT_DEVICE_ID).unwrap();
    b
}

fn frame(sequence: u8, payload: &[u8]) -> Vec<u8> {
    let mut out = [0u8; 32];
    let n = encode_frame(RIGHT_DEVICE_ID, sequence, 0, payload, &mut out).unwrap();
    out[..n].to_vec()
}

#[test]
fn scan_gives_each_edge_once() {
    let mut m = Matrix::new();
    assert!(!m.any_held());
    let read = [true, false, false, true, false];
    assert_eq!(
        m.scan_column(7, 2, &read),
        [
            KeyEvent { key_id: 2, pressed: true },
            KeyEvent { key_id: 23, pressed: true },
        ]
    );
    assert_eq!(m.rows, [0b100, 0, 0, 0b100, 0]);
    assert!(m.any_held());
    assert!(m.scan_column(7, 2, &read).is_empty());
    assert_eq!(
        m.scan_column(7, 2, &[false, false, false, true, false]),
        [KeyEvent { key_id: 2, pressed: false }]
    );
    assert_eq!(m.rows, [0, 0, 0, 0b100, 0]);
    // Another column leaves this one alone.
    assert_eq!(m.scan_column(8, 7, &[false, false, false, false, true]).len(), 1);
    assert_eq!(m.rows, [0, 0, 0, 0b100, 0b1000_0000]);
}

#[test]
fn keys_have_positions() {
    assert_eq!(key_id_to_pos(0), Some(0));
    assert_eq!(key_id_to_pos(6), Some(6));
    assert_eq!(key_id_to_pos(7), Some(15));
    assert_eq!(key_id_to_pos(34), Some(66));
    assert_eq!(key_id_to_pos(35), None);
    assert_eq!(key_id_to_pos(63), None);
    assert_eq!(key_id_to_pos(64), Some(7));
    assert_eq!(key_id_to_pos(72), Some(22));
    assert_eq!(key_id_to_pos(103), Some(74));
    assert_eq!(key_id_to_pos(104), None);
    let mut seen = [false; TOTAL_KEYS];
    for id in 0..=255u8 {
        if let Some(p) = key_id_to_pos(id) {
            assert!(!seen[p]);
            seen[p] = true;
        }
    }
    assert!(seen.iter().all(|s| *s));
}

#[test]
fn keys_have_usages() {
    assert_eq!(hid_for_pos(0, 0), Some(HidUsage { modifier: 0, key: 0x29 }));
    assert_eq!(hid_for_pos(3, 0), Some(HidUsage { modifier: 0x02, key: 0 }));
    assert_eq!(hid_for_pos(4, 0), Some(HidUsage { modifier: 0x01, key: 0 }));
    assert_eq!(hid_for_pos(4, 1), Some(HidUsage { modifier: 0x08, key: 0 }));
    assert_eq!(hid_for_pos(4, 3), None);
    assert_eq!(hid_for_pos(4, 14), Some(HidUsage { modifier: 0, key: 0x4f }));
}

#[test]
fn report_holds_modifiers_and_six_keys() {
    let mut active = [false; TOTAL_KEYS];
    assert_eq!(build_report(&active), [0; 8]);
    active[45] = true; // left shift
    active[16] = true; // Q
    assert_eq!(build_report(&active), [0x02, 0, 0x14, 0, 0, 0, 0, 0]);
    // Both space bars are one usage.
    active[64] = true;
    active[67] = true;
    assert_eq!(build_report(&active), [0x02, 0, 0x14, 0x2c, 0, 0, 0, 0]);
    for pos in 0..8 {
        active[pos] = true;
    }
    assert_eq!(build_report(&active), [0x02, 0, 0x29, 0x1e, 0x1f, 0x20, 0x21, 0x22]);
}

#[test]
fn round_reports_changes_only() {
    let mut round = HidRound::new();
    let mut right = RightHalf::new();
    assert_eq!(round.start(&mut right, false, true, 1000), None);
    assert_eq!(round.finish(), None);
    round.on_events(&[
        KeyEvent { key_id: 8, pressed: true },
        KeyEvent { key_id: 40, pressed: true },
    ]);
    assert_eq!(round.finish(), Some([0, 0, 0x14, 0, 0, 0, 0, 0]));
    round.start(&mut right, false, true, 1001);
    round.on_event(KeyEvent { key_id: 8, pressed: true });
    assert_eq!(round.finish(), None);
    round.start(&mut right, true, true, 1002);
    assert_eq!(round.finish(), Some([0; 8]));
}

#[test]
fn snapshot_reaches_the_report() {
    let mut round = HidRound::new();
    let mut right = RightHalf::new();
    let mut tracker = SequenceTracker::<8>::new();
    let f = frame(5, &[0x53, 0b11, 0, 0, 0, 0]);
    let event = right.handle_frame(&bindings(), &mut tracker, RIGHT_PIPE, &f, 100);
    assert_eq!(event, RightEvent::Snapshot(2));
    assert!(right.dirty);
    assert_eq!((right.sequence, right.last_seen_ms), (5, 100));
    round.start(&mut right, false, true, 101);
    assert!(round.right_changed);
    assert!(!right.dirty);
    assert_eq!(round.finish(), Some([0, 0, 0x24, 0x25, 0, 0, 0, 0]));

    // The same frame again changes nothing.
    let event = right.handle_frame(&bindings(), &mut tracker, RIGHT_PIPE, &f, 200);
    assert_eq!(event, RightEvent::Repeated);
    assert_eq!(right.last_seen_ms, 100);
    // The same rows under a new number are heard, but no change.
    let f = frame(6, &[0x53, 0b11, 0, 0, 0, 0]);
    let event = right.handle_frame(&bindings(), &mut tracker, RIGHT_PIPE, &f, 200);
    assert_eq!(event, RightEvent::Snapshot(0));
    assert_eq!((right.sequence, right.last_seen_ms, right.dirty), (5, 200, false));
}

#[test]
fn silent_link_releases_the_keys() {
    let mut round = HidRound::new();
    let mut right = RightHalf::new();
    let mut tracker = SequenceTracker::<8>::new();
    let f = frame(5, &[0x53, 1, 0, 0, 0, 0]);
    right.handle_frame(&bindings(), &mut tracker, RIGHT_PIPE, &f, 100);
    assert_eq!(round.start(&mut right, false, true, 600), None);
    assert_eq!(round.finish(), Some([0, 0, 0x24, 0, 0, 0, 0, 0]));
    assert_eq!(round.start(&mut right, false, false, 601), None);
    assert_eq!(round.start(&mut right, false, true, 601), Some(501));
    assert_eq!(round.finish(), Some([0; 8]));
    assert_eq!(round.start(&mut right, false, true, 5000), None);
}

#[test]
fn other_frames_of_the_right_half() {
    let mut right = RightHalf::new();
    let mut tracker = SequenceTracker::<8>::new();
    let b = bindings();
    assert_eq!(
        right.handle_frame(&b, &mut tracker, RIGHT_PIPE, &frame(1, &[3, 1]), 10),
        RightEvent::Key(KeyEvent { key_id: 67, pressed: true })
    );
    assert_eq!(
        right.handle_frame(&b, &mut tracker, RIGHT_PIPE, &frame(2, &[3, 0]), 10),
        RightEvent::Key(KeyEvent { key_id: 67, pressed: false })
    );
    assert_eq!(
        right.handle_frame(&b, &mut tracker, RIGHT_PIPE, &frame(3, &[40, 1]), 10),
        RightEvent::BadKey
    );
    assert_eq!(
        right.handle_frame(&b, &mut tracker, RIGHT_PIPE, &frame(4, &[1, 2, 3]), 10),
        RightEvent::BadLength
    );
    // Another pipe is not bound, and bytes that are no frame are refused.
    assert_eq!(
        right.handle_frame(&b, &mut tracker, 2, &frame(5, &[3, 1]), 10),
        RightEvent::Invalid
    );
    assert_eq!(
        right.handle_frame(&b, &mut tracker, RIGHT_PIPE, &[9, 9], 10),
        RightEvent::Invalid
    );
    right.clear_right_keys();
    assert!(right.dirty);
}

#[test]
fn transport_ack_confirms_a_frame() {
    let f = frame(7, &[0x53, 0, 0, 0, 0, 0]);
    let ack = right_transport_ack_extension(RIGHT_PIPE, &f, true).unwrap();
    assert_eq!(decode_transport_ack(&ack), Ok(TransportAck::new(RIGHT_DEVICE_ID, 7)));
    assert_eq!(right_transport_ack_extension(RIGHT_PIPE, &f, false), None);
    assert_eq!(right_transport_ack_extension(2, &f, true), None);
    assert_eq!(right_transport_ack_extension(RIGHT_PIPE, &f[..3], true), None);
    let mut other = [0u8; 16];
    let n = encode_frame(3, 7, 0, &[1], &mut other).unwrap();
    assert_eq!(right_transport_ack_extension(RIGHT_PIPE, &other[..n], true), None);
}

fn outcome(ack_ok: bool, hint: Option<ScheduleHint>, ack: Option<TransportAck>) -> SendOutcome {
    SendOutcome { ack_ok, counters: SignalCounters::zero(), hint, ack }
}

#[test]
fn event_is_sent_until_confirmed() {
    let mut m = Matrix::new();
    m.scan_column(8, 1, &[true, false, false, false, false]);
    let mut s = EventSender::new();
    assert_eq!(s.begin(&m, 1000), 0);
    assert_eq!(s.event.fallback_count, 1);
    assert_eq!((s.sequence, s.event_count), (1, 1));

    let first = s.next_frame();
    let (header, payload) = decode_frame(&first).unwrap();
    assert_eq!((header.device_id, header.sequence, header.flags), (RIGHT_DEVICE_ID, 0, 0));
    assert_eq!(payload, &[0x53, 0b10, 0, 0, 0, 0][..]);
    assert_eq!(s.sent(outcome(false, None, None), 1500, false), SendStep::Retry);
    assert_eq!(s.retry_wait(1500), 250);

    let second = s.next_frame();
    let (header, _) = decode_frame(&second).unwrap();
    assert_eq!((header.sequence, header.flags), (0, FLAG_RETRANSMIT));
    // A radio ACK alone does not confirm, nor does another sequence number.
    assert_eq!(s.sent(outcome(true, None, None), 2000, false), SendStep::Retry);
    let stale = TransportAck::new(RIGHT_DEVICE_ID, 9);
    assert_eq!(s.sent(outcome(true, None, Some(stale)), 2000, false), SendStep::Retry);
    assert_eq!(s.event.last_ack_seq, 9);
    let good = TransportAck::new(RIGHT_DEVICE_ID, 0);
    assert_eq!(s.sent(outcome(true, None, Some(good)), 2000, true), SendStep::Acked);
    assert_eq!((s.total_acked, s.total_sends), (1, 2));
    assert_eq!((s.event.radio_ack_count, s.event.transport_ack_count), (3, 2));

    s.begin(&m, 3000);
    assert_eq!(s.event.sequence, 1);
    s.next_frame();
    assert_eq!(s.send_failed(), 250);
    assert_eq!(s.sent(outcome(false, None, None), 3500, true), SendStep::Superseded);
}

#[test]
fn hint_times_the_next_attempt() {
    let m = Matrix::new();
    let mut s = EventSender::new();
    s.begin(&m, 0);
    s.next_frame();
    let hint = ScheduleHint::new(0, 4, 1500, 5000, 4500);
    let ack = TransportAck::new(RIGHT_DEVICE_ID, 0);
    s.sent(outcome(true, Some(hint), Some(ack)), 10_000, false);
    assert_eq!(s.link.snapshot(10_000).mode, LinkTimingMode::Synced);
    // The window opens at 11,500; the wait ends 400 before it.
    assert_eq!(s.begin(&m, 10_000), 1100);
    assert_eq!(s.event.fallback_count, 0);
    // Near the window the gap between attempts is kept.
    assert_eq!(s.retry_wait(11_000), 500);
    assert_eq!(s.event.wait_us, 1600);
}

#[test]
fn held_keys_keep_the_link_alive() {
    let mut m = Matrix::new();
    assert_eq!(keepalive_ms(&m), None);
    m.scan_column(8, 0, &[false, false, true, false, false]);
    assert_eq!(keepalive_ms(&m), Some(100));
    assert_eq!(link_mode_id(LinkTimingMode::Unsynced), 0);
    assert_eq!(link_mode_id(LinkTimingMode::Synced), 1);
    assert_eq!(link_mode_id(LinkTimingMode::Degraded), 2);
    let c = link_timing_config();
    assert_eq!((c.hint_valid_us, c.max_wait_us), (200_000, 2_000));
    assert_eq!((c.window_guard_us, c.miss_limit), (400, 4));
}

#[test]
fn extended_ack_reads_back_whole() {
    let hint = ScheduleHint::new(0, 4, 1500, 5000, 4500);
    let mut buf = [0u8; 256];
    write_counter_schedule_packet(&mut buf, 0, 77, hint);
    assert_eq!(read_transport_ack(&buf), None);
    let f = frame(7, &[0x53, 0, 0, 0, 0, 0]);
    let extension = right_transport_ack_extension(RIGHT_PIPE, &f, true).unwrap();
    assert!(extend_ack(&mut buf, &extension));
    assert_eq!(buf[2], 28);
    assert!(!extend_ack(&mut buf, &extension));
    let good = SendOutcome::read(true, SignalCounters::zero(), &buf);
    assert_eq!(good.hint, Some(hint));
    assert_eq!(good.ack, Some(TransportAck::new(RIGHT_DEVICE_ID, 7)));
    let missed = SendOutcome::read(false, SignalCounters::zero(), &buf);
    assert_eq!((missed.hint, missed.ack), (None, None));

    let mut plain = [0u8; 256];
    write_counter_packet(&mut plain, 0, 77);
    assert!(!extend_ack(&mut plain, &extension));
}

#[test]
fn frame_stands_behind_the_counter() {
    let mut rx = [0u8; 256];
    assert_eq!(app_payload(&rx), None);
    rx[2] = 3;
    assert_eq!(app_payload(&rx), None);
    rx[2] = 253;
    assert_eq!(app_payload(&rx), None);
    rx[2] = 4;
    assert_eq!(app_payload(&rx), Some(&[][..]));
    assert!(write_counter_payload_packet(&mut rx, 1, 0x0102_0304, &[0xAA, 0xBB]));
    assert_eq!(rx[2], 6);
    assert_eq!(app_payload(&rx), Some(&[0xAA, 0xBB][..]));
}

#[test]
fn event_crosses_from_the_staged_packet_to_the_rows_and_back() {
    let mut m = Matrix::new();
    m.scan_column(8, 1, &[true, false, false, false, false]);
    let mut s = EventSender::new();
    s.begin(&m, 1000);
    let mut air = [0u8; 256];
    assert!(write_counter_payload_packet(&mut air, 0, 0xDEAD_BEEF, &s.next_frame()));

    let mut right = RightHalf::new();
    let mut tracker = SequenceTracker::<8>::new();
    let f = app_payload(&air).unwrap();
    let event = right.handle_frame(&bindings(), &mut tracker, RIGHT_PIPE, f, 100);
    assert_eq!(event, RightEvent::Snapshot(1));
    assert_eq!(right.rows.rows, m.rows);

    let hint = ScheduleHint::new(0, 4, 1500, 5000, 4500);
    let mut ack = [0u8; 256];
    write_counter_schedule_packet(&mut ack, 0, 1, hint);
    let extension = right_transport_ack_extension(RIGHT_PIPE, f, true).unwrap();
    assert!(extend_ack(&mut ack, &extension));
    let outcome = SendOutcome::read(true, SignalCounters::zero(), &ack);
    assert_eq!(s.sent(outcome, 2000, false), SendStep::Acked);
}
