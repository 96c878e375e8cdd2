//! Helpers of the timeslot layer.

use embassy_nrf_esb::mpsl_common::{
    NUM_PIPES, advance_pid, delta_per_pipe, next_pipe_in_mask, read_counter_payload,
    spin_until, write_counter_packet, write_counter_schedule_packet,
};
use embassy_nrf_esb::header::EsbHeader;
use embassy_nrf_esb::mpsl_schedule::{
    SCHEDULE_COUNTER_HINT_PAYLOAD_LEN, ScheduleHint, decode_counter_payload_schedule_hint,
};

#[test]
fn pid_advances_in_two_bit_space() {
    assert_eq!(advance_pid(0), 1);
    assert_eq!(advance_pid(1), 2);
    assert_eq!(advance_pid(2), 3);
    assert_eq!(advance_pid(3), 0);
    assert_eq!(advance_pid(7), 0);
}

#[test]
fn pipe_mask_round_robin_wraps_and_rejects_empty_mask() {
    assert_eq!(next_pipe_in_mask(0, 0), None);
    assert_eq!(next_pipe_in_mask(0, 0b0000_0110), Some(1));
    assert_eq!(next_pipe_in_mask(1, 0b0000_0110), Some(2));
    assert_eq!(next_pipe_in_mask(2, 0b0000_0110), Some(1));
    assert_eq!(next_pipe_in_mask(7, 0b0000_0010), Some(1));
}

#[test]
fn counter_packet_uses_header_helpers_and_little_endian_payload() {
    let mut buf = [0u8; 256];

    write_counter_packet(&mut buf, 2, 0x4433_2211);

    let header = EsbHeader::read(&buf);
    assert_eq!(header.length, 4);
    assert_eq!(header.pid(), 2);
    assert!(!header.no_ack());
    assert_eq!(read_counter_payload(&buf), Some(0x4433_2211));
}

#[test]
fn counter_payload_rejects_short_buffers_or_short_payloads() {
    let mut buf = [0u8; 8];
    buf[EsbHeader::DMA_OFFSET] = 3;
    assert_eq!(read_counter_payload(&buf), None);
    assert_eq!(
        read_counter_payload(&buf[..EsbHeader::PAYLOAD_OFFSET + 3]),
        None
    );
}

#[test]
fn scheduled_counter_packet_keeps_legacy_counter_prefix() {
    let mut buf = [0u8; 256];
    let hint = ScheduleHint::new(0, 9, 1500, 5000, 4500);

    write_counter_schedule_packet(&mut buf, 1, 0x4433_2211, hint);

    let header = EsbHeader::read(&buf);
    assert_eq!(header.length, SCHEDULE_COUNTER_HINT_PAYLOAD_LEN as u8);
    assert_eq!(header.pid(), 1);
    assert_eq!(read_counter_payload(&buf), Some(0x4433_2211));

    let payload = &buf[EsbHeader::PAYLOAD_OFFSET
        ..EsbHeader::PAYLOAD_OFFSET + SCHEDULE_COUNTER_HINT_PAYLOAD_LEN];
    assert_eq!(decode_counter_payload_schedule_hint(payload), Ok(hint));
}

#[test]
fn per_pipe_delta_saturates() {
    let current = [10, 0, 5, 1, 2, 3, 4, 5];
    let previous = [4, 1, 10, 1, 0, 10, 4, 6];
    assert_eq!(
        delta_per_pipe(&current, &previous),
        [6, 0, 0, 0, 2, 0, 0, 0]
    );
    assert_eq!(
        delta_per_pipe(&[0; NUM_PIPES], &[1; NUM_PIPES]),
        [0; NUM_PIPES]
    );
}

#[test]
fn spin_until_returns_false_at_limit_and_true_when_condition_flips() {
    assert!(!spin_until(|| false, 3));

    let mut polls = 0;
    assert!(spin_until(
        || {
            polls += 1;
            polls == 3
        },
        5
    ));
}
