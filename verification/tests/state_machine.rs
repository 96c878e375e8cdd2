//! Diagnostic ACKs.

use embassy_nrf_esb::state_machine::{TimeslotDiagAckContext, write_timeslot_diag_ack};
use embassy_nrf_esb::header::EsbHeader;
use embassy_nrf_esb::mpsl_common::read_counter_payload;
use embassy_nrf_esb::mpsl_schedule::{
    SCHEDULE_COUNTER_HINT_PAYLOAD_LEN, ScheduleHint, decode_counter_payload_schedule_hint,
};

#[test]
fn timeslot_diag_ack_preserves_legacy_counter_and_schedule_hint() {
    let mut buf = [0u8; 256];
    let context = TimeslotDiagAckContext {
        window_id: 42,
        next_delay_us: 1500,
        period_us: 5000,
        window_us: 4500,
    };

    write_timeslot_diag_ack(&mut buf, context, 0x4433_2211);

    let header = EsbHeader::read(&buf);
    assert_eq!(header.length, SCHEDULE_COUNTER_HINT_PAYLOAD_LEN as u8);
    assert_eq!(header.pid(), 0);
    assert!(!header.no_ack());
    assert_eq!(read_counter_payload(&buf), Some(0x4433_2211));

    let payload = &buf[EsbHeader::PAYLOAD_OFFSET
        ..EsbHeader::PAYLOAD_OFFSET + SCHEDULE_COUNTER_HINT_PAYLOAD_LEN];
    assert_eq!(
        decode_counter_payload_schedule_hint(payload),
        Ok(ScheduleHint::new(0, 42, 1500, 5000, 4500))
    );
}
