//! Framed transport.

use embassy_nrf_esb::transport::{
    FLAG_ACK, FLAG_RETRANSMIT, MAX_TRANSPORT_PAYLOAD_LEN, SequenceTracker, StaticBindingTable,
    TRANSPORT_ACK_LEN, TRANSPORT_HEADER_LEN, TRANSPORT_VERSION, TransportAck, TransportHeader,
    accept_bound_frame, decode_frame, decode_transport_ack, encode_frame, encode_transport_ack,
    fits_esb_payload, required_esb_payload_len, validate_payload_length,
};
use embassy_nrf_esb::error::Error;

#[test]
fn frame_round_trips_header_and_payload() {
    let payload = [1, 2, 3, 4];
    let mut frame = [0u8; 16];

    let flags = FLAG_ACK | FLAG_RETRANSMIT;
    let len = encode_frame(2, 7, flags, &payload, &mut frame).unwrap();
    assert_eq!(len, TRANSPORT_HEADER_LEN + payload.len());

    let (header, decoded_payload) = decode_frame(&frame[..len]).unwrap();
    assert_eq!(
        header,
        TransportHeader {
            version: TRANSPORT_VERSION,
            device_id: 2,
            sequence: 7,
            flags,
            payload_len: 4,
        }
    );
    assert_eq!(decoded_payload, payload);
}

#[test]
fn transport_ack_round_trips() {
    let mut buf = [0u8; TRANSPORT_ACK_LEN];
    let ack = TransportAck::new(3, 9);

    encode_transport_ack(ack, &mut buf).unwrap();

    assert_eq!(decode_transport_ack(&buf), Ok(ack));
    assert_eq!(decode_transport_ack(&buf[..3]), Err(Error::InvalidParam));
    buf[0] = 0;
    assert_eq!(decode_transport_ack(&buf), Err(Error::InvalidParam));
}

#[test]
fn rejects_truncated_or_wrong_version_frames() {
    assert_eq!(decode_frame(&[]), Err(Error::InvalidParam));
    assert_eq!(
        decode_frame(&[TRANSPORT_VERSION, 1, 2, 3, 4]),
        Err(Error::InvalidParam)
    );
    assert_eq!(decode_frame(&[0xff, 1, 2, 3, 0]), Err(Error::InvalidParam));
    assert_eq!(
        decode_frame(&[TRANSPORT_VERSION, 1, 2, 0x80, 0]),
        Err(Error::InvalidParam)
    );
}

#[test]
fn decode_frame_ignores_trailing_bytes_after_declared_payload() {
    let frame = [TRANSPORT_VERSION, 1, 2, 0, 1, 0xAA, 0xBB, 0xCC];

    let (header, payload) = decode_frame(&frame).unwrap();
    assert_eq!(header.device_id, 1);
    assert_eq!(header.sequence, 2);
    assert_eq!(header.payload_len, 1);
    assert_eq!(payload, &[0xAA]);
}

#[test]
fn encode_frame_requires_output_capacity() {
    let mut frame = [0u8; TRANSPORT_HEADER_LEN];
    assert_eq!(
        encode_frame(0, 0, 0, &[1], &mut frame),
        Err(Error::InvalidParam)
    );
}

#[test]
fn required_payload_length_includes_transport_header() {
    assert_eq!(required_esb_payload_len(0), TRANSPORT_HEADER_LEN);
    assert_eq!(required_esb_payload_len(32), TRANSPORT_HEADER_LEN + 32);
    assert!(fits_esb_payload(37, 32));
    assert!(!fits_esb_payload(36, 32));
    assert_eq!(validate_payload_length(37, 32), Ok(()));
    assert_eq!(validate_payload_length(36, 32), Err(Error::InvalidParam));
}

#[test]
fn framed_payload_cannot_exceed_single_esb_packet_capacity() {
    assert_eq!(MAX_TRANSPORT_PAYLOAD_LEN, 247);
    assert!(TransportHeader::new(0, 0, 0, MAX_TRANSPORT_PAYLOAD_LEN).is_ok());
    assert_eq!(
        TransportHeader::new(0, 0, 0, MAX_TRANSPORT_PAYLOAD_LEN + 1),
        Err(Error::InvalidParam)
    );

    let payload = [0u8; MAX_TRANSPORT_PAYLOAD_LEN + 1];
    let mut frame = [0u8; TRANSPORT_HEADER_LEN + MAX_TRANSPORT_PAYLOAD_LEN + 1];
    assert_eq!(
        encode_frame(0, 0, 0, &payload, &mut frame),
        Err(Error::InvalidParam)
    );
    assert!(fits_esb_payload(252, MAX_TRANSPORT_PAYLOAD_LEN));
    assert!(!fits_esb_payload(252, MAX_TRANSPORT_PAYLOAD_LEN + 1));
}

#[test]
fn sequence_tracker_accepts_new_and_rejects_duplicates_per_device() {
    let mut tracker = SequenceTracker::<2>::new();

    assert_eq!(tracker.accept(0, 1), Ok(true));
    assert_eq!(tracker.accept(0, 1), Ok(false));
    assert_eq!(tracker.accept(0, 2), Ok(true));
    assert_eq!(tracker.accept(1, 1), Ok(true));
    assert_eq!(tracker.accept(2, 1), Err(Error::InvalidParam));

    tracker.reset_device(0).unwrap();
    assert_eq!(tracker.accept(0, 2), Ok(true));
}

#[test]
fn static_binding_table_validates_pipe_to_device_mapping() {
    let mut bindings = StaticBindingTable::<4>::new();

    assert_eq!(bindings.accepts(1, 7), Ok(false));
    bindings.bind(1, 7).unwrap();

    assert_eq!(bindings.device_for_pipe(1), Ok(Some(7)));
    assert_eq!(bindings.accepts(1, 7), Ok(true));
    assert_eq!(bindings.accepts(1, 8), Ok(false));
    assert_eq!(bindings.accepts(2, 7), Ok(false));
    assert_eq!(bindings.bind(4, 1), Err(Error::InvalidParam));

    bindings.unbind(1).unwrap();
    assert_eq!(bindings.device_for_pipe(1), Ok(None));
}

#[test]
fn static_binding_table_can_be_const_initialized() {
    let bindings: StaticBindingTable<3> =
        StaticBindingTable::from_pipe_entries([Some(10), None, Some(12)]);

    assert_eq!(bindings.accepts(0, 10), Ok(true));
    assert_eq!(bindings.accepts(2, 12), Ok(true));
    assert_eq!(bindings.accepts(1, 10), Ok(false));
}

#[test]
fn accept_bound_frame_validates_binding_and_drops_duplicates() {
    let bindings = StaticBindingTable::<4>::from_pipe_entries([None, Some(7), None, None]);
    let mut tracker = SequenceTracker::<8>::new();
    let mut frame = [0u8; 16];
    let len = encode_frame(7, 42, 0, &[0xAA, 0xBB], &mut frame).unwrap();

    let accepted = accept_bound_frame(&bindings, &mut tracker, 1, &frame[..len])
        .unwrap()
        .expect("new frame");
    assert_eq!(accepted.0.device_id, 7);
    assert_eq!(accepted.0.sequence, 42);
    assert_eq!(accepted.1, &[0xAA, 0xBB]);

    assert_eq!(
        accept_bound_frame(&bindings, &mut tracker, 1, &frame[..len]),
        Ok(None)
    );
    assert_eq!(
        accept_bound_frame(&bindings, &mut tracker, 2, &frame[..len]),
        Err(Error::InvalidParam)
    );
}

#[test]
fn accept_bound_frame_rejects_unbound_or_out_of_range_routes() {
    let bindings = StaticBindingTable::<2>::from_pipe_entries([Some(0), None]);
    let mut tracker = SequenceTracker::<1>::new();
    let mut frame = [0u8; 16];

    let len = encode_frame(0, 1, 0, &[0x10], &mut frame).unwrap();
    assert_eq!(
        accept_bound_frame(&bindings, &mut tracker, 1, &frame[..len]),
        Err(Error::InvalidParam)
    );
    assert_eq!(
        accept_bound_frame(&bindings, &mut tracker, 2, &frame[..len]),
        Err(Error::InvalidParam)
    );

    let len = encode_frame(1, 1, 0, &[0x10], &mut frame).unwrap();
    assert_eq!(
        accept_bound_frame(&bindings, &mut tracker, 0, &frame[..len]),
        Err(Error::InvalidParam)
    );
}

#[test]
fn reset_device_forgets_that_device_only() {
    let mut tracker = SequenceTracker::<2>::new();
    assert_eq!(tracker.accept(0, 0), Ok(true));
    assert_eq!(tracker.accept(1, 7), Ok(true));
    assert_eq!(tracker.reset_device(0), Ok(()));
    assert_eq!(tracker.accept(0, 0), Ok(true));
    assert_eq!(tracker.accept(1, 7), Ok(false));
    // Only the last sequence number is remembered.
    assert_eq!(tracker.accept(1, 8), Ok(true));
    assert_eq!(tracker.accept(1, 7), Ok(true));
    assert_eq!(tracker.reset_device(2), Err(Error::InvalidParam));
    assert_eq!(tracker.accept(2, 0), Err(Error::InvalidParam));
}

#[test]
fn unbind_frees_that_pipe_only() {
    let mut table = StaticBindingTable::<2>::new();
    table.bind(0, 3).unwrap();
    table.bind(1, 4).unwrap();
    assert_eq!(table.unbind(0), Ok(()));
    assert_eq!(table.unbind(0), Ok(()));
    assert_eq!(table.device_for_pipe(0), Ok(None));
    assert_eq!(table.accepts(0, 3), Ok(false));
    assert_eq!(table.device_for_pipe(1), Ok(Some(4)));
    assert_eq!(table.unbind(2), Err(Error::InvalidParam));
}
