//! A PTX and a PRX that hear each other.

use embassy_nrf_esb::addresses::EsbAddresses;
use embassy_nrf_esb::config::EsbConfig;
use embassy_nrf_esb::hw::HwOp;
use embassy_nrf_esb::isr::{EsbPrx, EsbPtx};
use embassy_nrf_esb::payload::PacketPool;
use embassy_nrf_esb::prx::PrxSample;
use embassy_nrf_esb::ptx::PtxSample;
use embassy_nrf_esb::radio::RxStatus;
use embassy_nrf_esb::state_machine::{StatePrx, StatePtx};

const QUIET: PtxSample = PtxSample { disabled: false, crc_ok: false };
const DISABLED: PtxSample = PtxSample { disabled: true, crc_ok: false };
const ACKED: PtxSample = PtxSample { disabled: true, crc_ok: true };

fn pair() -> (EsbPtx<4, 64>, EsbPrx<4, 64>, Vec<HwOp>) {
    let mut ops = Vec::new();
    let tx = EsbPtx::new(
        PacketPool::new(),
        &EsbConfig::default(),
        &EsbAddresses::default(),
        0,
        false,
        &mut ops,
    )
    .unwrap();
    let mut rx = EsbPrx::new(
        PacketPool::new(),
        &EsbConfig::default(),
        &EsbAddresses::default(),
        false,
        &mut ops,
    )
    .unwrap();
    rx.start_listening(&mut ops).unwrap();
    (tx, rx, ops)
}

fn sample(pipe: u8, crc: u16) -> PrxSample {
    PrxSample { disabled: true, status: RxStatus { crc_ok: true, pipe, crc, rssi: 50 } }
}

/// Carry the packet in flight from `tx` to the buffer that `rx` listens into.
fn carry(tx: &EsbPtx<4, 64>, rx: &mut EsbPrx<4, 64>) {
    let from = tx.sm.tx_idx.unwrap();
    let to = rx.sm.core.rx_idx.unwrap();
    let bytes = tx.pool.buf(from)[2..].to_vec();
    rx.pool.write_buf(to, 2, &bytes);
}

fn received(rx: &mut EsbPrx<4, 64>) -> Option<Vec<u8>> {
    let (payload, index) = {
        let p = rx.receive()?;
        (p.payload().to_vec(), p.index())
    };
    rx.release(index);
    Some(payload)
}

#[test]
fn packet_crosses_the_link_once_though_its_ack_is_lost() {
    let (mut tx, mut rx, mut ops) = pair();
    tx.send_to(2, &[1, 2, 3], &mut ops).unwrap();
    tx.on_radio_interrupt(QUIET, &mut ops);
    carry(&tx, &mut rx);
    rx.on_radio_interrupt(sample(2, 0x1234), &mut ops);
    rx.on_radio_interrupt(sample(2, 0x1234), &mut ops);
    assert_eq!(received(&mut rx), Some(vec![1, 2, 3]));

    // The ACK is not heard, and the packet goes out again.
    tx.on_radio_interrupt(DISABLED, &mut ops);
    tx.on_timer_interrupt(false, true, &mut ops);
    tx.on_radio_interrupt(QUIET, &mut ops);
    tx.on_timer_interrupt(true, false, &mut ops);
    tx.on_radio_interrupt(QUIET, &mut ops);
    assert_eq!(tx.state(), StatePtx::Tx);
    carry(&tx, &mut rx);
    rx.on_radio_interrupt(sample(2, 0x1234), &mut ops);
    assert_eq!(rx.state(), StatePrx::TxRepeatedAck);
    rx.on_radio_interrupt(sample(2, 0x1234), &mut ops);
    assert_eq!(received(&mut rx), None);

    // This time the ACK is heard.
    tx.on_radio_interrupt(DISABLED, &mut ops);
    tx.on_radio_interrupt(ACKED, &mut ops);
    assert!(tx.is_tx_idle());

    // The same bytes again are another packet, even under the same CRC.
    tx.send_to(2, &[1, 2, 3], &mut ops).unwrap();
    tx.on_radio_interrupt(QUIET, &mut ops);
    carry(&tx, &mut rx);
    rx.on_radio_interrupt(sample(2, 0x1234), &mut ops);
    assert_eq!(rx.state(), StatePrx::TxAck);
    rx.on_radio_interrupt(sample(2, 0x1234), &mut ops);
    assert_eq!(received(&mut rx), Some(vec![1, 2, 3]));
}

#[test]
fn ack_payload_crosses_the_link_back() {
    let (mut tx, mut rx, mut ops) = pair();
    rx.send_ack_payload(1, &[7, 7]).unwrap();
    rx.send_ack_payload(2, &[0xA0, 0xB0]).unwrap();
    tx.send_to(2, &[5], &mut ops).unwrap();
    tx.on_radio_interrupt(QUIET, &mut ops);
    carry(&tx, &mut rx);
    rx.on_radio_interrupt(sample(2, 9), &mut ops);
    tx.on_radio_interrupt(DISABLED, &mut ops);

    let from = rx.sm.core.ack_tx_idx.unwrap();
    let to = tx.sm.ack_rx_idx.unwrap();
    let bytes = rx.pool.buf(from)[2..].to_vec();
    tx.pool.write_buf(to, 2, &bytes);
    tx.on_radio_interrupt(ACKED, &mut ops);
    assert_eq!(tx.try_receive().unwrap().payload(), &[0xA0, 0xB0]);
}
