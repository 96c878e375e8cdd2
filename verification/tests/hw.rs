//! What the drivers program into the peripherals.

use embassy_nrf_esb::addresses::EsbAddresses;
use embassy_nrf_esb::config::{Bitrate, EsbConfig, TxPower};
use embassy_nrf_esb::hw::{HwOp, RadioOp, TimerOp};
use embassy_nrf_esb::isr::{EsbPrx, DEFAULT_POOL_N, DEFAULT_POOL_SIZE};
use embassy_nrf_esb::payload::PacketPool;

/// The registers that the tests look at.
#[derive(Debug, Default)]
struct Registers {
    mode: Option<Bitrate>,
    lflen: u8,
    s1len: u8,
    maxlen: u8,
    balen: u8,
    statlen: u8,
    crc_len: u8,
    skip_address: bool,
    crc_init: u32,
    crc_poly: u32,
    big_endian: bool,
    ready_start: bool,
    end_disable: bool,
    address_rssistart: bool,
    disabled_rssistop: bool,
    frequency: u8,
    tx_power: u8,
    timer_32bit: bool,
    prescaler: u8,
}

fn run(ops: &[HwOp]) -> Registers {
    let mut r = Registers::default();
    for op in ops {
        match *op {
            HwOp::Radio(RadioOp::Mode(m)) => r.mode = Some(m),
            HwOp::Radio(RadioOp::Pcnf0 { length_bits, s1_bits }) => {
                r.lflen = length_bits;
                r.s1len = s1_bits;
            }
            HwOp::Radio(RadioOp::Pcnf1 { max_len, base_len, static_len, big_endian }) => {
                r.big_endian = big_endian;
                r.maxlen = max_len;
                r.balen = base_len;
                r.statlen = static_len;
            }
            HwOp::Radio(RadioOp::CrcCnf { len, skip_address }) => {
                r.crc_len = len;
                r.skip_address = skip_address;
            }
            HwOp::Radio(RadioOp::CrcInit(v)) => r.crc_init = v,
            HwOp::Radio(RadioOp::CrcPoly(v)) => r.crc_poly = v,
            HwOp::Radio(RadioOp::Shorts(shorts)) => {
                r.ready_start = shorts.ready_start;
                r.end_disable = shorts.end_disable;
                r.address_rssistart = shorts.address_rssistart;
                r.disabled_rssistop = shorts.disabled_rssistop;
            }
            HwOp::Radio(RadioOp::ShortReadyStart(on)) => r.ready_start = on,
            HwOp::Radio(RadioOp::ShortEndDisable(on)) => r.end_disable = on,
            HwOp::Radio(RadioOp::Frequency(f)) => r.frequency = f,
            HwOp::Radio(RadioOp::TxPower(p)) => r.tx_power = p,
            HwOp::Timer(TimerOp::BitMode32) => r.timer_32bit = true,
            HwOp::Timer(TimerOp::Prescaler(p)) => r.prescaler = p,
            _ => {}
        }
    }
    r
}

#[test]
fn prx_default_init_programs_radio_and_timer_registers() {
    let config = EsbConfig::default();
    let addresses = EsbAddresses::default();
    let pool = PacketPool::<DEFAULT_POOL_N, DEFAULT_POOL_SIZE>::new();
    let mut ops: Vec<HwOp> = Vec::new();

    let _prx = EsbPrx::new(pool, &config, &addresses, false, &mut ops).unwrap();

    let r = run(&ops);

    // Bitrate.
    assert_eq!(r.mode, Some(Bitrate::Mbps2));

    // PCNF0: 8-bit LENGTH field, 3-bit S1 (PID + NO_ACK).
    assert_eq!(r.lflen, 8);
    assert_eq!(r.s1len, 3);

    // PCNF1: MAXLEN mirrors payload_length (default 32), 4-byte base,
    // big-endian.
    assert_eq!(r.maxlen, config.payload_length);
    assert_eq!(r.maxlen, 32);
    assert_eq!(r.balen, 4);
    assert_eq!(r.statlen, 0);
    assert!(r.big_endian);

    // CRC: 16-bit, init 0xFFFF, polynomial 0x11021 (explicit MSB), address included.
    assert_eq!(r.crc_len, 2);
    assert!(!r.skip_address);
    assert_eq!(r.crc_init, 0xFFFF);
    assert_eq!(r.crc_poly, 0x11021);

    // Shorts configured by init.
    assert!(r.ready_start);
    assert!(r.end_disable);
    assert!(r.address_rssistart);
    assert!(r.disabled_rssistop);

    // RF channel: default 2.
    assert_eq!(r.frequency, 2);

    // TX power: default 0 dBm.
    assert_eq!(r.tx_power, TxPower::default().to_pac());
    assert_eq!(r.tx_power, 0);

    // TIMER: 32-bit mode, prescaler 4 (1 MHz / 1 us tick).
    assert!(r.timer_32bit);
    assert_eq!(r.prescaler, 4);

    // Both interrupts are unmasked last.
    assert_eq!(ops[ops.len() - 2..], [HwOp::UnmaskRadio, HwOp::UnmaskTimer]);
}

#[test]
fn crc_registers_follow_the_configuration() {
    let expected = [(2, 0x8005, 0x1_8005), (1, 0x07, 0x107), (1, 0x1021, 0x121)];
    for (length, poly, register) in expected {
        let mut config = EsbConfig::default();
        config.crc.length = length;
        config.crc.init = 0x1234;
        config.crc.poly = poly;
        let mut ops: Vec<HwOp> = Vec::new();
        let pool = PacketPool::<DEFAULT_POOL_N, DEFAULT_POOL_SIZE>::new();
        EsbPrx::new(pool, &config, &EsbAddresses::default(), false, &mut ops).unwrap();
        let r = run(&ops);
        assert_eq!((r.crc_len, r.crc_init, r.crc_poly), (length, 0x1234, register));
        assert!(!r.skip_address);
    }

    let mut config = EsbConfig::default();
    config.crc.length = 0;
    let mut ops: Vec<HwOp> = Vec::new();
    let pool = PacketPool::<DEFAULT_POOL_N, DEFAULT_POOL_SIZE>::new();
    EsbPrx::new(pool, &config, &EsbAddresses::default(), false, &mut ops).unwrap();
    assert_eq!(run(&ops).crc_len, 0);
}
