//! Configuration.

use embassy_nrf_esb::config::{Bitrate, Channel, CrcConfig, EsbConfig, RetransmitConfig, RAMP_UP_US};
use embassy_nrf_esb::error::Error;

#[test]
fn default_config_is_valid() {
    assert!(EsbConfig::default().validate().is_ok());
}

#[test]
fn payload_zero_rejected() {
    let mut c = EsbConfig::default();
    c.payload_length = 0;
    assert_eq!(c.validate().unwrap_err(), Error::InvalidParam);
}

#[test]
fn payload_253_rejected() {
    let mut c = EsbConfig::default();
    c.payload_length = 253;
    assert_eq!(c.validate().unwrap_err(), Error::InvalidParam);
}

#[test]
fn payload_252_accepted() {
    let mut c = EsbConfig::default();
    c.payload_length = 252;
    assert!(c.validate().is_ok());
}

#[test]
fn ack_timeout_below_44_rejected() {
    let mut c = EsbConfig::default();
    c.ack_timeout_us = 43;
    assert_eq!(c.validate().unwrap_err(), Error::InvalidParam);
}

#[test]
fn ack_timeout_44_accepted() {
    let mut c = EsbConfig::default();
    c.ack_timeout_us = 44;
    assert!(c.validate().is_ok());
}

#[test]
fn retransmit_delay_must_exceed_ack_plus_62() {
    let mut c = EsbConfig::default();
    c.ack_timeout_us = 120;
    c.retransmit.delay_us = 182; // == ack_timeout + 62, should fail (<= check)
    assert_eq!(c.validate().unwrap_err(), Error::InvalidParam);
    c.retransmit.delay_us = 183;
    assert!(c.validate().is_ok());
}

#[test]
fn retransmit_delay_must_exceed_ramp_up() {
    let mut c = EsbConfig::default();
    c.ack_timeout_us = 44;
    c.retransmit.delay_us = RAMP_UP_US; // == RAMP_UP, should fail
    assert_eq!(c.validate().unwrap_err(), Error::InvalidParam);
    c.retransmit.delay_us = RAMP_UP_US + 1;
    // But also must exceed ack_timeout + 62
    c.retransmit.delay_us = c.retransmit.delay_us.max(c.ack_timeout_us + 63);
    assert!(c.validate().is_ok());
}

#[test]
fn channel_over_100_rejected() {
    let mut c = EsbConfig::default();
    c.channel = Channel(101);
    assert_eq!(c.validate().unwrap_err(), Error::InvalidParam);
}

#[test]
fn channel_100_accepted() {
    let mut c = EsbConfig::default();
    c.channel = Channel(100);
    assert!(c.validate().is_ok());
}

#[test]
fn retransmit_count_over_15_rejected() {
    let mut c = EsbConfig::default();
    c.retransmit.count = 16;
    assert_eq!(c.validate().unwrap_err(), Error::InvalidParam);
}

#[test]
fn crc_length_3_rejected() {
    let mut c = EsbConfig::default();
    c.crc.length = 3;
    assert_eq!(c.validate().unwrap_err(), Error::InvalidParam);
}

#[test]
fn crc_length_0_accepted() {
    let mut c = EsbConfig::default();
    c.crc.length = 0;
    assert!(c.validate().is_ok());
}

#[test]
fn default_channel_is_2() {
    assert_eq!(Channel::default().0, 2);
}

#[test]
fn default_bitrate_is_2mbps() {
    assert_eq!(Bitrate::default(), Bitrate::Mbps2);
}

#[test]
fn default_crc_is_16bit() {
    let crc = CrcConfig::default();
    assert_eq!(crc.length, 2);
    assert_eq!(crc.init, 0xFFFF);
    assert_eq!(crc.poly, 0x1021);
}

#[test]
fn default_retransmit() {
    let rt = RetransmitConfig::default();
    assert_eq!(rt.count, 3);
    assert_eq!(rt.delay_us, 500);
}
