//! Radio, timer and their recovery.

use embassy_nrf_esb::addresses::EsbAddresses;
use embassy_nrf_esb::config::{Bitrate, EsbConfig};
use embassy_nrf_esb::error::Error;
use embassy_nrf_esb::hw::{DmaBuffer, HwOp, RadioOp, TimerOp};
use embassy_nrf_esb::mpsl_profile::{
    BleCoexistenceHint, CoexistenceProfile, CoexistenceProfileConfig, PrxScheduleConfig,
    PrxSlotConfig, PtxPollConfig, PtxScheduleGateConfig, TimeslotRequestConfig,
};
use embassy_nrf_esb::mpsl_radio::{
    disable_radio_bounded, quiesce_radio_before_timeslot_end, request_disable, RadioDisableResult,
    RadioQuiesceResult, RadioRecoveryPolicy,
};
use embassy_nrf_esb::radio::{EsbRadio, RxResult, RxStatus};
use embassy_nrf_esb::timer::{compare_after, EsbTimer};

#[test]
fn radio_is_configured_from_the_config() {
    let mut config = EsbConfig::default();
    config.bitrate = Bitrate::Mbps1;
    let radio = EsbRadio::new(true);
    let mut ops = Vec::new();
    radio.init(&config, &EsbAddresses::default(), &mut ops);
    assert!(ops.contains(&HwOp::Radio(RadioOp::Mode(Bitrate::Mbps1))));
    assert!(ops.contains(&HwOp::Radio(RadioOp::FastRampUp)));
    assert!(ops.contains(&HwOp::Radio(RadioOp::CrcInit(0xFFFF))));
    assert!(ops.contains(&HwOp::Radio(RadioOp::CrcPoly(0x1_1021))));
    let mut plain = Vec::new();
    EsbRadio::new(false).init(&config, &EsbAddresses::default(), &mut plain);
    assert!(!plain.contains(&HwOp::Radio(RadioOp::FastRampUp)));
}

#[test]
fn packets_are_told_from_copies() {
    let mut radio = EsbRadio::new(false);
    let mut ops = Vec::new();
    let status = RxStatus { crc_ok: true, pipe: 3, crc: 0x1234, rssi: 1 };
    assert_eq!(radio.check_packet(status, 2, &mut ops), RxResult::NewPacket);
    radio.update_detection(3, 2, 0x1234);
    assert!(radio.check_duplicate(3, 2, 0x1234));
    assert!(!radio.check_duplicate(3, 1, 0x1234));
    assert!(!radio.check_duplicate(3, 2, 0x1235));
    assert!(!radio.check_duplicate(4, 2, 0x1234));
    assert!(!radio.check_duplicate(8, 2, 0x1234));
    assert_eq!(radio.check_packet(status, 2, &mut ops), RxResult::Duplicate);
    let bad = RxStatus { crc_ok: false, ..status };
    assert_eq!(radio.check_packet(bad, 2, &mut ops), RxResult::BadCrc);

    // The detection can be saved and given to another radio.
    let mut other = EsbRadio::new(false);
    other.restore_pid_state(radio.save_pid_state());
    other.restore_crc_state(radio.save_crc_state());
    other.restore_detection_valid_state(radio.save_detection_valid_state());
    assert!(other.check_duplicate(3, 2, 0x1234));
    other.reset_detection_state();
    assert!(!other.check_duplicate(3, 2, 0x1234));
}

#[test]
fn acknowledgements_are_sent_from_their_buffers() {
    let radio = EsbRadio::new(false);
    let mut ops = Vec::new();
    radio.setup_ack_tx(2, DmaBuffer::Pool(1), &mut ops);
    assert!(ops.contains(&HwOp::Radio(RadioOp::TxAddress(2))));
    assert!(ops.contains(&HwOp::Radio(RadioOp::PacketPtr(DmaBuffer::Pool(1)))));
    ops.clear();
    radio.transmit_ack_manual_fallback(4, &mut ops);
    assert!(ops.contains(&HwOp::Radio(RadioOp::PacketPtr(DmaBuffer::FallbackAck))));
    assert!(ops.contains(&HwOp::Radio(RadioOp::Txen)));
    ops.clear();
    radio.power_cycle(&mut ops);
    assert_eq!(
        ops,
        [
            HwOp::Radio(RadioOp::Power(false)),
            HwOp::Radio(RadioOp::Power(true)),
        ]
    );
}

#[test]
fn timer_arms_and_disarms() {
    let mut ops = Vec::new();
    let timer = EsbTimer::new(&mut ops);
    assert!(ops.contains(&HwOp::Timer(TimerOp::BitMode32)));
    assert!(ops.contains(&HwOp::Timer(TimerOp::Prescaler(4))));
    ops.clear();
    timer.stop(&mut ops);
    assert!(ops.contains(&HwOp::Timer(TimerOp::Stop)));
    assert_eq!(compare_after(100, 50), 150);
    assert_eq!(compare_after(u32::MAX, 50), 49);
}

#[test]
fn radio_is_brought_to_rest() {
    let mut ops = Vec::new();
    request_disable(true, true, &mut ops);
    assert!(ops.contains(&HwOp::Radio(RadioOp::Disable)));
    assert!(ops.contains(&HwOp::Radio(RadioOp::ShortDisabledRxen(false))));
    ops.clear();
    assert_eq!(disable_radio_bounded(true, &mut ops), RadioDisableResult::Disabled);
    assert_eq!(disable_radio_bounded(false, &mut ops), RadioDisableResult::TimedOut);
    let policy = RadioRecoveryPolicy::ForceResetAfterBoundedDisable;
    ops.clear();
    assert_eq!(
        quiesce_radio_before_timeslot_end(policy, RadioDisableResult::Disabled, &mut ops),
        RadioQuiesceResult::Disabled
    );
    assert_eq!(
        quiesce_radio_before_timeslot_end(policy, RadioDisableResult::TimedOut, &mut ops),
        RadioQuiesceResult::TimedOutForcedReset
    );
    assert!(RadioQuiesceResult::TimedOutForcedReset.timed_out());
    assert!(!RadioDisableResult::Disabled.timed_out());
}

#[test]
fn every_profile_is_valid() {
    let profiles = [
        CoexistenceProfile::DiagnosticPipe1,
        CoexistenceProfile::DiagnosticPipe1RelaxedAck,
        CoexistenceProfile::DiagnosticPipe1Retry1,
        CoexistenceProfile::DiagnosticPipe1LongSlot,
        CoexistenceProfile::DiagnosticPipe1ScheduledGate,
        CoexistenceProfile::DiagnosticPipe2ScheduledGate,
        CoexistenceProfile::DiagnosticPipe5ScheduledGate,
        CoexistenceProfile::DiagnosticPipe1Prx8ms,
        CoexistenceProfile::DiagnosticPipe1Prx12ms,
        CoexistenceProfile::DiagnosticPipe1Prx11msPaced12ms,
        CoexistenceProfile::DiagnosticPipe1Prx20ms,
        CoexistenceProfile::AdvertisingCoexistence,
        CoexistenceProfile::ConnectedRelaxedBle,
        CoexistenceProfile::RmkKeyboardLowLatency,
    ];
    for p in profiles {
        let c = CoexistenceProfileConfig::for_profile(p);
        assert_eq!(c.validate(), Ok(()));
        assert_eq!(c.prx, PrxSlotConfig::for_profile(p));
        assert_eq!(c.ptx, PtxPollConfig::for_profile(p));
    }
    let c = CoexistenceProfileConfig::for_profile(CoexistenceProfile::RmkKeyboardLowLatency);
    assert_eq!((c.prx.slot_length_us, c.prx.in_slot_match_us), (3000, 2800));
    assert_eq!((c.ptx.ack_timeout_us, c.ptx.max_retries), (400, 1));
    assert_eq!(c.ptx_event.pipe, 1);
    assert_eq!(c.ble_hint, BleCoexistenceHint::RmkKeyboardLowLatency);
    for (p, window) in [
        (CoexistenceProfile::DiagnosticPipe1Prx8ms, (8_000, 7_600)),
        (CoexistenceProfile::DiagnosticPipe1Prx12ms, (12_000, 11_500)),
        (CoexistenceProfile::DiagnosticPipe1Prx11msPaced12ms, (11_000, 10_500)),
        (CoexistenceProfile::DiagnosticPipe1Prx20ms, (20_000, 19_000)),
    ] {
        let c = CoexistenceProfileConfig::for_profile(p);
        assert_eq!((c.prx.slot_length_us, c.prx.in_slot_match_us), window);
    }
    let c = CoexistenceProfileConfig::for_profile(CoexistenceProfile::DiagnosticPipe5ScheduledGate);
    assert_eq!(c.ptx.pipe_count(), 5);
}

#[test]
fn invalid_policies_are_refused() {
    let bad = Err(Error::InvalidParam);
    let request = TimeslotRequestConfig { timeout_us: 0, retry_blocked_at_high_priority: true };
    assert_eq!(request.validate(), bad);
    assert_eq!(PrxScheduleConfig::paced(4999).validate(5000), bad);
    assert_eq!(PrxScheduleConfig::paced(5000).validate(5000), Ok(()));
    assert_eq!(PrxScheduleConfig::planned_gap(3, 4999).validate(5000), bad);
    assert_eq!(PrxScheduleConfig::planned_gap(0, 6000).validate(5000), bad);
    let mut gate = PtxScheduleGateConfig::phase_locked_pipe1();
    gate.lock_miss_limit = 0;
    assert_eq!(gate.validate(), bad);
    let mut gate = PtxScheduleGateConfig::fixed_skip_pipe1();
    gate.skip_after_hint_slots = 0;
    assert_eq!(gate.validate(), bad);
    let mut poll = PtxPollConfig::diagnostic(1500, 1300, 0x02, 1);
    assert_eq!(poll.validate(), Ok(()));
    poll.schedule_gate = gate;
    assert_eq!(poll.validate(), bad);
    poll = PtxPollConfig::diagnostic(1500, 1300, 0, 1);
    assert_eq!(poll.validate(), bad);
}
