//! Schedule hints and link timing.

use embassy_nrf_esb::mpsl_schedule::{
    LinkTiming, LinkTimingConfig, LinkTimingFallback, LinkTimingMode,
    SCHEDULE_COUNTER_HINT_PAYLOAD_LEN, SCHEDULE_HINT_PAYLOAD_OFFSET, ScheduleHint,
    ScheduleHintError, ScheduleTracker, ScheduleTrackerSnapshot,
    decode_counter_payload_schedule_hint, decode_schedule_hint, encode_schedule_hint,
};

#[test]
fn schedule_hint_round_trips() {
    let hint = ScheduleHint::new(0x5a, 42, 1500, 5000, 4500);
    let mut buf = [0u8; 20];

    encode_schedule_hint(&mut buf, hint).unwrap();

    assert_eq!(decode_schedule_hint(&buf), Ok(hint));
}

#[test]
fn schedule_hint_rejects_bad_magic_version_and_timing() {
    let hint = ScheduleHint::new(0, 1, 1500, 5000, 4500);
    let mut buf = [0u8; 20];
    encode_schedule_hint(&mut buf, hint).unwrap();

    buf[0] ^= 0xff;
    assert_eq!(decode_schedule_hint(&buf), Err(ScheduleHintError::BadMagic));

    encode_schedule_hint(&mut buf, hint).unwrap();
    buf[2] = 2;
    assert_eq!(
        decode_schedule_hint(&buf),
        Err(ScheduleHintError::UnsupportedVersion)
    );

    let invalid = ScheduleHint::new(0, 1, 1500, 4000, 4500);
    assert_eq!(
        encode_schedule_hint(&mut buf, invalid),
        Err(ScheduleHintError::InvalidTiming)
    );
}

#[test]
fn counter_payload_hint_starts_after_legacy_counter() {
    let hint = ScheduleHint::new(0, 7, 1500, 5000, 4500);
    let mut payload = [0u8; SCHEDULE_COUNTER_HINT_PAYLOAD_LEN];
    payload[0..4].copy_from_slice(&123u32.to_le_bytes());
    encode_schedule_hint(&mut payload[SCHEDULE_HINT_PAYLOAD_OFFSET..], hint).unwrap();

    assert_eq!(decode_counter_payload_schedule_hint(&payload), Ok(hint));
}

#[test]
fn schedule_tracker_classifies_repeats_jumps_regressions_and_misses() {
    let mut tracker = ScheduleTracker::new();

    tracker.observe_miss();
    tracker.observe_miss();
    tracker.observe_hint(ScheduleHint::new(0, 10, 1500, 5000, 4500));
    tracker.observe_hint(ScheduleHint::new(0, 10, 1500, 5000, 4500));
    tracker.observe_hint(ScheduleHint::new(0, 13, 1500, 5000, 4500));
    tracker.observe_hint(ScheduleHint::new(0, 12, 1500, 5000, 4500));
    tracker.observe_bad_hint();

    assert_eq!(
        tracker.snapshot(),
        ScheduleTrackerSnapshot {
            valid_hint_count: 4,
            bad_hint_count: 1,
            repeat_count: 1,
            jump_count: 1,
            missed_window_count: 2,
            regress_count: 1,
            current_miss_streak: 1,
            max_miss_streak: 2,
            last_window_id: 12,
        }
    );
}

#[test]
fn schedule_tracker_snapshot_delta_keeps_current_state_fields() {
    let previous = ScheduleTrackerSnapshot {
        valid_hint_count: 2,
        bad_hint_count: 1,
        repeat_count: 1,
        jump_count: 0,
        missed_window_count: 0,
        regress_count: 0,
        current_miss_streak: 3,
        max_miss_streak: 3,
        last_window_id: 10,
    };
    let current = ScheduleTrackerSnapshot {
        valid_hint_count: 5,
        bad_hint_count: 2,
        repeat_count: 1,
        jump_count: 1,
        missed_window_count: 4,
        regress_count: 1,
        current_miss_streak: 1,
        max_miss_streak: 5,
        last_window_id: 20,
    };

    assert_eq!(
        current.saturating_sub(previous),
        ScheduleTrackerSnapshot {
            valid_hint_count: 3,
            bad_hint_count: 1,
            repeat_count: 0,
            jump_count: 1,
            missed_window_count: 4,
            regress_count: 1,
            current_miss_streak: 1,
            max_miss_streak: 5,
            last_window_id: 20,
        }
    );
}

#[test]
fn link_timing_locks_on_hint_and_waits_inside_budget() {
    let mut timing = LinkTiming::new();
    let config = LinkTimingConfig::keyboard_default();

    timing.observe_hint(1_000, ScheduleHint::new(0, 7, 2_000, 11_000, 10_500));

    let wait = timing.bounded_wait(2_000, config);
    assert_eq!(wait.fallback, None);
    assert_eq!(wait.wait_us, 600);

    let snapshot = timing.snapshot(2_000);
    assert_eq!(snapshot.mode, LinkTimingMode::Synced);
    assert_eq!(snapshot.lock_count, 1);
    assert_eq!(snapshot.last_window_id, 7);
}

#[test]
fn link_timing_falls_back_when_wait_exceeds_latency_budget() {
    let mut timing = LinkTiming::new();
    let config = LinkTimingConfig {
        max_wait_us: 500,
        ..LinkTimingConfig::keyboard_default()
    };

    timing.observe_hint(1_000, ScheduleHint::new(0, 1, 4_000, 11_000, 10_500));

    let wait = timing.bounded_wait(1_100, config);
    assert_eq!(wait.wait_us, 0);
    assert_eq!(wait.fallback, Some(LinkTimingFallback::WaitTooLong));
    assert_eq!(timing.snapshot(1_100).fallback_count, 1);
}

#[test]
fn link_timing_expires_old_hints_and_degrades_after_misses() {
    let mut timing = LinkTiming::new();
    let config = LinkTimingConfig {
        hint_valid_us: 1_000,
        miss_limit: 2,
        ..LinkTimingConfig::keyboard_default()
    };

    assert_eq!(
        timing.bounded_wait(100, config).fallback,
        Some(LinkTimingFallback::NoHint)
    );

    timing.observe_hint(1_000, ScheduleHint::new(0, 3, 1_000, 11_000, 10_500));
    assert_eq!(
        timing.bounded_wait(3_001, config).fallback,
        Some(LinkTimingFallback::HintExpired)
    );
    assert_eq!(timing.snapshot(3_001).mode, LinkTimingMode::Unsynced);

    timing.observe_hint(4_000, ScheduleHint::new(0, 4, 1_000, 11_000, 10_500));
    timing.observe_miss(config);
    timing.observe_miss(config);
    assert_eq!(
        timing.bounded_wait(4_100, config).fallback,
        Some(LinkTimingFallback::Degraded)
    );
    assert_eq!(timing.snapshot(4_100).mode, LinkTimingMode::Degraded);
}

#[test]
fn link_timing_advances_past_stale_windows() {
    let mut timing = LinkTiming::new();
    let config = LinkTimingConfig {
        max_wait_us: 20_000,
        ..LinkTimingConfig::keyboard_default()
    };

    timing.observe_hint(1_000, ScheduleHint::new(0, 9, 1_000, 11_000, 10_500));

    let wait = timing.bounded_wait(12_500, config);
    assert_eq!(wait.fallback, None);
    assert_eq!(wait.wait_us, 100);
}
