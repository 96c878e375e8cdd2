//! Named coexistence profiles and the configurations they stand for.

use crate::error::Error;
use crate::mpsl_radio::RadioRecoveryPolicy;
use vstd::prelude::*;

verus! {

/// Starting points for hardware runs, not product guarantees. The explicit
/// config structs can be edited after choosing a profile.
#[derive(Debug, Clone, Copy, PartialEq, Eq, Structural)]
pub enum CoexistenceProfile {
    /// Narrow pipe-1 diagnostic used to classify ACK misses.
    DiagnosticPipe1,
    /// Same, with a longer ACK wait window.
    DiagnosticPipe1RelaxedAck,
    /// Same, with one in-slot retry after an ACK timeout.
    DiagnosticPipe1Retry1,
    /// Same, with a longer PTX slot and ACK window.
    DiagnosticPipe1LongSlot,
    /// Same, with PTX scheduling locked to the PRX's hints.
    DiagnosticPipe1ScheduledGate,
    /// Hint-locked scheduling over two pipes.
    DiagnosticPipe2ScheduledGate,
    /// Hint-locked scheduling over five pipes.
    DiagnosticPipe5ScheduledGate,
    /// Narrow pipe-1 diagnostic with an 8 ms PRX receive window.
    DiagnosticPipe1Prx8ms,
    /// Narrow pipe-1 diagnostic with a 12 ms PRX receive window.
    DiagnosticPipe1Prx12ms,
    /// 11 ms PRX receive window requested every 12 ms.
    DiagnosticPipe1Prx11msPaced12ms,
    /// Narrow pipe-1 diagnostic with a 20 ms PRX receive window.
    DiagnosticPipe1Prx20ms,
    /// Advertising-visible BLE coexistence smoke profile.
    AdvertisingCoexistence,
    /// Active BLE connection with relaxed connection parameters.
    ConnectedRelaxedBle,
    /// Low-density keyboard traffic.
    RmkKeyboardLowLatency,
}

/// BLE-side assumption attached to a coexistence profile.
#[derive(Debug, Clone, Copy, PartialEq, Eq, Structural)]
pub enum BleCoexistenceHint {
    /// Nothing is assumed.
    DiagnosticOnly,
    /// The device advertises.
    AdvertisingVisible,
    /// The device is connected with relaxed parameters.
    ConnectedRelaxed,
    /// The device is a keyboard with low latency.
    RmkKeyboardLowLatency,
}

/// What a validation answers.
pub open spec fn verdict(ok: bool) -> Result<(), Error> {
    if ok {
        Ok(())
    } else {
        Err(Error::InvalidParam)
    }
}

/// Timeslot request policy shared by PRX/PTX configs in a profile.
#[derive(Debug, Clone, Copy, PartialEq, Eq, Structural)]
pub struct TimeslotRequestConfig {
    /// Timeout used for earliest timeslot requests.
    pub timeout_us: u32,
    /// Whether a blocked or cancelled request is retried at high priority.
    pub retry_blocked_at_high_priority: bool,
}

/// The request policy of every profile.
pub open spec fn default_request() -> TimeslotRequestConfig {
    TimeslotRequestConfig { timeout_us: 1_000_000, retry_blocked_at_high_priority: true }
}

impl TimeslotRequestConfig {
    /// One second timeout, and retry at high priority.
    pub fn diagnostic_default() -> (c: Self)
        ensures
            c == default_request(),
    {
        TimeslotRequestConfig { timeout_us: 1_000_000, retry_blocked_at_high_priority: true }
    }

    /// The timeout is positive.
    pub open spec fn is_valid(self) -> bool {
        self.timeout_us > 0
    }

    /// Check the policy.
    pub fn validate(self) -> (r: Result<(), Error>)
        ensures
            r == verdict(self.is_valid()),
    {
        if self.timeout_us == 0 {
            return Err(Error::InvalidParam);
        }
        Ok(())
    }
}

/// Configuration for a long-lived PRX timeslot session.
#[derive(Debug, Clone, Copy, PartialEq, Eq, Structural)]
pub struct PrxSlotConfig {
    /// Timeslot duration per PRX window.
    pub slot_length_us: u32,
    /// TIMER0 compare value within the slot. Must be less than `slot_length_us`.
    pub in_slot_match_us: u32,
    /// Number of slots per report.
    pub report_every: u32,
    /// Enabled ESB RX pipe mask.
    pub enabled_pipes: u8,
    /// Timeslot request policy.
    pub request: TimeslotRequestConfig,
    /// Recovery policy before the radio is handed back.
    pub recovery: RadioRecoveryPolicy,
    /// Optional pacing for chained PRX windows.
    pub schedule: PrxScheduleConfig,
}

/// PRX pacing policy for long-lived chained sessions.
#[derive(Debug, Clone, Copy, PartialEq, Eq, Structural)]
pub struct PrxScheduleConfig {
    /// Distance of a window from the previous one's start; 0 means
    /// `slot_length_us`, i.e. continuous chaining.
    pub normal_distance_us: u32,
    /// Insert a longer distance after this many windows; 0 disables gaps.
    pub gap_after_windows: u32,
    /// Distance used for the gap.
    pub gap_distance_us: u32,
}

impl PrxScheduleConfig {
    /// Windows follow each other without a gap.
    pub fn continuous() -> (c: Self)
        ensures
            c == (PrxScheduleConfig {
                normal_distance_us: 0,
                gap_after_windows: 0,
                gap_distance_us: 0,
            }),
    {
        PrxScheduleConfig { normal_distance_us: 0, gap_after_windows: 0, gap_distance_us: 0 }
    }

    /// Every `gap_after_windows` windows the next one is `gap_distance_us` away.
    pub fn planned_gap(gap_after_windows: u32, gap_distance_us: u32) -> (c: Self)
        ensures
            c == (PrxScheduleConfig { normal_distance_us: 0, gap_after_windows, gap_distance_us }),
    {
        PrxScheduleConfig { normal_distance_us: 0, gap_after_windows, gap_distance_us }
    }

    /// Windows start `normal_distance_us` apart.
    pub fn paced(normal_distance_us: u32) -> (c: Self)
        ensures
            c == (PrxScheduleConfig {
                normal_distance_us,
                gap_after_windows: 0,
                gap_distance_us: 0,
            }),
    {
        PrxScheduleConfig { normal_distance_us, gap_after_windows: 0, gap_distance_us: 0 }
    }

    /// No window starts before the one before it has ended, and a gap distance
    /// is given exactly when there are gaps.
    pub open spec fn is_valid(self, slot_length_us: u32) -> bool {
        &&& self.normal_distance_us == 0 || self.normal_distance_us >= slot_length_us
        &&& if self.gap_after_windows == 0 {
            self.gap_distance_us == 0
        } else {
            self.gap_distance_us >= slot_length_us
        }
    }

    /// Check the policy against the length of a window.
    pub fn validate(self, slot_length_us: u32) -> (r: Result<(), Error>)
        ensures
            r == verdict(self.is_valid(slot_length_us)),
    {
        if self.normal_distance_us != 0 && self.normal_distance_us < slot_length_us {
            return Err(Error::InvalidParam);
        }
        if self.gap_after_windows == 0 {
            if self.gap_distance_us != 0 {
                return Err(Error::InvalidParam);
            }
        } else if self.gap_distance_us < slot_length_us {
            return Err(Error::InvalidParam);
        }
        Ok(())
    }
}

impl PrxSlotConfig {
    /// The PRX side of a profile.
    pub fn for_profile(profile: CoexistenceProfile) -> (c: Self)
        ensures
            c == prx_of(profile),
    {
        CoexistenceProfileConfig::for_profile(profile).prx
    }

    /// The slot ends in time, reports and pipes are given, and the policies hold.
    pub open spec fn is_valid(self) -> bool {
        &&& 0 < self.in_slot_match_us < self.slot_length_us
        &&& self.report_every > 0
        &&& self.enabled_pipes != 0
        &&& self.request.is_valid()
        &&& self.schedule.is_valid(self.slot_length_us)
    }

    /// Check the configuration.
    pub fn validate(self) -> (r: Result<(), Error>)
        ensures
            r == verdict(self.is_valid()),
    {
        if self.slot_length_us == 0 || self.in_slot_match_us == 0 || self.in_slot_match_us
            >= self.slot_length_us || self.report_every == 0 || self.enabled_pipes == 0 {
            return Err(Error::InvalidParam);
        }
        match self.request.validate() {
            Ok(_) => self.schedule.validate(self.slot_length_us),
            Err(e) => Err(e),
        }
    }
}

/// Configuration for a long-lived PTX poll session.
#[derive(Debug, Clone, Copy, PartialEq, Eq, Structural)]
pub struct PtxPollConfig {
    /// Timeslot duration per poll.
    pub slot_length_us: u32,
    /// TIMER0 compare value within the slot. Must be less than `slot_length_us`.
    pub in_slot_match_us: u32,
    /// Bitmask of pipes to poll.
    pub pipe_mask: u8,
    /// Number of slots per report.
    pub report_every: u32,
    /// ACK wait window after TX completion.
    pub ack_timeout_us: u32,
    /// In-slot retries after an ACK timeout. Use 0 to keep misses visible.
    pub max_retries: u8,
    /// Timeslot request policy.
    pub request: TimeslotRequestConfig,
    /// Optional scheduling policy derived from PRX ACK hints.
    pub schedule_gate: PtxScheduleGateConfig,
}

/// PTX scheduling mode derived from PRX schedule hints.
#[derive(Debug, Clone, Copy, PartialEq, Eq, Structural)]
pub enum PtxScheduleMode {
    /// Always request the next timeslot as soon as it can be had.
    Disabled,
    /// Skip a fixed number of timeslots after a hint.
    FixedSkipAfterHint,
    /// Lock subsequent timeslots to the hinted period.
    PhaseLocked,
}

/// PTX pacing policy derived from PRX schedule hints.
#[derive(Debug, Clone, Copy, PartialEq, Eq, Structural)]
pub struct PtxScheduleGateConfig {
    /// Scheduling strategy.
    pub mode: PtxScheduleMode,
    /// Number of timeslots to skip after a valid hint in fixed-skip mode.
    pub skip_after_hint_slots: u8,
    /// Consecutive misses tolerated before phase-locked mode falls back to scanning.
    pub lock_miss_limit: u8,
    /// Extra offset from the estimated window start before transmitting.
    pub lock_tx_offset_us: u32,
}

/// A gate that leaves the schedule alone.
pub open spec fn gate_disabled() -> PtxScheduleGateConfig {
    PtxScheduleGateConfig {
        mode: PtxScheduleMode::Disabled,
        skip_after_hint_slots: 0,
        lock_miss_limit: 0,
        lock_tx_offset_us: 0,
    }
}

/// A gate that locks to the hinted period.
pub open spec fn gate_phase_locked() -> PtxScheduleGateConfig {
    PtxScheduleGateConfig {
        mode: PtxScheduleMode::PhaseLocked,
        skip_after_hint_slots: 0,
        lock_miss_limit: 4,
        lock_tx_offset_us: 250,
    }
}

impl PtxScheduleGateConfig {
    /// Leave the schedule alone.
    pub fn disabled() -> (c: Self)
        ensures
            c == gate_disabled(),
    {
        PtxScheduleGateConfig {
            mode: PtxScheduleMode::Disabled,
            skip_after_hint_slots: 0,
            lock_miss_limit: 0,
            lock_tx_offset_us: 0,
        }
    }

    /// The cautious choice: lock to the hinted period.
    pub fn conservative_pipe1() -> (c: Self)
        ensures
            c == gate_phase_locked(),
    {
        PtxScheduleGateConfig::phase_locked_pipe1()
    }

    /// Skip two slots after each hint.
    pub fn fixed_skip_pipe1() -> (c: Self)
        ensures
            c == (PtxScheduleGateConfig {
                mode: PtxScheduleMode::FixedSkipAfterHint,
                skip_after_hint_slots: 2,
                lock_miss_limit: 0,
                lock_tx_offset_us: 0,
            }),
    {
        PtxScheduleGateConfig {
            mode: PtxScheduleMode::FixedSkipAfterHint,
            skip_after_hint_slots: 2,
            lock_miss_limit: 0,
            lock_tx_offset_us: 0,
        }
    }

    /// Lock to the hinted period, and scan again after four misses.
    pub fn phase_locked_pipe1() -> (c: Self)
        ensures
            c == gate_phase_locked(),
    {
        PtxScheduleGateConfig {
            mode: PtxScheduleMode::PhaseLocked,
            skip_after_hint_slots: 0,
            lock_miss_limit: 4,
            lock_tx_offset_us: 250,
        }
    }

    /// The mode has the limit that it needs.
    pub open spec fn is_valid(self) -> bool {
        match self.mode {
            PtxScheduleMode::Disabled => true,
            PtxScheduleMode::FixedSkipAfterHint => self.skip_after_hint_slots > 0,
            PtxScheduleMode::PhaseLocked => self.lock_miss_limit > 0,
        }
    }

    /// Check the policy.
    pub fn validate(self) -> (r: Result<(), Error>)
        ensures
            r == verdict(self.is_valid()),
    {
        match self.mode {
            PtxScheduleMode::Disabled => {},
            PtxScheduleMode::FixedSkipAfterHint => {
                if self.skip_after_hint_slots == 0 {
                    return Err(Error::InvalidParam);
                }
            },
            PtxScheduleMode::PhaseLocked => {
                if self.lock_miss_limit == 0 {
                    return Err(Error::InvalidParam);
                }
            },
        }
        Ok(())
    }
}

/// Bit `i` of a mask, as a number.
pub open spec fn mask_bit(mask: u8, i: u8) -> int {
    ((mask >> i) & 1) as int
}

/// How many pipes a mask holds.
pub open spec fn mask_size(mask: u8) -> int {
    mask_bit(mask, 0) + mask_bit(mask, 1) + mask_bit(mask, 2) + mask_bit(mask, 3) + mask_bit(
        mask,
        4,
    ) + mask_bit(mask, 5) + mask_bit(mask, 6) + mask_bit(mask, 7)
}

/// Count the pipes of a mask.
pub fn count_pipes(mask: u8) -> (n: u32)
    ensures
        n == mask_size(mask),
        n <= 8,
        n == 0 <==> mask == 0,
{
    assert((mask >> 0) & 1 <= 1 && (mask >> 1) & 1 <= 1 && (mask >> 2) & 1 <= 1 && (mask >> 3) & 1
        <= 1 && (mask >> 4) & 1 <= 1 && (mask >> 5) & 1 <= 1 && (mask >> 6) & 1 <= 1 && (mask >> 7)
        & 1 <= 1) by (bit_vector);
    assert((mask >> 0) & 1 == 0 && (mask >> 1) & 1 == 0 && (mask >> 2) & 1 == 0 && (mask >> 3) & 1
        == 0 && (mask >> 4) & 1 == 0 && (mask >> 5) & 1 == 0 && (mask >> 6) & 1 == 0 && (mask >> 7)
        & 1 == 0 <==> mask == 0) by (bit_vector);
    ((mask >> 0) & 1) as u32 + ((mask >> 1) & 1) as u32 + ((mask >> 2) & 1) as u32 + ((mask >> 3)
        & 1) as u32 + ((mask >> 4) & 1) as u32 + ((mask >> 5) & 1) as u32 + ((mask >> 6) & 1) as u32
        + ((mask >> 7) & 1) as u32
}

impl PtxPollConfig {
    /// The PTX side of a profile.
    pub fn for_profile(profile: CoexistenceProfile) -> (c: Self)
        ensures
            c == ptx_of(profile),
    {
        CoexistenceProfileConfig::for_profile(profile).ptx
    }

    /// A poll config with no in-slot retries.
    pub fn diagnostic(
        slot_length_us: u32,
        in_slot_match_us: u32,
        pipe_mask: u8,
        report_every: u32,
    ) -> (c: Self)
        ensures
            c == (PtxPollConfig {
                slot_length_us,
                in_slot_match_us,
                pipe_mask,
                report_every,
                ack_timeout_us: 400,
                max_retries: 0,
                request: default_request(),
                schedule_gate: gate_disabled(),
            }),
    {
        PtxPollConfig {
            slot_length_us,
            in_slot_match_us,
            pipe_mask,
            report_every,
            ack_timeout_us: 400,
            max_retries: 0,
            request: TimeslotRequestConfig::diagnostic_default(),
            schedule_gate: PtxScheduleGateConfig::disabled(),
        }
    }

    /// How many pipes are polled.
    pub fn pipe_count(self) -> (n: u32)
        ensures
            n == mask_size(self.pipe_mask),
    {
        count_pipes(self.pipe_mask)
    }

    /// The slot ends in time, pipes, reports and ACK window are given, and the
    /// policies hold.
    pub open spec fn is_valid(self) -> bool {
        &&& 0 < self.in_slot_match_us < self.slot_length_us
        &&& self.pipe_mask != 0
        &&& self.report_every > 0
        &&& self.ack_timeout_us > 0
        &&& self.request.is_valid()
        &&& self.schedule_gate.is_valid()
    }

    /// Check the configuration.
    pub fn validate(self) -> (r: Result<(), Error>)
        ensures
            r == verdict(self.is_valid()),
    {
        if self.slot_length_us == 0 || self.in_slot_match_us == 0 || self.in_slot_match_us
            >= self.slot_length_us || self.pipe_mask == 0 || self.report_every == 0
            || self.ack_timeout_us == 0 {
            return Err(Error::InvalidParam);
        }
        match self.request.validate() {
            Ok(_) => self.schedule_gate.validate(),
            Err(e) => Err(e),
        }
    }
}

/// Configuration for an event-driven PTX session.
///
/// Unlike `PtxPollConfig`, this does not chain timeslots: each send requests
/// one on demand.
#[derive(Debug, Clone, Copy, PartialEq, Eq, Structural)]
pub struct PtxEventConfig {
    /// Timeslot duration per send attempt.
    pub slot_length_us: u32,
    /// TIMER0 compare value within the slot.
    pub in_slot_match_us: u32,
    /// Target ESB pipe for transmissions.
    pub pipe: u8,
    /// ACK wait window after TX completion.
    pub ack_timeout_us: u32,
    /// In-slot retries after an ACK timeout.
    pub max_retries: u8,
    /// Timeslot request policy.
    pub request: TimeslotRequestConfig,
}

impl PtxEventConfig {
    /// The event-driven side of a profile.
    pub fn for_profile(profile: CoexistenceProfile) -> (c: Self)
        ensures
            c == ptx_event_of(profile),
    {
        CoexistenceProfileConfig::for_profile(profile).ptx_event
    }

    /// The slot ends in time, the pipe exists, and the policies hold.
    pub open spec fn is_valid(self) -> bool {
        &&& 0 < self.in_slot_match_us < self.slot_length_us
        &&& self.pipe < 8
        &&& self.ack_timeout_us > 0
        &&& self.request.is_valid()
    }

    /// Check the configuration.
    pub fn validate(self) -> (r: Result<(), Error>)
        ensures
            r == verdict(self.is_valid()),
    {
        if self.slot_length_us == 0 || self.in_slot_match_us == 0 || self.in_slot_match_us
            >= self.slot_length_us || self.pipe >= 8 || self.ack_timeout_us == 0 {
            return Err(Error::InvalidParam);
        }
        self.request.validate()
    }
}

/// Single source for what a named profile assumes of PRX, PTX and BLE.
#[derive(Debug, Clone, Copy, PartialEq, Eq, Structural)]
pub struct CoexistenceProfileConfig {
    /// PRX side.
    pub prx: PrxSlotConfig,
    /// PTX side, polling.
    pub ptx: PtxPollConfig,
    /// PTX side, event-driven.
    pub ptx_event: PtxEventConfig,
    /// BLE side.
    pub ble_hint: BleCoexistenceHint,
}

/// A PRX window: length, in-slot match, slots per report, pipes and distance.
pub open spec fn prx_slot(
    slot_length_us: u32,
    in_slot_match_us: u32,
    report_every: u32,
    enabled_pipes: u8,
    normal_distance_us: u32,
) -> PrxSlotConfig {
    PrxSlotConfig {
        slot_length_us,
        in_slot_match_us,
        report_every,
        enabled_pipes,
        request: default_request(),
        recovery: RadioRecoveryPolicy::ForceResetAfterBoundedDisable,
        schedule: PrxScheduleConfig {
            normal_distance_us,
            gap_after_windows: 0,
            gap_distance_us: 0,
        },
    }
}

/// A PTX poll: length, in-slot match, pipes, slots per report, ACK window,
/// retries and gate.
pub open spec fn ptx_poll(
    slot_length_us: u32,
    in_slot_match_us: u32,
    pipe_mask: u8,
    report_every: u32,
    ack_timeout_us: u32,
    max_retries: u8,
    schedule_gate: PtxScheduleGateConfig,
) -> PtxPollConfig {
    PtxPollConfig {
        slot_length_us,
        in_slot_match_us,
        pipe_mask,
        report_every,
        ack_timeout_us,
        max_retries,
        request: default_request(),
        schedule_gate,
    }
}

/// A PTX send on pipe 1: length, in-slot match, ACK window and retries.
pub open spec fn ptx_send(
    slot_length_us: u32,
    in_slot_match_us: u32,
    ack_timeout_us: u32,
    max_retries: u8,
) -> PtxEventConfig {
    PtxEventConfig {
        slot_length_us,
        in_slot_match_us,
        pipe: 1,
        ack_timeout_us,
        max_retries,
        request: default_request(),
    }
}

/// The PRX side of each profile.
pub open spec fn prx_of(profile: CoexistenceProfile) -> PrxSlotConfig {
    match profile {
        CoexistenceProfile::DiagnosticPipe2ScheduledGate => prx_slot(5000, 4500, 20, 0x06, 0),
        CoexistenceProfile::DiagnosticPipe5ScheduledGate => prx_slot(5000, 4500, 20, 0x3e, 0),
        CoexistenceProfile::DiagnosticPipe1Prx8ms => prx_slot(8000, 7600, 12, 0x02, 0),
        CoexistenceProfile::DiagnosticPipe1Prx12ms => prx_slot(12000, 11500, 8, 0x02, 0),
        CoexistenceProfile::DiagnosticPipe1Prx11msPaced12ms => prx_slot(11000, 10500, 8, 0x02, 12000),
        CoexistenceProfile::DiagnosticPipe1Prx20ms => prx_slot(20000, 19000, 5, 0x02, 0),
        CoexistenceProfile::AdvertisingCoexistence => prx_slot(12000, 11500, 50, 0x06, 0),
        CoexistenceProfile::RmkKeyboardLowLatency => prx_slot(3000, 2800, 4, 0x02, 0),
        _ => prx_slot(5000, 4500, 20, 0x02, 0),
    }
}

/// The polling PTX side of each profile.
pub open spec fn ptx_of(profile: CoexistenceProfile) -> PtxPollConfig {
    match profile {
        CoexistenceProfile::DiagnosticPipe1RelaxedAck => ptx_poll(
            1500,
            1300,
            0x02,
            1,
            600,
            0,
            gate_disabled(),
        ),
        CoexistenceProfile::DiagnosticPipe1Retry1 => ptx_poll(
            1500,
            1300,
            0x02,
            1,
            400,
            1,
            gate_disabled(),
        ),
        CoexistenceProfile::DiagnosticPipe1LongSlot => ptx_poll(
            3000,
            2800,
            0x02,
            1,
            600,
            1,
            gate_disabled(),
        ),
        CoexistenceProfile::DiagnosticPipe1ScheduledGate => ptx_poll(
            1500,
            1300,
            0x02,
            1,
            400,
            0,
            gate_phase_locked(),
        ),
        CoexistenceProfile::DiagnosticPipe2ScheduledGate => ptx_poll(
            1500,
            1300,
            0x06,
            2,
            400,
            0,
            gate_phase_locked(),
        ),
        CoexistenceProfile::DiagnosticPipe5ScheduledGate => ptx_poll(
            2500,
            2300,
            0x3e,
            5,
            400,
            1,
            gate_phase_locked(),
        ),
        CoexistenceProfile::AdvertisingCoexistence => ptx_poll(
            3000,
            2800,
            0x06,
            2,
            400,
            0,
            gate_disabled(),
        ),
        CoexistenceProfile::RmkKeyboardLowLatency => ptx_poll(
            3000,
            2800,
            0x02,
            1,
            400,
            1,
            gate_disabled(),
        ),
        _ => ptx_poll(1500, 1300, 0x02, 1, 400, 0, gate_disabled()),
    }
}

/// The event-driven PTX side of each profile.
pub open spec fn ptx_event_of(profile: CoexistenceProfile) -> PtxEventConfig {
    match profile {
        CoexistenceProfile::DiagnosticPipe1RelaxedAck => ptx_send(1500, 1300, 600, 0),
        CoexistenceProfile::DiagnosticPipe1Retry1 => ptx_send(1500, 1300, 400, 1),
        CoexistenceProfile::AdvertisingCoexistence => ptx_send(3000, 2800, 400, 0),
        CoexistenceProfile::RmkKeyboardLowLatency => ptx_send(3000, 2800, 400, 1),
        CoexistenceProfile::DiagnosticPipe1LongSlot
        | CoexistenceProfile::DiagnosticPipe5ScheduledGate => ptx_send(3000, 2800, 600, 1),
        _ => ptx_send(1500, 1300, 400, 0),
    }
}

/// The BLE assumption of each profile.
pub open spec fn ble_of(profile: CoexistenceProfile) -> BleCoexistenceHint {
    match profile {
        CoexistenceProfile::AdvertisingCoexistence => BleCoexistenceHint::AdvertisingVisible,
        CoexistenceProfile::ConnectedRelaxedBle => BleCoexistenceHint::ConnectedRelaxed,
        CoexistenceProfile::RmkKeyboardLowLatency => BleCoexistenceHint::RmkKeyboardLowLatency,
        _ => BleCoexistenceHint::DiagnosticOnly,
    }
}

impl CoexistenceProfileConfig {
    /// The configuration that a profile stands for.
    pub fn for_profile(profile: CoexistenceProfile) -> (c: Self)
        ensures
            c == (CoexistenceProfileConfig {
                prx: prx_of(profile),
                ptx: ptx_of(profile),
                ptx_event: ptx_event_of(profile),
                ble_hint: ble_of(profile),
            }),
    {
        let request = TimeslotRequestConfig::diagnostic_default();
        let recovery = RadioRecoveryPolicy::ForceResetAfterBoundedDisable;
        let prx_schedule = PrxScheduleConfig::continuous();
        let ptx_event = PtxEventConfig {
            slot_length_us: 1500,
            in_slot_match_us: 1300,
            pipe: 1,
            ack_timeout_us: 400,
            max_retries: 0,
            request,
        };
        match profile {
            CoexistenceProfile::DiagnosticPipe1 => CoexistenceProfileConfig {
                prx: PrxSlotConfig {
                    slot_length_us: 5000,
                    in_slot_match_us: 4500,
                    report_every: 20,
                    enabled_pipes: 0x02,
                    request,
                    recovery,
                    schedule: prx_schedule,
                },
                ptx: PtxPollConfig {
                    slot_length_us: 1500,
                    in_slot_match_us: 1300,
                    pipe_mask: 0x02,
                    report_every: 1,
                    ack_timeout_us: 400,
                    max_retries: 0,
                    request,
                    schedule_gate: PtxScheduleGateConfig::disabled(),
                },
                ptx_event,
                ble_hint: BleCoexistenceHint::DiagnosticOnly,
            },
            CoexistenceProfile::DiagnosticPipe1RelaxedAck => CoexistenceProfileConfig {
                prx: PrxSlotConfig {
                    slot_length_us: 5000,
                    in_slot_match_us: 4500,
                    report_every: 20,
                    enabled_pipes: 0x02,
                    request,
                    recovery,
                    schedule: prx_schedule,
                },
                ptx: PtxPollConfig {
                    slot_length_us: 1500,
                    in_slot_match_us: 1300,
                    pipe_mask: 0x02,
                    report_every: 1,
                    ack_timeout_us: 600,
                    max_retries: 0,
                    request,
                    schedule_gate: PtxScheduleGateConfig::disabled(),
                },
                ptx_event: PtxEventConfig { ack_timeout_us: 600, ..ptx_event },
                ble_hint: BleCoexistenceHint::DiagnosticOnly,
            },
            CoexistenceProfile::DiagnosticPipe1Retry1 => CoexistenceProfileConfig {
                prx: PrxSlotConfig {
                    slot_length_us: 5000,
                    in_slot_match_us: 4500,
                    report_every: 20,
                    enabled_pipes: 0x02,
                    request,
                    recovery,
                    schedule: prx_schedule,
                },
                ptx: PtxPollConfig {
                    slot_length_us: 1500,
                    in_slot_match_us: 1300,
                    pipe_mask: 0x02,
                    report_every: 1,
                    ack_timeout_us: 400,
                    max_retries: 1,
                    request,
                    schedule_gate: PtxScheduleGateConfig::disabled(),
                },
                ptx_event: PtxEventConfig { max_retries: 1, ..ptx_event },
                ble_hint: BleCoexistenceHint::DiagnosticOnly,
            },
            CoexistenceProfile::DiagnosticPipe1LongSlot => CoexistenceProfileConfig {
                prx: PrxSlotConfig {
                    slot_length_us: 5000,
                    in_slot_match_us: 4500,
                    report_every: 20,
                    enabled_pipes: 0x02,
                    request,
                    recovery,
                    schedule: prx_schedule,
                },
                ptx: PtxPollConfig {
                    slot_length_us: 3000,
                    in_slot_match_us: 2800,
                    pipe_mask: 0x02,
                    report_every: 1,
                    ack_timeout_us: 600,
                    max_retries: 1,
                    request,
                    schedule_gate: PtxScheduleGateConfig::disabled(),
                },
                ptx_event: PtxEventConfig {
                    slot_length_us: 3000,
                    in_slot_match_us: 2800,
                    ack_timeout_us: 600,
                    max_retries: 1,
                    ..ptx_event
                },
                ble_hint: BleCoexistenceHint::DiagnosticOnly,
            },
            CoexistenceProfile::DiagnosticPipe1ScheduledGate => CoexistenceProfileConfig {
                prx: PrxSlotConfig {
                    slot_length_us: 5000,
                    in_slot_match_us: 4500,
                    report_every: 20,
                    enabled_pipes: 0x02,
                    request,
                    recovery,
                    schedule: prx_schedule,
                },
                ptx: PtxPollConfig {
                    slot_length_us: 1500,
                    in_slot_match_us: 1300,
                    pipe_mask: 0x02,
                    report_every: 1,
                    ack_timeout_us: 400,
                    max_retries: 0,
                    request,
                    schedule_gate: PtxScheduleGateConfig::phase_locked_pipe1(),
                },
                ptx_event,
                ble_hint: BleCoexistenceHint::DiagnosticOnly,
            },
            CoexistenceProfile::DiagnosticPipe2ScheduledGate => CoexistenceProfileConfig {
                prx: PrxSlotConfig {
                    slot_length_us: 5000,
                    in_slot_match_us: 4500,
                    report_every: 20,
                    enabled_pipes: 0x06,
                    request,
                    recovery,
                    schedule: prx_schedule,
                },
                ptx: PtxPollConfig {
                    slot_length_us: 1500,
                    in_slot_match_us: 1300,
                    pipe_mask: 0x06,
                    report_every: 2,
                    ack_timeout_us: 400,
                    max_retries: 0,
                    request,
                    schedule_gate: PtxScheduleGateConfig::phase_locked_pipe1(),
                },
                ptx_event,
                ble_hint: BleCoexistenceHint::DiagnosticOnly,
            },
            CoexistenceProfile::DiagnosticPipe5ScheduledGate => CoexistenceProfileConfig {
                prx: PrxSlotConfig {
                    slot_length_us: 5000,
                    in_slot_match_us: 4500,
                    report_every: 20,
                    enabled_pipes: 0x3e,
                    request,
                    recovery,
                    schedule: prx_schedule,
                },
                ptx: PtxPollConfig {
                    slot_length_us: 2500,
                    in_slot_match_us: 2300,
                    pipe_mask: 0x3e,
                    report_every: 5,
                    ack_timeout_us: 400,
                    max_retries: 1,
                    request,
                    schedule_gate: PtxScheduleGateConfig::phase_locked_pipe1(),
                },
                ptx_event: PtxEventConfig {
                    slot_length_us: 3000,
                    in_slot_match_us: 2800,
                    ack_timeout_us: 600,
                    max_retries: 1,
                    ..ptx_event
                },
                ble_hint: BleCoexistenceHint::DiagnosticOnly,
            },
            CoexistenceProfile::DiagnosticPipe1Prx8ms => CoexistenceProfileConfig {
                prx: PrxSlotConfig {
                    slot_length_us: 8000,
                    in_slot_match_us: 7600,
                    report_every: 12,
                    enabled_pipes: 0x02,
                    request,
                    recovery,
                    schedule: prx_schedule,
                },
                ptx: PtxPollConfig {
                    slot_length_us: 1500,
                    in_slot_match_us: 1300,
                    pipe_mask: 0x02,
                    report_every: 1,
                    ack_timeout_us: 400,
                    max_retries: 0,
                    request,
                    schedule_gate: PtxScheduleGateConfig::disabled(),
                },
                ptx_event,
                ble_hint: BleCoexistenceHint::DiagnosticOnly,
            },
            CoexistenceProfile::DiagnosticPipe1Prx12ms => CoexistenceProfileConfig {
                prx: PrxSlotConfig {
                    slot_length_us: 12000,
                    in_slot_match_us: 11500,
                    report_every: 8,
                    enabled_pipes: 0x02,
                    request,
                    recovery,
                    schedule: prx_schedule,
                },
                ptx: PtxPollConfig {
                    slot_length_us: 1500,
                    in_slot_match_us: 1300,
                    pipe_mask: 0x02,
                    report_every: 1,
                    ack_timeout_us: 400,
                    max_retries: 0,
                    request,
                    schedule_gate: PtxScheduleGateConfig::disabled(),
                },
                ptx_event,
                ble_hint: BleCoexistenceHint::DiagnosticOnly,
            },
            CoexistenceProfile::DiagnosticPipe1Prx11msPaced12ms => CoexistenceProfileConfig {
                prx: PrxSlotConfig {
                    slot_length_us: 11000,
                    in_slot_match_us: 10500,
                    report_every: 8,
                    enabled_pipes: 0x02,
                    request,
                    recovery,
                    schedule: PrxScheduleConfig::paced(12000),
                },
                ptx: PtxPollConfig {
                    slot_length_us: 1500,
                    in_slot_match_us: 1300,
                    pipe_mask: 0x02,
                    report_every: 1,
                    ack_timeout_us: 400,
                    max_retries: 0,
                    request,
                    schedule_gate: PtxScheduleGateConfig::disabled(),
                },
                ptx_event,
                ble_hint: BleCoexistenceHint::DiagnosticOnly,
            },
            CoexistenceProfile::DiagnosticPipe1Prx20ms => CoexistenceProfileConfig {
                prx: PrxSlotConfig {
                    slot_length_us: 20000,
                    in_slot_match_us: 19000,
                    report_every: 5,
                    enabled_pipes: 0x02,
                    request,
                    recovery,
                    schedule: prx_schedule,
                },
                ptx: PtxPollConfig {
                    slot_length_us: 1500,
                    in_slot_match_us: 1300,
                    pipe_mask: 0x02,
                    report_every: 1,
                    ack_timeout_us: 400,
                    max_retries: 0,
                    request,
                    schedule_gate: PtxScheduleGateConfig::disabled(),
                },
                ptx_event,
                ble_hint: BleCoexistenceHint::DiagnosticOnly,
            },
            CoexistenceProfile::AdvertisingCoexistence => CoexistenceProfileConfig {
                prx: PrxSlotConfig {
                    slot_length_us: 12000,
                    in_slot_match_us: 11500,
                    report_every: 50,
                    enabled_pipes: 0x06,
                    request,
                    recovery,
                    schedule: prx_schedule,
                },
                ptx: PtxPollConfig {
                    slot_length_us: 3000,
                    in_slot_match_us: 2800,
                    pipe_mask: 0x06,
                    report_every: 2,
                    ack_timeout_us: 400,
                    max_retries: 0,
                    request,
                    schedule_gate: PtxScheduleGateConfig::disabled(),
                },
                ptx_event: PtxEventConfig {
                    slot_length_us: 3000,
                    in_slot_match_us: 2800,
                    ..ptx_event
                },
                ble_hint: BleCoexistenceHint::AdvertisingVisible,
            },
            CoexistenceProfile::ConnectedRelaxedBle => CoexistenceProfileConfig {
                prx: PrxSlotConfig {
                    slot_length_us: 5000,
                    in_slot_match_us: 4500,
                    report_every: 20,
                    enabled_pipes: 0x02,
                    request,
                    recovery,
                    schedule: prx_schedule,
                },
                ptx: PtxPollConfig {
                    slot_length_us: 1500,
                    in_slot_match_us: 1300,
                    pipe_mask: 0x02,
                    report_every: 1,
                    ack_timeout_us: 400,
                    max_retries: 0,
                    request,
                    schedule_gate: PtxScheduleGateConfig::disabled(),
                },
                ptx_event,
                ble_hint: BleCoexistenceHint::ConnectedRelaxed,
            },
            CoexistenceProfile::RmkKeyboardLowLatency => CoexistenceProfileConfig {
                prx: PrxSlotConfig {
                    slot_length_us: 3000,
                    in_slot_match_us: 2800,
                    report_every: 4,
                    enabled_pipes: 0x02,
                    request,
                    recovery,
                    schedule: prx_schedule,
                },
                ptx: PtxPollConfig {
                    slot_length_us: 3000,
                    in_slot_match_us: 2800,
                    pipe_mask: 0x02,
                    report_every: 1,
                    ack_timeout_us: 400,
                    max_retries: 1,
                    request,
                    schedule_gate: PtxScheduleGateConfig::disabled(),
                },
                ptx_event: PtxEventConfig {
                    slot_length_us: 3000,
                    in_slot_match_us: 2800,
                    max_retries: 1,
                    ..ptx_event
                },
                ble_hint: BleCoexistenceHint::RmkKeyboardLowLatency,
            },
        }
    }

    /// The PRX and the polling PTX side are valid.
    pub open spec fn is_valid(self) -> bool {
        self.prx.is_valid() && self.ptx.is_valid()
    }

    /// Check the PRX and the polling PTX side.
    pub fn validate(self) -> (r: Result<(), Error>)
        ensures
            r == verdict(self.is_valid()),
    {
        match self.prx.validate() {
            Ok(_) => self.ptx.validate(),
            Err(e) => Err(e),
        }
    }
}

/// Every profile is valid on all three sides, its PRX listens on every pipe
/// that its PTX polls or sends on, and an ACK that is awaited from the start of
/// the slot on is awaited within the slot.
pub proof fn law_profiles_valid(profile: CoexistenceProfile)
    ensures
        prx_of(profile).is_valid(),
        ptx_of(profile).is_valid(),
        ptx_event_of(profile).is_valid(),
        ptx_of(profile).pipe_mask & !prx_of(profile).enabled_pipes == 0,
        crate::mpsl_common::pipe_in_mask(
            prx_of(profile).enabled_pipes,
            ptx_event_of(profile).pipe,
        ),
        ptx_of(profile).ack_timeout_us < ptx_of(profile).in_slot_match_us,
        ptx_event_of(profile).ack_timeout_us < ptx_event_of(profile).in_slot_match_us,
{
    assert(0x02u8 & !0x02u8 == 0 && 0x06u8 & !0x06u8 == 0 && 0x3eu8 & !0x3eu8 == 0) by (bit_vector);
    assert(0x02u8 & (1u8 << 1) != 0 && 0x06u8 & (1u8 << 1) != 0 && 0x3eu8 & (1u8 << 1) != 0)
        by (bit_vector);
}

/// With the rest of a receiver's configuration in order, each setting is accepted
/// exactly within its own limits.
pub proof fn law_prx_slot_limits(c: PrxSlotConfig, n: u32, mask: u8)
    requires
        c.is_valid(),
    ensures
        (PrxSlotConfig { in_slot_match_us: n, ..c }).is_valid() == (0 < n < c.slot_length_us),
        (PrxSlotConfig { report_every: n, ..c }).is_valid() == (n > 0),
        (PrxSlotConfig { enabled_pipes: mask, ..c }).is_valid() == (mask != 0),
        (PrxSlotConfig {
            request: TimeslotRequestConfig { timeout_us: n, ..c.request },
            ..c
        }).is_valid() == (n > 0),
        (PrxSlotConfig {
            schedule: PrxScheduleConfig { normal_distance_us: n, ..c.schedule },
            ..c
        }).is_valid() == (n == 0 || n >= c.slot_length_us),
        (PrxSlotConfig {
            schedule: PrxScheduleConfig { gap_distance_us: n, ..c.schedule },
            ..c
        }).is_valid() == (if c.schedule.gap_after_windows == 0 {
            n == 0
        } else {
            n >= c.slot_length_us
        }),
{
}

/// With the rest of a poll session's configuration in order, each setting is accepted
/// exactly within its own limits.
pub proof fn law_ptx_poll_limits(c: PtxPollConfig, n: u32, mask: u8, retries: u8)
    requires
        c.is_valid(),
    ensures
        (PtxPollConfig { in_slot_match_us: n, ..c }).is_valid() == (0 < n < c.slot_length_us),
        (PtxPollConfig { slot_length_us: n, ..c }).is_valid() == (n > c.in_slot_match_us),
        (PtxPollConfig { report_every: n, ..c }).is_valid() == (n > 0),
        (PtxPollConfig { ack_timeout_us: n, ..c }).is_valid() == (n > 0),
        (PtxPollConfig { pipe_mask: mask, ..c }).is_valid() == (mask != 0),
        (PtxPollConfig { max_retries: retries, ..c }).is_valid(),
        (PtxPollConfig {
            request: TimeslotRequestConfig { timeout_us: n, ..c.request },
            ..c
        }).is_valid() == (n > 0),
        (PtxPollConfig { schedule_gate: gate_disabled(), ..c }).is_valid(),
        (PtxPollConfig {
            schedule_gate: PtxScheduleGateConfig { lock_miss_limit: mask, ..gate_phase_locked() },
            ..c
        }).is_valid() == (mask > 0),
        (PtxPollConfig {
            schedule_gate: PtxScheduleGateConfig {
                mode: PtxScheduleMode::FixedSkipAfterHint,
                skip_after_hint_slots: mask,
                ..gate_disabled()
            },
            ..c
        }).is_valid() == (mask > 0),
{
}

/// With the rest of an on-demand session's configuration in order, each setting is
/// accepted exactly within its own limits.
pub proof fn law_ptx_event_limits(c: PtxEventConfig, n: u32, pipe: u8, retries: u8)
    requires
        c.is_valid(),
    ensures
        (PtxEventConfig { in_slot_match_us: n, ..c }).is_valid() == (0 < n < c.slot_length_us),
        (PtxEventConfig { slot_length_us: n, ..c }).is_valid() == (n > c.in_slot_match_us),
        (PtxEventConfig { ack_timeout_us: n, ..c }).is_valid() == (n > 0),
        (PtxEventConfig { pipe, ..c }).is_valid() == (pipe < 8),
        (PtxEventConfig { max_retries: retries, ..c }).is_valid(),
        (PtxEventConfig {
            request: TimeslotRequestConfig { timeout_us: n, ..c.request },
            ..c
        }).is_valid() == (n > 0),
{
}

} // verus!
