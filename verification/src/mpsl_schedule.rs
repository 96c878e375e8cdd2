//! Schedule hints: how a receiver tells a transmitter about its windows.
//!
//! A PRX advertises a hint in its ACK payloads; a PTX validates and parses it,
//! keeps statistics over it, and bounds how long it waits for the next window.

use crate::bytes::{get_u16_le, get_u32_le, put_u16_le, put_u32_le};
use vstd::prelude::*;

verus! {

/// Version byte of the wire format.
pub const SCHEDULE_HINT_VERSION: u8 = 1;

/// Magic number at the start of an encoded hint ("SH", little-endian on wire).
pub const SCHEDULE_HINT_MAGIC: u16 = 0x4853;

/// Length of an encoded hint.
pub const SCHEDULE_HINT_ENCODED_LEN: usize = 20;

/// Where the hint starts inside a counter payload.
pub const SCHEDULE_HINT_PAYLOAD_OFFSET: usize = 4;

/// Length of a payload that holds a counter and a hint.
pub const SCHEDULE_COUNTER_HINT_PAYLOAD_LEN: usize = 24;

/// Why a hint was refused.
#[derive(Debug, Clone, Copy, PartialEq, Eq, Structural)]
pub enum ScheduleHintError {
    /// The buffer holds fewer bytes than an encoded hint.
    BufferTooShort,
    /// The buffer does not start with the magic number.
    BadMagic,
    /// The version is not the one this library speaks.
    UnsupportedVersion,
    /// Period or window is zero, or the window is longer than the period.
    InvalidTiming,
}

/// When a receiver's next window opens, how often and for how long.
#[derive(Debug, Clone, Copy, PartialEq, Eq, Structural)]
pub struct ScheduleHint {
    /// Wire format version.
    pub version: u8,
    /// Free for use by the application.
    pub flags: u8,
    /// Sequence number of the window.
    pub window_id: u32,
    /// Microseconds from the hint to the next window.
    pub next_delay_us: u32,
    /// Microseconds between window starts.
    pub period_us: u32,
    /// Microseconds a window stays open.
    pub window_us: u32,
}

impl ScheduleHint {
    /// What `validate` answers: the version is checked before the timing.
    pub open spec fn validity(self) -> Result<(), ScheduleHintError> {
        if self.version != SCHEDULE_HINT_VERSION {
            Err(ScheduleHintError::UnsupportedVersion)
        } else if self.period_us == 0 || self.window_us == 0 || self.window_us > self.period_us {
            Err(ScheduleHintError::InvalidTiming)
        } else {
            Ok(())
        }
    }

    /// The wire format of a hint.
    pub open spec fn encoded(self) -> Seq<u8> {
        crate::bytes::u16_le(SCHEDULE_HINT_MAGIC) + seq![self.version, self.flags]
            + crate::bytes::u32_le(self.window_id) + crate::bytes::u32_le(self.next_delay_us)
            + crate::bytes::u32_le(self.period_us) + crate::bytes::u32_le(self.window_us)
    }

    /// A hint of the current version.
    pub fn new(flags: u8, window_id: u32, next_delay_us: u32, period_us: u32, window_us: u32) -> (h:
        Self)
        ensures
            h == (ScheduleHint {
                version: SCHEDULE_HINT_VERSION,
                flags,
                window_id,
                next_delay_us,
                period_us,
                window_us,
            }),
    {
        ScheduleHint {
            version: SCHEDULE_HINT_VERSION,
            flags,
            window_id,
            next_delay_us,
            period_us,
            window_us,
        }
    }

    /// Check version and timing.
    pub fn validate(self) -> (r: Result<(), ScheduleHintError>)
        ensures
            r == self.validity(),
    {
        if self.version != SCHEDULE_HINT_VERSION {
            return Err(ScheduleHintError::UnsupportedVersion);
        }
        if self.period_us == 0 || self.window_us == 0 || self.window_us > self.period_us {
            return Err(ScheduleHintError::InvalidTiming);
        }
        Ok(())
    }
}

/// The hint that the 20 bytes of `buf` from `at` on stand for, unchecked.
pub open spec fn raw_hint_at(buf: Seq<u8>, at: int) -> ScheduleHint {
    ScheduleHint {
        version: buf[at + 2],
        flags: buf[at + 3],
        window_id: crate::bytes::u32_at(buf, at + 4),
        next_delay_us: crate::bytes::u32_at(buf, at + 8),
        period_us: crate::bytes::u32_at(buf, at + 12),
        window_us: crate::bytes::u32_at(buf, at + 16),
    }
}

/// What decoding a buffer gives: the checks in the order in which they are made.
pub open spec fn decoded_hint(buf: Seq<u8>) -> Result<ScheduleHint, ScheduleHintError> {
    if buf.len() < SCHEDULE_HINT_ENCODED_LEN {
        Err(ScheduleHintError::BufferTooShort)
    } else if crate::bytes::u16_at(buf, 0) != SCHEDULE_HINT_MAGIC {
        Err(ScheduleHintError::BadMagic)
    } else {
        match raw_hint_at(buf, 0).validity() {
            Ok(_) => Ok(raw_hint_at(buf, 0)),
            Err(e) => Err(e),
        }
    }
}

/// What decoding the hint behind the counter of a payload gives.
pub open spec fn decoded_counter_hint(payload: Seq<u8>) -> Result<ScheduleHint, ScheduleHintError> {
    if payload.len() < SCHEDULE_COUNTER_HINT_PAYLOAD_LEN {
        Err(ScheduleHintError::BufferTooShort)
    } else {
        decoded_hint(payload.subrange(4, 24))
    }
}

/// Encoding a valid hint and decoding the result gives the hint back, wherever
/// the bytes stand and whatever follows them.
pub proof fn law_hint_round_trip(hint: ScheduleHint, tail: Seq<u8>)
    requires
        hint.validity() is Ok,
    ensures
        hint.encoded().len() == SCHEDULE_HINT_ENCODED_LEN,
        decoded_hint(hint.encoded() + tail) == Ok::<ScheduleHint, ScheduleHintError>(hint),
{
    crate::bytes::lemma_u32_round_trip(hint.window_id);
    crate::bytes::lemma_u32_round_trip(hint.next_delay_us);
    crate::bytes::lemma_u32_round_trip(hint.period_us);
    crate::bytes::lemma_u32_round_trip(hint.window_us);
    crate::bytes::lemma_u16_round_trip(SCHEDULE_HINT_MAGIC);
}

/// Every hint that decodes is valid.
pub proof fn law_decoded_hint_is_valid(buf: Seq<u8>)
    ensures
        decoded_hint(buf) matches Ok(h) ==> h.validity() is Ok && h.version
            == SCHEDULE_HINT_VERSION && 0 < h.window_us <= h.period_us,
{
}

/// Write a hint at `at`, or say why it cannot be written.
pub(crate) fn encode_hint_at(buf: &mut [u8], at: usize, hint: ScheduleHint) -> (r: Result<
    (),
    ScheduleHintError,
>)
    requires
        at <= old(buf)@.len(),
    ensures
        r == (if old(buf)@.len() - at < SCHEDULE_HINT_ENCODED_LEN {
            Err(ScheduleHintError::BufferTooShort)
        } else {
            hint.validity()
        }),
        final(buf)@ == (if r is Ok {
            crate::bytes::splice(old(buf)@, at as int, hint.encoded())
        } else {
            old(buf)@
        }),
{
    if buf.len() - at < SCHEDULE_HINT_ENCODED_LEN {
        return Err(ScheduleHintError::BufferTooShort);
    }
    match hint.validate() {
        Ok(_) => {},
        Err(e) => {
            return Err(e);
        },
    }
    put_u16_le(buf, at, SCHEDULE_HINT_MAGIC);
    buf[at + 2] = hint.version;
    buf[at + 3] = hint.flags;
    put_u32_le(buf, at + 4, hint.window_id);
    put_u32_le(buf, at + 8, hint.next_delay_us);
    put_u32_le(buf, at + 12, hint.period_us);
    put_u32_le(buf, at + 16, hint.window_us);
    Ok(())
}

/// Write a hint at the start of a buffer. A refused hint leaves it unchanged.
pub fn encode_schedule_hint(buf: &mut [u8], hint: ScheduleHint) -> (r: Result<
    (),
    ScheduleHintError,
>)
    ensures
        r == (if old(buf)@.len() < SCHEDULE_HINT_ENCODED_LEN {
            Err(ScheduleHintError::BufferTooShort)
        } else {
            hint.validity()
        }),
        final(buf)@ == (if r is Ok {
            crate::bytes::splice(old(buf)@, 0, hint.encoded())
        } else {
            old(buf)@
        }),
{
    encode_hint_at(buf, 0, hint)
}

/// Read a hint from the start of a buffer.
pub fn decode_schedule_hint(buf: &[u8]) -> (r: Result<ScheduleHint, ScheduleHintError>)
    ensures
        r == decoded_hint(buf@),
{
    if buf.len() < SCHEDULE_HINT_ENCODED_LEN {
        return Err(ScheduleHintError::BufferTooShort);
    }
    let magic: u16 = get_u16_le(buf, 0);
    if magic != SCHEDULE_HINT_MAGIC {
        return Err(ScheduleHintError::BadMagic);
    }
    let hint = ScheduleHint {
        version: buf[2],
        flags: buf[3],
        window_id: get_u32_le(buf, 4),
        next_delay_us: get_u32_le(buf, 8),
        period_us: get_u32_le(buf, 12),
        window_us: get_u32_le(buf, 16),
    };
    match hint.validate() {
        Ok(_) => Ok(hint),
        Err(e) => Err(e),
    }
}

/// Read the hint that follows the counter of a payload.
pub fn decode_counter_payload_schedule_hint(payload: &[u8]) -> (r: Result<
    ScheduleHint,
    ScheduleHintError,
>)
    ensures
        r == decoded_counter_hint(payload@),
{
    if payload.len() < SCHEDULE_COUNTER_HINT_PAYLOAD_LEN {
        return Err(ScheduleHintError::BufferTooShort);
    }
    decode_schedule_hint(
        &payload[SCHEDULE_HINT_PAYLOAD_OFFSET..SCHEDULE_HINT_PAYLOAD_OFFSET
            + SCHEDULE_HINT_ENCODED_LEN],
    )
}

/// `a - b`, but never below zero.
pub open spec fn sat_sub(a: u32, b: u32) -> u32 {
    if a >= b {
        (a - b) as u32
    } else {
        0
    }
}

/// What a schedule tracker has counted.
#[derive(Debug, Clone, Copy, PartialEq, Eq, Structural)]
pub struct ScheduleTrackerSnapshot {
    /// Hints that decoded.
    pub valid_hint_count: u32,
    /// Hints that did not decode.
    pub bad_hint_count: u32,
    /// Hints that named the same window as the hint before.
    pub repeat_count: u32,
    /// Hints that skipped at least one window.
    pub jump_count: u32,
    /// Windows skipped by those jumps.
    pub missed_window_count: u32,
    /// Hints that named an earlier window than the hint before.
    pub regress_count: u32,
    /// Misses since the last valid hint.
    pub current_miss_streak: u32,
    /// Longest run of misses.
    pub max_miss_streak: u32,
    /// Window of the last valid hint.
    pub last_window_id: u32,
}

/// A snapshot in which nothing has been counted.
pub open spec fn no_snapshot() -> ScheduleTrackerSnapshot {
    ScheduleTrackerSnapshot {
        valid_hint_count: 0,
        bad_hint_count: 0,
        repeat_count: 0,
        jump_count: 0,
        missed_window_count: 0,
        regress_count: 0,
        current_miss_streak: 0,
        max_miss_streak: 0,
        last_window_id: 0,
    }
}

/// A tracker that has seen nothing.
pub open spec fn new_tracker() -> ScheduleTracker {
    ScheduleTracker { seen_hint: false, snapshot: no_snapshot() }
}

impl ScheduleTrackerSnapshot {
    /// A snapshot of nothing.
    pub fn zero() -> (s: Self)
        ensures
            s == no_snapshot(),
    {
        ScheduleTrackerSnapshot {
            valid_hint_count: 0,
            bad_hint_count: 0,
            repeat_count: 0,
            jump_count: 0,
            missed_window_count: 0,
            regress_count: 0,
            current_miss_streak: 0,
            max_miss_streak: 0,
            last_window_id: 0,
        }
    }

    /// The counts gained since `previous`; streaks and window stay current.
    pub open spec fn since(self, previous: ScheduleTrackerSnapshot) -> ScheduleTrackerSnapshot {
        ScheduleTrackerSnapshot {
            valid_hint_count: sat_sub(self.valid_hint_count, previous.valid_hint_count),
            bad_hint_count: sat_sub(self.bad_hint_count, previous.bad_hint_count),
            repeat_count: sat_sub(self.repeat_count, previous.repeat_count),
            jump_count: sat_sub(self.jump_count, previous.jump_count),
            missed_window_count: sat_sub(self.missed_window_count, previous.missed_window_count),
            regress_count: sat_sub(self.regress_count, previous.regress_count),
            ..self
        }
    }

    /// The counts gained since `previous`; streaks and window stay current.
    pub fn saturating_sub(self, previous: Self) -> (d: Self)
        ensures
            d == self.since(previous),
    {
        ScheduleTrackerSnapshot {
            valid_hint_count: self.valid_hint_count.saturating_sub(previous.valid_hint_count),
            bad_hint_count: self.bad_hint_count.saturating_sub(previous.bad_hint_count),
            repeat_count: self.repeat_count.saturating_sub(previous.repeat_count),
            jump_count: self.jump_count.saturating_sub(previous.jump_count),
            missed_window_count: self.missed_window_count.saturating_sub(
                previous.missed_window_count,
            ),
            regress_count: self.regress_count.saturating_sub(previous.regress_count),
            current_miss_streak: self.current_miss_streak,
            max_miss_streak: self.max_miss_streak,
            last_window_id: self.last_window_id,
        }
    }

    /// No count is at its limit, and `windows` more windows can be missed.
    pub open spec fn has_room(self, windows: int) -> bool {
        &&& self.valid_hint_count < u32::MAX
        &&& self.bad_hint_count < u32::MAX
        &&& self.repeat_count < u32::MAX
        &&& self.jump_count < u32::MAX
        &&& self.missed_window_count + windows <= u32::MAX
        &&& self.regress_count < u32::MAX
        &&& self.current_miss_streak < u32::MAX
    }
}

/// Counts what a stream of hints and misses does.
#[derive(Debug, Clone, Copy, PartialEq, Eq, Structural)]
pub struct ScheduleTracker {
    /// A valid hint has been seen.
    pub seen_hint: bool,
    /// The counts so far.
    pub snapshot: ScheduleTrackerSnapshot,
}

impl Default for ScheduleTracker {
    fn default() -> (t: Self)
        ensures
            t == new_tracker(),
    {
        ScheduleTracker::new()
    }
}

impl ScheduleTracker {
    /// The windows that a hint for `window` skips.
    pub open spec fn skipped(self, window: u32) -> int {
        if self.seen_hint && window > self.snapshot.last_window_id + 1 {
            window - self.snapshot.last_window_id - 1
        } else {
            0
        }
    }

    /// The counts that a valid hint for `window` adds to can take it.
    pub open spec fn has_room_for_hint(self, window: u32) -> bool {
        let s = self.snapshot;
        &&& s.valid_hint_count < u32::MAX
        &&& self.seen_hint && window == s.last_window_id ==> s.repeat_count < u32::MAX
        &&& self.seen_hint && window < s.last_window_id ==> s.regress_count < u32::MAX
        &&& self.skipped(window) > 0 ==> s.jump_count < u32::MAX
        &&& s.missed_window_count + self.skipped(window) <= u32::MAX
    }

    /// The tracker after a valid hint for `window`.
    pub open spec fn after_hint(self, window: u32) -> ScheduleTracker {
        let s = self.snapshot;
        let repeat = self.seen_hint && window == s.last_window_id;
        let regress = self.seen_hint && window < s.last_window_id;
        ScheduleTracker {
            seen_hint: true,
            snapshot: ScheduleTrackerSnapshot {
                valid_hint_count: (s.valid_hint_count + 1) as u32,
                repeat_count: (s.repeat_count + if repeat { 1int } else { 0 }) as u32,
                regress_count: (s.regress_count + if regress { 1int } else { 0 }) as u32,
                jump_count: (s.jump_count + if self.skipped(window) > 0 { 1int } else { 0 }) as u32,
                missed_window_count: (s.missed_window_count + self.skipped(window)) as u32,
                current_miss_streak: 0,
                last_window_id: window,
                ..s
            },
        }
    }

    /// The tracker after a miss.
    pub open spec fn after_miss(self) -> ScheduleTracker {
        let streak = (self.snapshot.current_miss_streak + 1) as u32;
        ScheduleTracker {
            snapshot: ScheduleTrackerSnapshot {
                current_miss_streak: streak,
                max_miss_streak: if streak > self.snapshot.max_miss_streak {
                    streak
                } else {
                    self.snapshot.max_miss_streak
                },
                ..self.snapshot
            },
            ..self
        }
    }

    /// The tracker after a hint that did not decode: one more bad hint, and a miss.
    pub open spec fn after_bad_hint(self) -> ScheduleTracker {
        (ScheduleTracker {
            snapshot: ScheduleTrackerSnapshot {
                bad_hint_count: (self.snapshot.bad_hint_count + 1) as u32,
                ..self.snapshot
            },
            ..self
        }).after_miss()
    }

    /// A tracker that has seen nothing.
    pub fn new() -> (t: Self)
        ensures
            t == new_tracker(),
    {
        ScheduleTracker { seen_hint: false, snapshot: ScheduleTrackerSnapshot::zero() }
    }

    /// Forget everything.
    pub fn reset(&mut self)
        ensures
            *final(self) == new_tracker(),
    {
        *self = ScheduleTracker::new();
    }

    /// Count a valid hint.
    pub fn observe_hint(&mut self, hint: ScheduleHint)
        requires
            old(self).has_room_for_hint(hint.window_id),
        ensures
            *final(self) == old(self).after_hint(hint.window_id),
    {
        if self.seen_hint {
            let last: u32 = self.snapshot.last_window_id;
            if hint.window_id == last {
                self.snapshot.repeat_count = self.snapshot.repeat_count + 1;
            } else if hint.window_id > last {
                let delta: u32 = hint.window_id - last;
                if delta > 1 {
                    self.snapshot.jump_count = self.snapshot.jump_count + 1;
                    self.snapshot.missed_window_count = self.snapshot.missed_window_count + (delta
                        - 1);
                }
            } else {
                self.snapshot.regress_count = self.snapshot.regress_count + 1;
            }
        } else {
            self.seen_hint = true;
        }
        self.snapshot.valid_hint_count = self.snapshot.valid_hint_count + 1;
        self.snapshot.current_miss_streak = 0;
        self.snapshot.last_window_id = hint.window_id;
    }

    /// Count a hint that did not decode.
    pub fn observe_bad_hint(&mut self)
        requires
            old(self).snapshot.bad_hint_count < u32::MAX,
            old(self).snapshot.current_miss_streak < u32::MAX,
        ensures
            *final(self) == old(self).after_bad_hint(),
    {
        self.snapshot.bad_hint_count = self.snapshot.bad_hint_count + 1;
        self.observe_miss();
    }

    /// Count a miss.
    pub fn observe_miss(&mut self)
        requires
            old(self).snapshot.current_miss_streak < u32::MAX,
        ensures
            *final(self) == old(self).after_miss(),
    {
        self.snapshot.current_miss_streak = self.snapshot.current_miss_streak + 1;
        if self.snapshot.current_miss_streak > self.snapshot.max_miss_streak {
            self.snapshot.max_miss_streak = self.snapshot.current_miss_streak;
        }
    }

    /// The counts so far.
    pub fn snapshot(self) -> (s: ScheduleTrackerSnapshot)
        ensures
            s == self.snapshot,
    {
        self.snapshot
    }
}

/// The longest run of misses is never shorter than the current one, whatever
/// the tracker observes.
pub proof fn law_max_streak_bounds_current(t: ScheduleTracker, window: u32)
    requires
        t.snapshot.current_miss_streak <= t.snapshot.max_miss_streak,
        t.snapshot.current_miss_streak < u32::MAX,
    ensures
        t.after_miss().snapshot.current_miss_streak <= t.after_miss().snapshot.max_miss_streak,
        t.after_bad_hint().snapshot.current_miss_streak
            <= t.after_bad_hint().snapshot.max_miss_streak,
        t.after_hint(window).snapshot.current_miss_streak
            <= t.after_hint(window).snapshot.max_miss_streak,
{
}

/// A hint is a repeat, a regression, a jump or the next window, and never two
/// of these at once; what it skips is counted as missed, so that the window before, the
/// missed ones and the window itself follow each other.
pub proof fn law_hint_is_counted_once(t: ScheduleTracker, window: u32)
    requires
        t.has_room_for_hint(window),
    ensures
        ({
            let a = t.snapshot;
            let b = t.after_hint(window).snapshot;
            let repeats = b.repeat_count - a.repeat_count;
            let regressions = b.regress_count - a.regress_count;
            let jumps = b.jump_count - a.jump_count;
            &&& repeats + regressions + jumps <= 1
            &&& (jumps == 1 <==> b.missed_window_count > a.missed_window_count)
            &&& repeats == 1 <==> t.seen_hint && window == a.last_window_id
            &&& regressions == 1 <==> t.seen_hint && window < a.last_window_id
            &&& t.seen_hint && window > a.last_window_id ==> a.last_window_id + 1 + (
            b.missed_window_count - a.missed_window_count) == window
            &&& !t.seen_hint ==> b.missed_window_count == a.missed_window_count
            &&& b.last_window_id == window && t.after_hint(window).seen_hint
            &&& b.bad_hint_count == a.bad_hint_count && b.max_miss_streak == a.max_miss_streak
            &&& b.valid_hint_count == a.valid_hint_count + 1
            &&& b.current_miss_streak == 0
        }),
{
}

/// How well a transmitter knows a receiver's windows.
#[derive(Debug, Clone, Copy, PartialEq, Eq, Structural)]
pub enum LinkTimingMode {
    /// No usable hint.
    Unsynced,
    /// The last hint is being followed.
    Synced,
    /// Too many misses in a row.
    Degraded,
}

/// Why a transmitter does not wait for a window.
#[derive(Debug, Clone, Copy, PartialEq, Eq, Structural)]
pub enum LinkTimingFallback {
    /// No hint has been seen.
    NoHint,
    /// The hint is too old.
    HintExpired,
    /// The wait would exceed the latency budget.
    WaitTooLong,
    /// The link is degraded.
    Degraded,
}

/// What a link timing knows at a point in time.
#[derive(Debug, Clone, Copy, PartialEq, Eq, Structural)]
pub struct LinkTimingSnapshot {
    /// Current mode.
    pub mode: LinkTimingMode,
    /// How often synchronization was gained.
    pub lock_count: u32,
    /// How often a fallback was taken.
    pub fallback_count: u32,
    /// Misses since the last hint.
    pub miss_streak: u8,
    /// Window of the last hint, or zero.
    pub last_window_id: u32,
    /// Age of the last hint.
    pub hint_age_us: u32,
}

/// How long to wait for a window, or why not to.
#[derive(Debug, Clone, Copy, PartialEq, Eq, Structural)]
pub struct BoundedWindowWait {
    /// Microseconds to wait.
    pub wait_us: u32,
    /// Set when the wait was given up.
    pub fallback: Option<LinkTimingFallback>,
}

/// Limits on following a receiver's windows.
#[derive(Debug, Clone, Copy, PartialEq, Eq, Structural)]
pub struct LinkTimingConfig {
    /// How long a hint stays usable.
    pub hint_valid_us: u32,
    /// Longest acceptable wait.
    pub max_wait_us: u32,
    /// How long before a window the wait ends.
    pub window_guard_us: u32,
    /// Misses after which the link counts as degraded.
    pub miss_limit: u8,
}

impl LinkTimingConfig {
    /// Limits that suit a keyboard.
    pub fn keyboard_default() -> (c: Self)
        ensures
            c == (LinkTimingConfig {
                hint_valid_us: 200_000,
                max_wait_us: 4_000,
                window_guard_us: 400,
                miss_limit: 4,
            }),
    {
        LinkTimingConfig {
            hint_valid_us: 200_000,
            max_wait_us: 4_000,
            window_guard_us: 400,
            miss_limit: 4,
        }
    }

    /// All limits but the guard are positive.
    pub open spec fn is_valid(self) -> bool {
        self.hint_valid_us > 0 && self.max_wait_us > 0 && self.miss_limit > 0
    }

    /// Check the limits.
    pub fn validate(self) -> (ok: bool)
        ensures
            ok == self.is_valid(),
    {
        self.hint_valid_us > 0 && self.max_wait_us > 0 && self.miss_limit > 0
    }
}

/// Follows a receiver's windows from its hints.
#[derive(Debug, Clone, Copy, PartialEq, Eq, Structural)]
pub struct LinkTiming {
    /// Current mode.
    pub mode: LinkTimingMode,
    /// The hint being followed.
    pub last_hint: Option<ScheduleHint>,
    /// When that hint was seen.
    pub last_hint_at_us: u64,
    /// When the next window opens.
    pub next_window_at_us: u64,
    /// How often synchronization was gained.
    pub lock_count: u32,
    /// How often a fallback was taken.
    pub fallback_count: u32,
    /// Misses since the last hint.
    pub miss_streak: u8,
}

impl Default for LinkTiming {
    fn default() -> (t: Self)
        ensures
            t == new_link_timing(),
    {
        LinkTiming::new()
    }
}

/// A link timing that has seen nothing.
pub open spec fn new_link_timing() -> LinkTiming {
    LinkTiming {
        mode: LinkTimingMode::Unsynced,
        last_hint: None,
        last_hint_at_us: 0,
        next_window_at_us: 0,
        lock_count: 0,
        fallback_count: 0,
        miss_streak: 0,
    }
}

/// The least of `a` and the largest `u64`.
pub open spec fn capped(a: int) -> int {
    if a > u64::MAX {
        u64::MAX as int
    } else {
        a
    }
}

/// `n + 1`, but never above the largest `u32`.
pub open spec fn bumped(n: u32) -> u32 {
    if n == u32::MAX {
        n
    } else {
        (n + 1) as u32
    }
}

/// The first window that has not closed at `now`, of those that open at `next`
/// and every `period` after it and stay open for `window`.
pub open spec fn first_open_window(next: int, window: int, period: int, now: int) -> int {
    if next + window > now {
        next
    } else {
        capped(next + ((now - window - next) / period + 1) * period)
    }
}

/// The first open window has not closed, and the one a period before it has.
pub proof fn law_first_open_window(next: int, window: int, period: int, now: int)
    requires
        0 <= next,
        0 <= window,
        0 <= now < u64::MAX,
        period > 0,
    ensures
        ({
            let w = first_open_window(next, window, period, now);
            &&& w + window > now
            &&& w >= next || w == u64::MAX
            &&& next + window > now ==> w == next
            &&& w < u64::MAX && w != next ==> w - period + window <= now && (w - next) % period == 0
        }),
{
    if next + window <= now {
        let x = now - window - next;
        let k = x / period + 1;
        assert(k * period > x && (k - 1) * period <= x && k >= 1) by (nonlinear_arith)
            requires
                x >= 0,
                period > 0,
                k == x / period + 1,
        ;
        assert((k - 1) * period == k * period - period) by (nonlinear_arith);
        vstd::arithmetic::div_mod::lemma_mod_multiples_basic(k, period);
    }
}

/// Skipping one closed window does not change which window is the first open one.
proof fn lemma_skip_closed_window(next: int, window: int, period: int, now: int)
    requires
        0 <= next <= u64::MAX,
        0 <= window,
        0 <= now < u64::MAX,
        period > 0,
        next + window <= now,
    ensures
        first_open_window(capped(next + period), window, period, now) == first_open_window(
            next,
            window,
            period,
            now,
        ),
{
    let x = now - window - next;
    let k = x / period + 1;
    assert(k >= 1 && k * period >= period) by (nonlinear_arith)
        requires
            x >= 0,
            period > 0,
            k == x / period + 1,
    ;
    if x < period {
        assert(k == 1 && k * period == period) by (nonlinear_arith)
            requires
                0 <= x < period,
                k == x / period + 1,
        ;
    } else {
        let y = x - period;
        vstd::arithmetic::div_mod::lemma_div_plus_one(y, period);
        assert(y / period + 1 == k - 1);
        assert((k - 1) * period == k * period - period) by (nonlinear_arith);
        assert(now - window - (next + period) == y);
    }
}

impl LinkTiming {
    /// A hint was seen.
    pub open spec fn hinted(self, now_us: u64, hint: ScheduleHint) -> LinkTiming {
        LinkTiming {
            mode: LinkTimingMode::Synced,
            last_hint: Some(hint),
            last_hint_at_us: now_us,
            next_window_at_us: capped(now_us + hint.next_delay_us) as u64,
            miss_streak: 0,
            lock_count: if self.mode == LinkTimingMode::Synced {
                self.lock_count
            } else {
                bumped(self.lock_count)
            },
            ..self
        }
    }

    /// A window was missed; too many of these in a row degrade the link.
    pub open spec fn missed(self, config: LinkTimingConfig) -> LinkTiming {
        let streak: u8 = if self.miss_streak == u8::MAX {
            u8::MAX
        } else {
            (self.miss_streak + 1) as u8
        };
        LinkTiming {
            miss_streak: streak,
            mode: if streak >= config.miss_limit {
                LinkTimingMode::Degraded
            } else {
                self.mode
            },
            ..self
        }
    }

    /// The wait for the next window, or why there is none.
    pub open spec fn waited(self, now_us: u64, config: LinkTimingConfig) -> (
        LinkTiming,
        BoundedWindowWait,
    ) {
        if !config.is_valid() {
            (
                self.fell_back(),
                BoundedWindowWait { wait_us: 0, fallback: Some(LinkTimingFallback::NoHint) },
            )
        } else if self.mode == LinkTimingMode::Degraded {
            (
                self.fell_back(),
                BoundedWindowWait { wait_us: 0, fallback: Some(LinkTimingFallback::Degraded) },
            )
        } else if self.last_hint is None {
            (
                self.fell_back(),
                BoundedWindowWait { wait_us: 0, fallback: Some(LinkTimingFallback::NoHint) },
            )
        } else if self.hint_age(now_us) > config.hint_valid_us {
            (
                LinkTiming {
                    mode: LinkTimingMode::Unsynced,
                    last_hint: None,
                    ..self.fell_back()
                },
                BoundedWindowWait { wait_us: 0, fallback: Some(LinkTimingFallback::HintExpired) },
            )
        } else {
            let moved = LinkTiming {
                next_window_at_us: self.window_at(now_us) as u64,
                ..self
            };
            let wait = self.wait_at(now_us, config.window_guard_us);
            if wait > config.max_wait_us {
                (
                    moved.fell_back(),
                    BoundedWindowWait {
                        wait_us: 0,
                        fallback: Some(LinkTimingFallback::WaitTooLong),
                    },
                )
            } else {
                (moved, BoundedWindowWait { wait_us: wait as u32, fallback: None })
            }
        }
    }

    /// The same timing after one more fallback.
    pub open spec fn fell_back(self) -> LinkTiming {
        LinkTiming { fallback_count: bumped(self.fallback_count), ..self }
    }

    /// The age of the last hint at `now`.
    pub open spec fn hint_age(self, now: u64) -> int {
        if now >= self.last_hint_at_us {
            now - self.last_hint_at_us
        } else {
            0
        }
    }

    /// The last hint is in force at `now`: `bounded_wait` looks for its window.
    pub open spec fn follows_hint(self, now: u64, config: LinkTimingConfig) -> bool {
        config.is_valid() && self.mode != LinkTimingMode::Degraded && self.last_hint is Some
            && self.hint_age(now) <= config.hint_valid_us
    }

    /// The window that a hint in force points to at `now`.
    pub open spec fn window_at(self, now: u64) -> int {
        first_open_window(
            self.next_window_at_us as int,
            self.last_hint->0.window_us as int,
            self.last_hint->0.period_us as int,
            now as int,
        )
    }

    /// How long it is until `guard` before the window that is in force.
    pub open spec fn wait_at(self, now: u64, guard: u32) -> int {
        if self.window_at(now) - guard > now {
            self.window_at(now) - guard - now
        } else {
            0
        }
    }

    /// A timing that has seen nothing.
    pub fn new() -> (t: Self)
        ensures
            t == new_link_timing(),
    {
        LinkTiming {
            mode: LinkTimingMode::Unsynced,
            last_hint: None,
            last_hint_at_us: 0,
            next_window_at_us: 0,
            lock_count: 0,
            fallback_count: 0,
            miss_streak: 0,
        }
    }

    /// Follow a new hint.
    pub fn observe_hint(&mut self, now_us: u64, hint: ScheduleHint)
        ensures
            *final(self) == old(self).hinted(now_us, hint),
    {
        let was_synced = self.mode == LinkTimingMode::Synced;
        self.mode = LinkTimingMode::Synced;
        self.last_hint = Some(hint);
        self.last_hint_at_us = now_us;
        self.next_window_at_us = now_us.saturating_add(hint.next_delay_us as u64);
        self.miss_streak = 0;
        if !was_synced {
            self.lock_count = self.lock_count.saturating_add(1);
        }
    }

    /// Count a miss; too many in a row degrade the link.
    pub fn observe_miss(&mut self, config: LinkTimingConfig)
        ensures
            *final(self) == old(self).missed(config),
    {
        self.miss_streak = self.miss_streak.saturating_add(1);
        if self.miss_streak >= config.miss_limit {
            self.mode = LinkTimingMode::Degraded;
        }
    }

    /// Give up the current hint.
    pub fn reset_to_scan(&mut self)
        ensures
            *final(self) == (LinkTiming {
                mode: LinkTimingMode::Unsynced,
                last_hint: None,
                next_window_at_us: 0,
                miss_streak: 0,
                ..*old(self)
            }),
    {
        self.mode = LinkTimingMode::Unsynced;
        self.last_hint = None;
        self.next_window_at_us = 0;
        self.miss_streak = 0;
    }

    /// How long to wait for the next window, within the limits of `config`.
    ///
    /// Without a usable hint, or where the wait would be too long, the answer
    /// is not to wait, with the reason.
    pub fn bounded_wait(&mut self, now_us: u64, config: LinkTimingConfig) -> (w: BoundedWindowWait)
        requires
            old(self).follows_hint(now_us, config) ==> now_us < u64::MAX
                && (old(self).next_window_at_us + old(self).last_hint->0.window_us <= now_us
                ==> old(self).last_hint->0.period_us > 0),
        ensures
            *final(self) == old(self).waited(now_us, config).0,
            w == old(self).waited(now_us, config).1,
    {
        if !config.validate() {
            self.fallback_count = self.fallback_count.saturating_add(1);
            return BoundedWindowWait { wait_us: 0, fallback: Some(LinkTimingFallback::NoHint) };
        }
        if self.mode == LinkTimingMode::Degraded {
            self.fallback_count = self.fallback_count.saturating_add(1);
            return BoundedWindowWait { wait_us: 0, fallback: Some(LinkTimingFallback::Degraded) };
        }
        let hint = match self.last_hint {
            Some(hint) => hint,
            None => {
                self.fallback_count = self.fallback_count.saturating_add(1);
                return BoundedWindowWait { wait_us: 0, fallback: Some(LinkTimingFallback::NoHint) };
            },
        };
        let age_us: u64 = now_us.saturating_sub(self.last_hint_at_us);
        if age_us > config.hint_valid_us as u64 {
            self.mode = LinkTimingMode::Unsynced;
            self.last_hint = None;
            self.fallback_count = self.fallback_count.saturating_add(1);
            return BoundedWindowWait { wait_us: 0, fallback: Some(LinkTimingFallback::HintExpired) };
        }
        let ghost first = first_open_window(
            self.next_window_at_us as int,
            hint.window_us as int,
            hint.period_us as int,
            now_us as int,
        );
        while self.next_window_at_us.saturating_add(hint.window_us as u64) <= now_us
            invariant
                now_us < u64::MAX,
                self.next_window_at_us + hint.window_us <= now_us ==> hint.period_us > 0,
                first == first_open_window(
                    self.next_window_at_us as int,
                    hint.window_us as int,
                    hint.period_us as int,
                    now_us as int,
                ),
                *self == (LinkTiming { next_window_at_us: self.next_window_at_us, ..*old(self) }),
            decreases u64::MAX - self.next_window_at_us,
        {
            proof {
                lemma_skip_closed_window(
                    self.next_window_at_us as int,
                    hint.window_us as int,
                    hint.period_us as int,
                    now_us as int,
                );
            }
            self.next_window_at_us = self.next_window_at_us.saturating_add(hint.period_us as u64);
        }
        let target_us: u64 = self.next_window_at_us.saturating_sub(config.window_guard_us as u64);
        let wait_us: u64 = target_us.saturating_sub(now_us);
        if wait_us > config.max_wait_us as u64 {
            self.fallback_count = self.fallback_count.saturating_add(1);
            return BoundedWindowWait { wait_us: 0, fallback: Some(LinkTimingFallback::WaitTooLong) };
        }
        BoundedWindowWait { wait_us: wait_us as u32, fallback: None }
    }

    /// What is known at `now_us`.
    pub fn snapshot(&self, now_us: u64) -> (s: LinkTimingSnapshot)
        ensures
            s == (LinkTimingSnapshot {
                mode: self.mode,
                lock_count: self.lock_count,
                fallback_count: self.fallback_count,
                miss_streak: self.miss_streak,
                last_window_id: match self.last_hint {
                    Some(h) => h.window_id,
                    None => 0,
                },
                hint_age_us: if self.hint_age(now_us) > u32::MAX {
                    u32::MAX
                } else {
                    self.hint_age(now_us) as u32
                },
            }),
    {
        let age: u64 = now_us.saturating_sub(self.last_hint_at_us);
        LinkTimingSnapshot {
            mode: self.mode,
            lock_count: self.lock_count,
            fallback_count: self.fallback_count,
            miss_streak: self.miss_streak,
            last_window_id: match self.last_hint {
                Some(h) => h.window_id,
                None => 0,
            },
            hint_age_us: if age > u32::MAX as u64 {
                u32::MAX
            } else {
                age as u32
            },
        }
    }
}

/// A wait that is not given up never exceeds the budget, and it ends no later
/// than the guard before the window it waits for.
pub proof fn law_wait_within_budget(t: LinkTiming, now: u64, config: LinkTimingConfig)
    requires
        t.follows_hint(now, config),
        now < u64::MAX,
        t.last_hint->0.validity() is Ok,
        t.wait_at(now, config.window_guard_us) <= config.max_wait_us,
    ensures
        t.wait_at(now, config.window_guard_us) > 0 ==> now + t.wait_at(now, config.window_guard_us)
            + config.window_guard_us == t.window_at(now),
        now + t.wait_at(now, config.window_guard_us) < t.window_at(now)
            + t.last_hint->0.window_us,
{
    law_first_open_window(
        t.next_window_at_us as int,
        t.last_hint->0.window_us as int,
        t.last_hint->0.period_us as int,
        now as int,
    );
}

/// A hint sets the next window, whatever was known before: a wait right after it ends
/// the guard before `next_delay_us` from now, or at once where that is over, and is
/// given up exactly where it would exceed the budget.
pub proof fn law_hint_sets_next_window(
    t: LinkTiming,
    now: u64,
    hint: ScheduleHint,
    config: LinkTimingConfig,
)
    requires
        config.is_valid(),
        hint.next_delay_us + hint.window_us > 0,
        now + hint.next_delay_us <= u64::MAX,
    ensures
        ({
            let (after, wait) = t.hinted(now, hint).waited(now, config);
            let ahead = hint.next_delay_us - config.window_guard_us;
            &&& wait.fallback is Some <==> ahead > config.max_wait_us
            &&& wait.fallback is Some ==> wait == (BoundedWindowWait {
                wait_us: 0,
                fallback: Some(LinkTimingFallback::WaitTooLong),
            })
            &&& wait.fallback is None && ahead > 0 ==> now + wait.wait_us + config.window_guard_us
                == now + hint.next_delay_us
            &&& wait.fallback is None && ahead <= 0 ==> wait.wait_us == 0
            &&& after.next_window_at_us == now + hint.next_delay_us
        }),
{
}

/// The windows that a hint announces follow each other at its period: at any later time
/// while the hint is valid, the wait is for the first of them that has not closed.
pub proof fn law_hint_announces_windows(
    t: LinkTiming,
    at: u64,
    hint: ScheduleHint,
    now: u64,
    config: LinkTimingConfig,
) -> (k: int)
    requires
        config.is_valid(),
        hint.period_us > 0,
        at <= now < u64::MAX - u32::MAX - u32::MAX,
        now - at <= config.hint_valid_us,
    ensures
        k >= 0,
        ({
            let window = at + hint.next_delay_us + k * hint.period_us;
            let (after, wait) = t.hinted(at, hint).waited(now, config);
            &&& window + hint.window_us > now
            &&& k > 0 ==> window - hint.period_us + hint.window_us <= now
            &&& after.next_window_at_us == window
            &&& wait.fallback is Some <==> window - config.window_guard_us - now
                > config.max_wait_us
            &&& wait.fallback is None ==> (if window - config.window_guard_us > now {
                now + wait.wait_us + config.window_guard_us == window
            } else {
                wait.wait_us == 0
            })
        }),
{
    let next = at + hint.next_delay_us;
    let period = hint.period_us as int;
    if next + hint.window_us > now {
        0
    } else {
        let x = now - hint.window_us - next;
        let k = x / period + 1;
        assert(k * period > x && (k - 1) * period <= x && k >= 1 && (k - 1) * period == k * period
            - period) by (nonlinear_arith)
            requires
                x >= 0,
                period > 0,
                k == x / period + 1,
        ;
        k
    }
}

/// `n` misses in a row.
pub open spec fn misses_run(t: LinkTiming, config: LinkTimingConfig, n: nat) -> LinkTiming
    decreases n,
{
    if n == 0 {
        t
    } else {
        misses_run(t, config, (n - 1) as nat).missed(config)
    }
}

/// After a hint the link bears fewer misses in a row than the limit, and degrades with
/// the one that reaches it. Then no window is waited for, until a hint, which ends the
/// row of misses and is followed at once.
pub proof fn law_misses_degrade_link(
    t: LinkTiming,
    at: u64,
    hint: ScheduleHint,
    config: LinkTimingConfig,
    n: nat,
    now: u64,
)
    requires
        config.is_valid(),
        n <= 255,
    ensures
        ({
            let run = misses_run(t.hinted(at, hint), config, n);
            &&& run.miss_streak == n
            &&& run.mode == (if n >= config.miss_limit {
                LinkTimingMode::Degraded
            } else {
                LinkTimingMode::Synced
            })
            &&& n >= config.miss_limit ==> run.waited(now, config).1 == (BoundedWindowWait {
                wait_us: 0,
                fallback: Some(LinkTimingFallback::Degraded),
            })
            &&& run.last_hint == Some(hint) && run.last_hint_at_us == at
            &&& run.next_window_at_us == t.hinted(at, hint).next_window_at_us
            &&& run.hinted(now, hint).mode == LinkTimingMode::Synced
            &&& run.hinted(now, hint).miss_streak == 0
        }),
    decreases n,
{
    if n > 0 {
        law_misses_degrade_link(t, at, hint, config, (n - 1) as nat, now);
    }
}

/// Synchronization is counted where it is gained: by a hint that finds the link not
/// synchronized, and by no other.
pub proof fn law_lock_is_counted_when_gained(t: LinkTiming, now: u64, hint: ScheduleHint)
    requires
        t.lock_count < u32::MAX,
    ensures
        t.hinted(now, hint).lock_count == t.lock_count + if t.mode == LinkTimingMode::Synced {
            0int
        } else {
            1
        },
        t.hinted(now, hint).hinted(now, hint).lock_count == t.hinted(now, hint).lock_count,
        t.hinted(now, hint).fallback_count == t.fallback_count,
{
}

/// A hint that is too old is forgotten: no wait follows it any more, and the next answer
/// is that there is none. Every wait that is given up is counted, and no other.
pub proof fn law_old_hint_is_forgotten(t: LinkTiming, now: u64, config: LinkTimingConfig)
    requires
        t.fallback_count < u32::MAX - 1,
    ensures
        ({
            let (after, wait) = t.waited(now, config);
            &&& after.fallback_count == t.fallback_count + if wait.fallback is Some {
                1int
            } else {
                0
            }
            &&& wait.fallback == Some(LinkTimingFallback::HintExpired) ==> {
                &&& t.last_hint is Some && now > t.last_hint_at_us + config.hint_valid_us
                &&& after.last_hint is None
                &&& after.waited(now, config).1.fallback == Some(LinkTimingFallback::NoHint)
            }
            &&& config.is_valid() && t.mode != LinkTimingMode::Degraded && t.last_hint is Some
                && now > t.last_hint_at_us + config.hint_valid_us ==> wait.fallback == Some(
                LinkTimingFallback::HintExpired,
            )
        }),
{
}

/// Where the fields of a hint stand on the wire.
pub proof fn law_hint_layout(hint: ScheduleHint)
    ensures
        hint.encoded().len() == 20,
        crate::bytes::u16_at(hint.encoded(), 0) == SCHEDULE_HINT_MAGIC,
        hint.encoded()[2] == hint.version,
        hint.encoded()[3] == hint.flags,
        crate::bytes::u32_at(hint.encoded(), 4) == hint.window_id,
        crate::bytes::u32_at(hint.encoded(), 8) == hint.next_delay_us,
        crate::bytes::u32_at(hint.encoded(), 12) == hint.period_us,
        crate::bytes::u32_at(hint.encoded(), 16) == hint.window_us,
{
    crate::bytes::lemma_u32_round_trip(hint.window_id);
    crate::bytes::lemma_u32_round_trip(hint.next_delay_us);
    crate::bytes::lemma_u32_round_trip(hint.period_us);
    crate::bytes::lemma_u32_round_trip(hint.window_us);
    crate::bytes::lemma_u16_round_trip(SCHEDULE_HINT_MAGIC);
}

/// A hint is decoded exactly from bytes that begin with the encoding of a valid hint
/// of this version: its window is not empty, and no longer than its period.
pub proof fn law_only_valid_hints_decode(buf: Seq<u8>)
    ensures
        decoded_hint(buf) is Ok <==> buf.len() >= 20 && crate::bytes::u16_at(buf, 0)
            == SCHEDULE_HINT_MAGIC && buf[2] == SCHEDULE_HINT_VERSION && 0
            < crate::bytes::u32_at(buf, 16) <= crate::bytes::u32_at(buf, 12),
        decoded_hint(buf) matches Ok(h) ==> h.encoded() == buf.take(20),
{
    if let Ok(h) = decoded_hint(buf) {
        crate::bytes::lemma_u16_bytes(buf, 0);
        crate::bytes::lemma_u32_bytes(buf, 4);
        crate::bytes::lemma_u32_bytes(buf, 8);
        crate::bytes::lemma_u32_bytes(buf, 12);
        crate::bytes::lemma_u32_bytes(buf, 16);
        assert(h.encoded() =~= buf.take(20));
    }
}

/// A miss lengthens the run of misses by one, and the longest run with it where this
/// one is the longest; a hint that does not decode is one more bad hint and a miss.
/// Neither says anything of the windows.
pub proof fn law_miss_lengthens_streak(t: ScheduleTracker)
    requires
        t.snapshot.current_miss_streak < u32::MAX,
        t.snapshot.bad_hint_count < u32::MAX,
    ensures
        ({
            let a = t.snapshot;
            let m = t.after_miss().snapshot;
            let b = t.after_bad_hint().snapshot;
            &&& m.current_miss_streak == a.current_miss_streak + 1
            &&& m.max_miss_streak >= m.current_miss_streak && m.max_miss_streak >= a.max_miss_streak
            &&& m.max_miss_streak == a.max_miss_streak || m.max_miss_streak
                == m.current_miss_streak
            &&& b.current_miss_streak == m.current_miss_streak && b.max_miss_streak
                == m.max_miss_streak
            &&& m.bad_hint_count == a.bad_hint_count && b.bad_hint_count == a.bad_hint_count + 1
            &&& m.valid_hint_count == a.valid_hint_count && b.valid_hint_count
                == a.valid_hint_count
            &&& m.missed_window_count == a.missed_window_count && b.missed_window_count
                == a.missed_window_count
            &&& m.last_window_id == a.last_window_id && b.last_window_id == a.last_window_id
            &&& t.after_miss().seen_hint == t.seen_hint && t.after_bad_hint().seen_hint
                == t.seen_hint
        }),
{
}

/// A wait is given up for one reason, and every time that happens is counted: the
/// configuration or the hint is missing, the link is degraded, the hint is too old, or
/// the window is further away than the longest wait. A wait that is not given up is
/// not counted.
pub proof fn law_fallback_has_a_reason(t: LinkTiming, now: u64, config: LinkTimingConfig)
    requires
        t.fallback_count < u32::MAX,
    ensures
        ({
            let (after, wait) = t.waited(now, config);
            let degraded = t.mode == LinkTimingMode::Degraded;
            let old = t.hint_age(now) > config.hint_valid_us;
            &&& !config.is_valid() ==> wait.fallback == Some(LinkTimingFallback::NoHint)
            &&& config.is_valid() && degraded ==> wait.fallback == Some(
                LinkTimingFallback::Degraded,
            )
            &&& config.is_valid() && !degraded && t.last_hint is None ==> wait.fallback == Some(
                LinkTimingFallback::NoHint,
            )
            &&& config.is_valid() && !degraded && t.last_hint is Some && old ==> wait.fallback
                == Some(LinkTimingFallback::HintExpired) && after.last_hint is None
            &&& t.follows_hint(now, config) ==> wait.fallback == (if t.window_at(now)
                - config.window_guard_us - now > config.max_wait_us {
                Some(LinkTimingFallback::WaitTooLong)
            } else {
                None
            })
            &&& after.fallback_count == t.fallback_count + if wait.fallback is Some {
                1int
            } else {
                0
            }
            &&& wait.fallback is Some ==> wait.wait_us == 0
            &&& after.lock_count == t.lock_count && after.miss_streak == t.miss_streak
        }),
{
}

} // verus!
