//! What the left half knows of the right half.
//!
//! Frames of the right half carry a snapshot of its matrix, or a single key event.
//! A frame counts once, and only from the device that is bound to its pipe.

use crate::header::EsbHeader;
use crate::keymap::RIGHT_KEY_BASE;
use crate::matrix::{KeyEvent, Matrix, ROWS};
use crate::mpsl_common;
use crate::mpsl_profile;
use crate::mpsl_profile::count_pipes;
use crate::mpsl_schedule::ScheduleHint;
use crate::slot_ptx;
use crate::transport;
use crate::transport::{
    accept_bound_frame, decode_frame, decode_transport_ack, encode_transport_ack, SequenceTracker,
    StaticBindingTable, TransportAck, TransportHeader, TRANSPORT_ACK_LEN,
};
use vstd::prelude::*;

verus! {

/// First byte of a snapshot.
pub const SNAPSHOT_MSG: u8 = 0x53;

/// Length of a snapshot: its first byte and one byte per row.
pub const SNAPSHOT_PAYLOAD_LEN: usize = 6;

/// Device identifier of the right half.
pub const RIGHT_DEVICE_ID: u8 = 0;

/// Pipe of the right half.
pub const RIGHT_PIPE: u8 = 1;

/// The state of the right half, in plain values.
#[verifier::ext_equal]
pub struct RightState {
    /// Rows of its matrix.
    pub rows: Seq<u8>,
    /// They have changed since they were taken over.
    pub dirty: bool,
    /// Sequence number of the last change.
    pub sequence: u8,
    /// When it was last heard.
    pub last_seen_ms: u32,
}

/// What the left half knows of the right half.
pub struct RightHalf {
    /// Its matrix.
    pub rows: Matrix,
    /// The matrix has changed since it was taken over.
    pub dirty: bool,
    /// Sequence number of the last change.
    pub sequence: u8,
    /// When it was last heard, in milliseconds; zero for never.
    pub last_seen_ms: u32,
}

/// What a frame of the right half was.
#[derive(Debug, Clone, Copy, PartialEq, Eq, Structural)]
pub enum RightEvent {
    /// Not from a bound device, or not a frame.
    Invalid,
    /// A frame that came before.
    Repeated,
    /// A snapshot, with this many keys changed.
    Snapshot(u8),
    /// A key event.
    Key(KeyEvent),
    /// A payload of another length.
    BadLength,
    /// A key that does not exist.
    BadKey,
}

/// The link was silent for too long while a key was held.
pub open spec fn link_lost(rows: Seq<u8>, last_seen_ms: u32, now_ms: u32) -> bool {
    &&& last_seen_ms > 0
    &&& now_ms > last_seen_ms + crate::hid::LINK_LOSS_TIMEOUT_MS
    &&& exists|i: int| 0 <= i < ROWS && #[trigger] rows[i] != 0
}

/// How many bits the first `n` rows differ in.
pub open spec fn changed_keys(before: Seq<u8>, after: Seq<u8>, n: int) -> int
    decreases n,
{
    if n <= 0 {
        0
    } else {
        changed_keys(before, after, n - 1) + mpsl_profile::mask_size(before[n - 1] ^ after[n - 1])
    }
}

/// A payload is a snapshot.
pub open spec fn is_snapshot(payload: Seq<u8>) -> bool {
    payload.len() == SNAPSHOT_PAYLOAD_LEN && payload[0] == SNAPSHOT_MSG
}

/// What the payload of a frame is.
pub open spec fn payload_event(rows: Seq<u8>, payload: Seq<u8>) -> RightEvent {
    if is_snapshot(payload) {
        RightEvent::Snapshot(
            changed_keys(rows, payload.subrange(1, 6), ROWS as int) as u8,
        )
    } else if payload.len() != 2 {
        RightEvent::BadLength
    } else if payload[0] < 40 {
        RightEvent::Key(
            KeyEvent { key_id: (payload[0] + RIGHT_KEY_BASE) as u8, pressed: payload[1] != 0 },
        )
    } else {
        RightEvent::BadKey
    }
}

impl RightState {
    /// The link was silent for too long while a key was held.
    pub open spec fn lost(self, now_ms: u32) -> bool {
        link_lost(self.rows, self.last_seen_ms, now_ms)
    }

    /// Every key is released.
    pub open spec fn cleared(self) -> RightState {
        RightState { rows: seq![0u8, 0, 0, 0, 0], dirty: true, ..self }
    }

    /// A frame was accepted.
    pub open spec fn heard(self, header: TransportHeader, payload: Seq<u8>, now_ms: u32) -> RightState {
        if is_snapshot(payload) {
            let rows = payload.subrange(1, 6);
            let changed = changed_keys(self.rows, rows, ROWS as int) != 0;
            RightState {
                rows,
                dirty: self.dirty || changed,
                sequence: if changed {
                    header.sequence
                } else {
                    self.sequence
                },
                last_seen_ms: now_ms,
            }
        } else {
            RightState { last_seen_ms: now_ms, ..self }
        }
    }
}

impl RightHalf {
    /// Its state, in plain values.
    pub open spec fn state(&self) -> RightState {
        RightState {
            rows: self.rows.rows@,
            dirty: self.dirty,
            sequence: self.sequence,
            last_seen_ms: self.last_seen_ms,
        }
    }

    /// Nothing was heard yet.
    pub fn new() -> (r: Self)
        ensures
            r.state() == (RightState {
                rows: seq![0u8, 0, 0, 0, 0],
                dirty: false,
                sequence: 0,
                last_seen_ms: 0,
            }),
    {
        RightHalf { rows: Matrix::new(), dirty: false, sequence: 0, last_seen_ms: 0 }
    }

    /// Release every key.
    pub fn clear_right_keys(&mut self)
        ensures
            final(self).state() == old(self).state().cleared(),
    {
        self.rows = Matrix::new();
        self.dirty = true;
    }

    /// Release every key if the right half was silent for too long; the time of
    /// silence is returned then.
    pub fn check_link(&mut self, now_ms: u32) -> (silent_ms: Option<u32>)
        ensures
            ({
                let lost = old(self).state().lost(now_ms);
                &&& silent_ms == (if lost {
                    Some((now_ms - old(self).last_seen_ms) as u32)
                } else {
                    None
                })
                &&& final(self).state() == (if lost {
                    old(self).state().cleared()
                } else {
                    old(self).state()
                })
            }),
    {
        if self.last_seen_ms == 0 {
            return None;
        }
        let silent_ms: u32 = now_ms.saturating_sub(self.last_seen_ms);
        if silent_ms > crate::hid::LINK_LOSS_TIMEOUT_MS && self.rows.any_held() {
            self.clear_right_keys();
            Some(silent_ms)
        } else {
            None
        }
    }

    /// Take a snapshot over; the number of changed keys is returned.
    fn take_snapshot(&mut self, rows: &[u8], sequence: u8) -> (changed: u8)
        requires
            rows@.len() == ROWS,
        ensures
            changed == changed_keys(old(self).rows.rows@, rows@, ROWS as int),
            final(self).rows.rows@ == rows@,
            final(self).last_seen_ms == old(self).last_seen_ms,
            final(self).dirty == (old(self).dirty || changed != 0),
            final(self).sequence == (if changed != 0 {
                sequence
            } else {
                old(self).sequence
            }),
    {
        let mut changed: u8 = 0;
        let mut r: usize = 0;
        while r < ROWS
            invariant
                r <= ROWS,
                rows@.len() == ROWS,
                changed == changed_keys(old(self).rows.rows@, rows@, r as int),
                changed <= 8 * r,
                forall|i: int| 0 <= i < r ==> #[trigger] self.rows.rows@[i] == rows@[i],
                forall|i: int|
                    r <= i < ROWS ==> #[trigger] self.rows.rows@[i] == old(self).rows.rows@[i],
                self.dirty == old(self).dirty,
                self.sequence == old(self).sequence,
                self.last_seen_ms == old(self).last_seen_ms,
            decreases ROWS - r,
        {
            let previous: u8 = self.rows.rows[r];
            let next: u8 = rows[r];
            let n: u32 = count_pipes(previous ^ next);
            self.rows.rows[r] = next;
            changed = changed + n as u8;
            r = r + 1;
        }
        assert(self.rows.rows@ =~= rows@);
        if changed != 0 {
            self.sequence = sequence;
            self.dirty = true;
        }
        changed
    }

    /// Take a frame into account that came on `pipe` at `now_ms`.
    pub fn handle_frame<const PIPES: usize, const DEVICES: usize>(
        &mut self,
        bindings: &StaticBindingTable<PIPES>,
        tracker: &mut SequenceTracker<DEVICES>,
        pipe: u8,
        frame: &[u8],
        now_ms: u32,
    ) -> (event: RightEvent)
        ensures
            match transport::frame_verdict(bindings@, old(tracker)@, pipe, frame@) {
                Ok(Some((header, payload))) => {
                    &&& event == payload_event(old(self).rows.rows@, payload)
                    &&& final(self).state() == old(self).state().heard(header, payload, now_ms)
                    &&& final(tracker)@ == old(tracker)@.update(
                        header.device_id as int,
                        Some(header.sequence),
                    )
                },
                Ok(None) => event == RightEvent::Repeated && final(self).state()
                    == old(self).state() && final(tracker)@ == old(tracker)@,
                Err(_) => event == RightEvent::Invalid && final(self).state()
                    == old(self).state() && final(tracker)@ == old(tracker)@,
            },
    {
        let (header, payload) = match accept_bound_frame(bindings, tracker, pipe, frame) {
            Ok(Some((header, payload))) => (header, payload),
            Ok(None) => {
                return RightEvent::Repeated;
            },
            Err(_) => {
                return RightEvent::Invalid;
            },
        };
        self.last_seen_ms = now_ms;
        if payload.len() == SNAPSHOT_PAYLOAD_LEN && payload[0] == SNAPSHOT_MSG {
            let changed: u8 = self.take_snapshot(&payload[1..6], header.sequence);
            return RightEvent::Snapshot(changed);
        }
        if payload.len() != 2 {
            return RightEvent::BadLength;
        }
        let key_id: u8 = payload[0];
        if key_id < 40 {
            RightEvent::Key(
                KeyEvent { key_id: key_id + RIGHT_KEY_BASE, pressed: payload[1] != 0 },
            )
        } else {
            RightEvent::BadKey
        }
    }
}

/// The transport ACK that goes out with the radio's ACK of a packet: for a frame of
/// the right half on its pipe, once it has been queued.
pub open spec fn ack_extension(pipe: u8, payload: Seq<u8>, queued: bool) -> Option<TransportAck> {
    if queued && pipe == RIGHT_PIPE && transport::frame_ok(payload) && transport::raw_header(
        payload,
    ).device_id == RIGHT_DEVICE_ID {
        Some(
            TransportAck {
                device_id: RIGHT_DEVICE_ID,
                sequence: transport::raw_header(payload).sequence,
            },
        )
    } else {
        None
    }
}

/// The bytes of that transport ACK.
pub fn right_transport_ack_extension(pipe: u8, payload: &[u8], queued: bool) -> (r: Option<
    [u8; TRANSPORT_ACK_LEN],
>)
    ensures
        match ack_extension(pipe, payload@, queued) {
            Some(ack) => r is Some && r->0@ == ack.encoded(),
            None => r is None,
        },
{
    if !queued || pipe != RIGHT_PIPE {
        return None;
    }
    let header = match decode_frame(payload) {
        Ok((header, _)) => header,
        Err(_) => {
            return None;
        },
    };
    if header.device_id != RIGHT_DEVICE_ID {
        return None;
    }
    let mut out: [u8; TRANSPORT_ACK_LEN] = [0; TRANSPORT_ACK_LEN];
    let ack = TransportAck::new(header.device_id, header.sequence);
    match encode_transport_ack(ack, &mut out) {
        Ok(_) => {
            assert(out@ =~= ack.encoded());
            Some(out)
        },
        Err(_) => None,
    }
}

/// An ACK with a counter and a hint, and a transport ACK behind them.
pub open spec fn extended(buf: Seq<u8>, extension: Seq<u8>) -> Seq<u8> {
    crate::bytes::splice(buf.update(2, 28), 28, extension)
}

/// Put a transport ACK behind the counter and the hint of an ACK. Returns false,
/// with `buf` unchanged, where it holds something else.
pub fn extend_ack(buf: &mut [u8; 256], extension: &[u8; TRANSPORT_ACK_LEN]) -> (fits: bool)
    ensures
        fits == (old(buf)@[2] == 24),
        final(buf)@ == (if fits {
            extended(old(buf)@, extension@)
        } else {
            old(buf)@
        }),
{
    if buf[EsbHeader::DMA_OFFSET] != 24 {
        return false;
    }
    buf[EsbHeader::DMA_OFFSET] = 28;
    crate::bytes::copy_into(buf, 28, extension);
    true
}

/// The transport ACK in a received ACK, if it has one.
pub open spec fn ack_in(rx: Seq<u8>) -> Option<TransportAck> {
    if rx[2] >= 28 {
        match transport::decoded_ack(rx.subrange(28, 32)) {
            Ok(ack) => Some(ack),
            Err(_) => None,
        }
    } else {
        None
    }
}

/// Read the transport ACK in a received ACK.
pub fn read_transport_ack(rx: &[u8; 256]) -> (r: Option<TransportAck>)
    ensures
        r == ack_in(rx@),
{
    if rx[EsbHeader::DMA_OFFSET] < 28 {
        return None;
    }
    let bytes: &[u8] = &rx[28..32];
    match decode_transport_ack(bytes) {
        Ok(ack) => Some(ack),
        Err(_) => None,
    }
}

/// An ACK that was extended reads back whole: its counter, its hint and its
/// transport ACK.
pub proof fn law_extended_ack_is_read(buf: Seq<u8>, counter: u32, hint: ScheduleHint, ack: TransportAck)
    requires
        buf.len() == 256,
        hint.validity() is Ok,
    ensures
        ({
            let rx = extended(
                mpsl_common::counter_schedule_packet(buf, 0, counter, hint),
                ack.encoded(),
            );
            &&& mpsl_common::counter_of(rx) == Some(counter)
            &&& slot_ptx::ack_hint(rx) == Some(hint)
            &&& ack_in(rx) == Some(ack)
        }),
{
    let base = mpsl_common::counter_schedule_packet(buf, 0, counter, hint);
    let rx = extended(base, ack.encoded());
    mpsl_common::law_counter_round_trip(buf, 0, counter, hint, Seq::empty());
    transport::law_ack_round_trip(ack, Seq::empty());
    assert(ack.encoded() + Seq::<u8>::empty() =~= ack.encoded());
    assert(rx.subrange(28, 32) =~= ack.encoded());
    assert(rx.subrange(4, 8) =~= base.subrange(4, 8));
    let long = rx.subrange(4, 32);
    let short = base.subrange(4, 28);
    assert(long.subrange(4, 24) =~= short.subrange(4, 24));
}

/// Two sets of rows differ in no key exactly when they are the same.
pub proof fn law_no_change_means_same(before: Seq<u8>, after: Seq<u8>, n: int)
    requires
        0 <= n <= before.len(),
        n <= after.len(),
    ensures
        changed_keys(before, after, n) >= 0,
        changed_keys(before, after, n) == 0 <==> before.take(n) == after.take(n),
    decreases n,
{
    if n > 0 {
        law_no_change_means_same(before, after, n - 1);
        let a = before[n - 1];
        let b = after[n - 1];
        lemma_mask_size(a ^ b);
        assert(a ^ b == 0 <==> a == b) by (bit_vector);
        assert(before.take(n).drop_last() =~= before.take(n - 1));
        assert(after.take(n).drop_last() =~= after.take(n - 1));
        if changed_keys(before, after, n) == 0 {
            assert(before.take(n) =~= before.take(n - 1).push(a));
            assert(after.take(n) =~= after.take(n - 1).push(b));
        }
        if before.take(n) == after.take(n) {
            assert(before.take(n)[n - 1] == after.take(n)[n - 1]);
        }
    } else {
        assert(before.take(n) =~= after.take(n));
    }
}

/// A number has no bits exactly when it is zero.
proof fn lemma_mask_size(m: u8)
    ensures
        mpsl_profile::mask_size(m) >= 0,
        mpsl_profile::mask_size(m) == 0 <==> m == 0,
{
    assert((m >> 0) & 1 == 0 && (m >> 1) & 1 == 0 && (m >> 2) & 1 == 0 && (m >> 3) & 1 == 0 && (m
        >> 4) & 1 == 0 && (m >> 5) & 1 == 0 && (m >> 6) & 1 == 0 && (m >> 7) & 1 == 0 <==> m == 0)
        by (bit_vector);
}

/// A key of the right half does not stay held after the link is lost: the rows are
/// cleared, and the next round takes them over.
pub proof fn law_lost_link_releases_keys(s: RightState, active: Seq<bool>, now_ms: u32, p: int)
    requires
        s.lost(now_ms),
        active.len() == crate::keymap::TOTAL_KEYS,
        0 <= p < crate::keymap::TOTAL_KEYS,
        p % 15 >= 7,
    ensures
        s.cleared().dirty,
        !s.cleared().lost(now_ms),
        !crate::hid::with_right_rows(active, s.cleared().rows)[p],
{
    let c = (p % 15 - 7) as u8;
    assert(0u8 & (1u8 << c) == 0) by (bit_vector);
    assert(s.cleared().rows[p / 15] == 0);
}

/// A repeated frame changes nothing: the same frame right after an accepted one is
/// taken for a copy.
pub proof fn law_repeated_frame_is_ignored(
    bindings: Seq<Option<u8>>,
    tracker: Seq<Option<u8>>,
    pipe: u8,
    frame: Seq<u8>,
)
    requires
        transport::frame_verdict(bindings, tracker, pipe, frame) matches Ok(Some(_)),
    ensures
        transport::frame_verdict(
            bindings,
            tracker.update(
                transport::raw_header(frame).device_id as int,
                Some(transport::raw_header(frame).sequence),
            ),
            pipe,
            frame,
        ) == Ok::<Option<(TransportHeader, Seq<u8>)>, crate::error::Error>(None),
{
}

/// A link that was just heard is not lost for as long as the timeout lasts, and is
/// lost right after it if a key is held.
pub proof fn law_heard_link_lives(
    s: RightState,
    header: TransportHeader,
    payload: Seq<u8>,
    now_ms: u32,
    later_ms: u32,
    i: int,
)
    requires
        now_ms > 0,
        0 <= i < ROWS,
    ensures
        later_ms <= now_ms + crate::hid::LINK_LOSS_TIMEOUT_MS ==> !s.heard(
            header,
            payload,
            now_ms,
        ).lost(later_ms),
        later_ms > now_ms + crate::hid::LINK_LOSS_TIMEOUT_MS && s.heard(
            header,
            payload,
            now_ms,
        ).rows[i] != 0 ==> s.heard(header, payload, now_ms).lost(later_ms),
{
}

/// A snapshot takes the place of the rows that were known, and is news exactly where
/// it differs from them; any other payload leaves the rows alone.
pub proof fn law_snapshot_replaces_rows(
    s: RightState,
    header: TransportHeader,
    payload: Seq<u8>,
    now_ms: u32,
)
    requires
        s.rows.len() == ROWS,
    ensures
        ({
            let after = s.heard(header, payload, now_ms);
            let same = payload.subrange(1, 6) == s.rows;
            &&& after.last_seen_ms == now_ms
            &&& is_snapshot(payload) ==> after.rows == payload.subrange(1, 6)
            &&& is_snapshot(payload) && same ==> after.dirty == s.dirty && after.sequence
                == s.sequence
            &&& is_snapshot(payload) && !same ==> after.dirty && after.sequence
                == header.sequence
            &&& !is_snapshot(payload) ==> after.rows == s.rows && after.dirty == s.dirty
                && after.sequence == s.sequence
        }),
{
    if is_snapshot(payload) {
        let rows = payload.subrange(1, 6);
        law_no_change_means_same(s.rows, rows, ROWS as int);
        assert(s.rows.take(ROWS as int) =~= s.rows);
        assert(rows.take(ROWS as int) =~= rows);
    }
}

/// A key event of the right half names the key of that half that stands at its row
/// and column, and no key of the left half.
pub proof fn law_key_event_is_on_the_right(rows: Seq<u8>, payload: Seq<u8>)
    requires
        payload.len() == 2,
    ensures
        payload[0] < 40 <==> payload_event(rows, payload) is Key,
        payload_event(rows, payload) matches RightEvent::Key(k) ==> {
            &&& crate::keymap::position(k.key_id) matches Some(p) && p / 15 == payload[0] as int / 8
                && p % 15 == 7 + payload[0] as int % 8
            &&& k.pressed == (payload[1] != 0)
        },
{
}

} // verus!
