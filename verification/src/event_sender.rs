//! How the right half sends its matrix.
//!
//! A change of the matrix is an event. The snapshot of an event is sent until the
//! left half confirms it with a transport ACK, or until a newer change supersedes
//! it. Attempts are timed by the schedule hints that come with radio ACKs.

use crate::error::Error;
use crate::header::EsbHeader;
use crate::link_laws;
use crate::matrix::{Matrix, ROWS};
use crate::mpsl_common;
use crate::mpsl_schedule;
use crate::mpsl_schedule::{LinkTiming, LinkTimingConfig, LinkTimingMode, ScheduleHint};
use crate::mpsl_timeslot;
use crate::mpsl_timeslot::SignalCounters;
use crate::right_half;
use crate::right_half::{read_transport_ack, RightState, RIGHT_DEVICE_ID, SNAPSHOT_MSG};
use crate::slot_ptx;
use crate::slot_ptx::read_hint;
use crate::transport;
use crate::transport::{encode_frame, TransportAck, TransportHeader, FLAG_RETRANSMIT};
use vstd::prelude::*;

verus! {

/// How long to wait before another attempt without a usable hint.
pub const RETRY_DELAY_US: u32 = 250;

/// The least time between two attempts with a usable hint.
pub const MIN_HINT_RETRY_GAP_US: u32 = 500;

/// How often a snapshot is repeated while a key is held: often enough that the
/// left half does not take the link for lost.
pub const KEY_HOLD_KEEPALIVE_MS: u64 = 100;

/// How hints are followed.
pub open spec fn timing() -> LinkTimingConfig {
    LinkTimingConfig {
        hint_valid_us: 200_000,
        max_wait_us: 2_000,
        window_guard_us: 400,
        miss_limit: 4,
    }
}

/// How hints are followed.
pub fn link_timing_config() -> (c: LinkTimingConfig)
    ensures
        c == timing(),
{
    LinkTimingConfig {
        hint_valid_us: 200_000,
        max_wait_us: 2_000,
        window_guard_us: 400,
        miss_limit: 4,
    }
}

/// The number of a mode in logs.
pub fn link_mode_id(mode: LinkTimingMode) -> (n: u8)
    ensures
        n == (match mode {
            LinkTimingMode::Unsynced => 0u8,
            LinkTimingMode::Synced => 1u8,
            LinkTimingMode::Degraded => 2u8,
        }),
{
    match mode {
        LinkTimingMode::Unsynced => 0,
        LinkTimingMode::Synced => 1,
        LinkTimingMode::Degraded => 2,
    }
}

/// How long to wait for a change before the snapshot is repeated: as long as it
/// takes, unless a key is held.
pub fn keepalive_ms(matrix: &Matrix) -> (r: Option<u64>)
    ensures
        r == (if exists|i: int| 0 <= i < ROWS && #[trigger] matrix.rows@[i] != 0 {
            Some(KEY_HOLD_KEEPALIVE_MS)
        } else {
            None
        }),
{
    if matrix.any_held() {
        Some(KEY_HOLD_KEEPALIVE_MS)
    } else {
        None
    }
}

/// What a send came to.
#[derive(Debug, Clone, Copy, PartialEq, Eq, Structural)]
pub struct SendOutcome {
    /// The radio was acknowledged.
    pub ack_ok: bool,
    /// Signals of the send.
    pub counters: SignalCounters,
    /// Hint in the ACK.
    pub hint: Option<ScheduleHint>,
    /// Transport ACK in the ACK.
    pub ack: Option<TransportAck>,
}

/// What a send came to, as the bytes of its ACK tell.
pub open spec fn outcome_of(ack_ok: bool, counters: SignalCounters, rx: Seq<u8>) -> SendOutcome {
    SendOutcome {
        ack_ok,
        counters,
        hint: if ack_ok {
            slot_ptx::ack_hint(rx)
        } else {
            None
        },
        ack: if ack_ok {
            right_half::ack_in(rx)
        } else {
            None
        },
    }
}

impl SendOutcome {
    /// Read what a send came to from its result and the receive buffer.
    pub fn read(ack_ok: bool, counters: SignalCounters, rx: &[u8; 256]) -> (o: Self)
        ensures
            o == outcome_of(ack_ok, counters, rx@),
            o.hint matches Some(h) ==> h.period_us > 0,
    {
        if ack_ok {
            let len: usize = rx[EsbHeader::DMA_OFFSET] as usize;
            proof {
                if 4 + len <= 256 && len >= 24 {
                    mpsl_schedule::law_decoded_hint_is_valid(
                        rx@.subrange(4, 4 + len as int).subrange(4, 24),
                    );
                }
            }
            SendOutcome { ack_ok, counters, hint: read_hint(rx), ack: read_transport_ack(rx) }
        } else {
            SendOutcome { ack_ok, counters, hint: None, ack: None }
        }
    }
}

/// What comes after an attempt.
#[derive(Debug, Clone, Copy, PartialEq, Eq, Structural)]
pub enum SendStep {
    /// The snapshot has arrived.
    Acked,
    /// A newer one takes its place.
    Superseded,
    /// It is sent again, after a wait.
    Retry,
}

/// The event that is being sent.
#[derive(Debug, Clone, Copy)]
pub struct EventProgress {
    /// Its snapshot.
    pub report: [u8; 6],
    /// Its sequence number.
    pub sequence: u8,
    /// Attempts so far.
    pub attempts: u32,
    /// Signals of all attempts.
    pub counters: SignalCounters,
    /// Time spent waiting for windows.
    pub wait_us: u32,
    /// Attempts without a usable hint.
    pub fallback_count: u32,
    /// Radio ACKs.
    pub radio_ack_count: u32,
    /// Transport ACKs.
    pub transport_ack_count: u32,
    /// Device of the last transport ACK.
    pub last_ack_dev: u8,
    /// Sequence number of the last transport ACK.
    pub last_ack_seq: u8,
}

/// The sender of the right half.
#[derive(Debug, Clone, Copy)]
pub struct EventSender {
    /// Timing of the link.
    pub link: LinkTiming,
    /// Sequence number of the next event.
    pub sequence: u8,
    /// Events so far.
    pub event_count: u32,
    /// Events that have arrived.
    pub total_acked: u32,
    /// Attempts so far.
    pub total_sends: u32,
    /// The event that is being sent.
    pub event: EventProgress,
}

/// One more, but never above the largest `u32`.
pub open spec fn one_more(n: u32) -> u32 {
    mpsl_timeslot::sat_add(n, 1)
}

/// The snapshot of a matrix.
pub open spec fn snapshot_of(rows: Seq<u8>) -> Seq<u8> {
    seq![SNAPSHOT_MSG] + rows
}

/// Flags of an attempt: every attempt but the first is a retransmission.
pub open spec fn attempt_flags(attempts: u32) -> u8 {
    if attempts == 0 {
        0
    } else {
        FLAG_RETRANSMIT
    }
}

/// The frame that an attempt sends.
pub open spec fn attempt_frame(report: Seq<u8>, sequence: u8, attempts: u32) -> Seq<u8> {
    transport::frame_of(RIGHT_DEVICE_ID, sequence, attempt_flags(attempts), report)
}

/// A transport ACK confirms an event.
pub open spec fn confirms(ack: TransportAck, sequence: u8) -> bool {
    ack == TransportAck { device_id: RIGHT_DEVICE_ID, sequence }
}

/// An event begins with a snapshot of the rows of the matrix, under a sequence number
/// of its own and with nothing sent of it yet; the sender waits for the next window
/// first.
pub open spec fn begins(
    before: EventSender,
    after: EventSender,
    rows: Seq<u8>,
    now_us: u64,
    wait_us: u32,
) -> bool {
    let (link, wait) = before.link.waited(now_us, timing());
    &&& after.link == link
    &&& wait_us == wait.wait_us
    &&& after.event.wait_us == wait.wait_us
    &&& after.event.fallback_count == (if wait.fallback is Some {
        1u32
    } else {
        0
    })
    &&& after.event_count == before.event_count + 1
    &&& after.total_acked == before.total_acked
    &&& after.total_sends == before.total_sends
    &&& after.sequence == (if before.sequence == 255 {
        0u8
    } else {
        (before.sequence + 1) as u8
    })
    &&& after.event.report@ == snapshot_of(rows)
    &&& after.event.sequence == before.sequence
    &&& after.event.attempts == 0
    &&& after.event.counters == mpsl_timeslot::no_signals()
    &&& after.event.radio_ack_count == 0
    &&& after.event.transport_ack_count == 0
    &&& after.event.last_ack_dev == 0xff
    &&& after.event.last_ack_seq == 0xff
}

impl EventSender {
    /// An attempt is made.
    pub open spec fn attempted(self) -> EventSender {
        EventSender {
            total_sends: one_more(self.total_sends),
            event: EventProgress { attempts: one_more(self.event.attempts), ..self.event },
            ..self
        }
    }

    /// A short wait is taken, as there is nothing to wait for.
    pub open spec fn fallen_back(self) -> EventSender {
        EventSender {
            event: EventProgress {
                fallback_count: one_more(self.event.fallback_count),
                ..self.event
            },
            ..self
        }
    }

    /// What follows a send: an event that is confirmed is over, one that the matrix has
    /// moved on from is given up, and any other is sent again. The last two are misses.
    pub open spec fn stepped(self, outcome: SendOutcome, now_us: u64, changed: bool) -> (
        EventSender,
        SendStep,
    ) {
        let noted = self.noted(outcome, now_us);
        if self.confirmed_by(outcome) {
            (EventSender { total_acked: one_more(self.total_acked), ..noted }, SendStep::Acked)
        } else {
            (
                EventSender { link: noted.link.missed(timing()), ..noted },
                if changed {
                    SendStep::Superseded
                } else {
                    SendStep::Retry
                },
            )
        }
    }

    /// The wait before an event is sent again: to the next window, but not less than
    /// a gap; or a short one where no hint is usable.
    pub open spec fn waits_again(self, now_us: u64) -> (EventSender, u32) {
        let (link, wait) = self.link.waited(now_us, timing());
        if wait.fallback is Some {
            (EventSender { link, ..self.fallen_back() }, RETRY_DELAY_US)
        } else {
            let wait_us = if wait.wait_us >= MIN_HINT_RETRY_GAP_US {
                wait.wait_us
            } else {
                MIN_HINT_RETRY_GAP_US
            };
            (
                EventSender {
                    link,
                    event: EventProgress {
                        wait_us: mpsl_timeslot::sat_add(self.event.wait_us, wait_us),
                        ..self.event
                    },
                    ..self
                },
                wait_us,
            )
        }
    }
}

impl EventSender {
    /// The hint that is being followed has a period.
    pub open spec fn wf(self) -> bool {
        self.link.last_hint matches Some(h) ==> h.period_us > 0
    }

    /// A sender that has sent nothing.
    pub fn new() -> (s: Self)
        ensures
            s.wf(),
            s.link == mpsl_schedule::new_link_timing(),
            s.sequence == 0,
            s.event_count == 0,
            s.total_acked == 0,
            s.total_sends == 0,
    {
        EventSender {
            link: LinkTiming::new(),
            sequence: 0,
            event_count: 0,
            total_acked: 0,
            total_sends: 0,
            event: EventProgress {
                report: [0; 6],
                sequence: 0,
                attempts: 0,
                counters: SignalCounters::zero(),
                wait_us: 0,
                fallback_count: 0,
                radio_ack_count: 0,
                transport_ack_count: 0,
                last_ack_dev: 0xff,
                last_ack_seq: 0xff,
            },
        }
    }

    /// Begin an event with a snapshot of the matrix. The wait before the first
    /// attempt is returned.
    pub fn begin(&mut self, matrix: &Matrix, now_us: u64) -> (wait_us: u32)
        requires
            old(self).wf(),
            old(self).event_count < u32::MAX,
            now_us < u64::MAX,
        ensures
            final(self).wf(),
            begins(*old(self), *final(self), matrix.rows@, now_us, wait_us),
    {
        self.event_count = self.event_count + 1;
        let sequence: u8 = self.sequence;
        self.sequence = self.sequence.wrapping_add(1);
        let report: [u8; 6] = [
            SNAPSHOT_MSG,
            matrix.rows[0],
            matrix.rows[1],
            matrix.rows[2],
            matrix.rows[3],
            matrix.rows[4],
        ];
        assert(report@ =~= snapshot_of(matrix.rows@));
        let wait = self.link.bounded_wait(now_us, link_timing_config());
        let fallback_count: u32 = if wait.fallback.is_some() {
            1
        } else {
            0
        };
        self.event =
        EventProgress {
            report,
            sequence,
            attempts: 0,
            counters: SignalCounters::zero(),
            wait_us: wait.wait_us,
            fallback_count,
            radio_ack_count: 0,
            transport_ack_count: 0,
            last_ack_dev: 0xff,
            last_ack_seq: 0xff,
        };
        wait.wait_us
    }

    /// The frame of the next attempt.
    pub fn next_frame(&mut self) -> (frame: Vec<u8>)
        requires
            old(self).wf(),
        ensures
            final(self).wf(),
            frame@ == attempt_frame(
                old(self).event.report@,
                old(self).event.sequence,
                old(self).event.attempts,
            ),
            *final(self) == old(self).attempted(),
    {
        let flags: u8 = if self.event.attempts == 0 {
            0
        } else {
            FLAG_RETRANSMIT
        };
        proof {
            assert(0u8 & !0x03u8 == 0 && 0x02u8 & !0x03u8 == 0) by (bit_vector);
        }
        let mut buf: [u8; 16] = [0; 16];
        let len: usize = match encode_frame(
            RIGHT_DEVICE_ID,
            self.event.sequence,
            flags,
            &self.event.report,
            &mut buf,
        ) {
            Ok(len) => len,
            Err(_) => 0,
        };
        let ghost whole = transport::frame_of(
            RIGHT_DEVICE_ID,
            self.event.sequence,
            flags,
            self.event.report@,
        );
        let mut frame: Vec<u8> = Vec::new();
        let mut i: usize = 0;
        while i < len
            invariant
                i <= len,
                len == 11,
                whole.len() == 11,
                buf@ == crate::bytes::splice(Seq::new(16, |j: int| 0u8), 0, whole),
                frame@ == whole.take(i as int),
            decreases len - i,
        {
            frame.push(buf[i]);
            assert(whole.take(i as int + 1) =~= whole.take(i as int).push(whole[i as int]));
            i = i + 1;
        }
        assert(whole.take(11) =~= whole);
        self.event.attempts = self.event.attempts.saturating_add(1);
        self.total_sends = self.total_sends.saturating_add(1);
        frame
    }

    /// An attempt could not be made: the wait before the next is returned.
    pub fn send_failed(&mut self) -> (wait_us: u32)
        requires
            old(self).wf(),
        ensures
            final(self).wf(),
            wait_us == RETRY_DELAY_US,
            *final(self) == old(self).fallen_back(),
    {
        self.event.fallback_count = self.event.fallback_count.saturating_add(1);
        RETRY_DELAY_US
    }

    /// The event after a send, before anything is decided.
    pub open spec fn noted(self, outcome: SendOutcome, now_us: u64) -> EventSender {
        let e = EventProgress {
            counters: self.event.counters.plus_all(outcome.counters),
            ..self.event
        };
        if !outcome.ack_ok {
            EventSender { event: e, ..self }
        } else {
            EventSender {
                link: match outcome.hint {
                    Some(hint) => self.link.hinted(now_us, hint),
                    None => self.link,
                },
                event: EventProgress {
                    radio_ack_count: one_more(e.radio_ack_count),
                    transport_ack_count: if outcome.ack is Some {
                        one_more(e.transport_ack_count)
                    } else {
                        e.transport_ack_count
                    },
                    last_ack_dev: match outcome.ack {
                        Some(ack) => ack.device_id,
                        None => e.last_ack_dev,
                    },
                    last_ack_seq: match outcome.ack {
                        Some(ack) => ack.sequence,
                        None => e.last_ack_seq,
                    },
                    ..e
                },
                ..self
            }
        }
    }

    /// The event is confirmed by a send.
    pub open spec fn confirmed_by(self, outcome: SendOutcome) -> bool {
        &&& outcome.ack_ok
        &&& outcome.ack matches Some(ack) && confirms(ack, self.event.sequence)
    }

    /// Note a send.
    fn note(&mut self, outcome: SendOutcome, now_us: u64)
        requires
            old(self).wf(),
            outcome.hint matches Some(h) ==> h.period_us > 0,
        ensures
            final(self).wf(),
            *final(self) == old(self).noted(outcome, now_us),
    {
        self.event.counters = self.event.counters.saturating_add(outcome.counters);
        if outcome.ack_ok {
            self.event.radio_ack_count = self.event.radio_ack_count.saturating_add(1);
            if let Some(hint) = outcome.hint {
                self.link.observe_hint(now_us, hint);
            }
            if let Some(ack) = outcome.ack {
                self.event.transport_ack_count = self.event.transport_ack_count.saturating_add(1);
                self.event.last_ack_dev = ack.device_id;
                self.event.last_ack_seq = ack.sequence;
            }
        }
    }

    /// An attempt was made. `changed` is whether the matrix has changed meanwhile.
    pub fn sent(&mut self, outcome: SendOutcome, now_us: u64, changed: bool) -> (step: SendStep)
        requires
            old(self).wf(),
            outcome.hint matches Some(h) ==> h.period_us > 0,
        ensures
            final(self).wf(),
            (*final(self), step) == old(self).stepped(outcome, now_us, changed),
    {
        self.note(outcome, now_us);
        if outcome.ack_ok {
            if let Some(ack) = outcome.ack {
                if ack.matches(RIGHT_DEVICE_ID, self.event.sequence) {
                    self.total_acked = self.total_acked.saturating_add(1);
                    return SendStep::Acked;
                }
            }
        }
        self.link.observe_miss(link_timing_config());
        if changed {
            SendStep::Superseded
        } else {
            SendStep::Retry
        }
    }

    /// The wait before an event is sent again: to the next window, but not less than
    /// a gap; or a short one where no hint is usable.
    pub fn retry_wait(&mut self, now_us: u64) -> (wait_us: u32)
        requires
            old(self).wf(),
            now_us < u64::MAX,
        ensures
            final(self).wf(),
            (*final(self), wait_us) == old(self).waits_again(now_us),
    {
        let wait = self.link.bounded_wait(now_us, link_timing_config());
        if wait.fallback.is_some() {
            self.event.fallback_count = self.event.fallback_count.saturating_add(1);
            RETRY_DELAY_US
        } else {
            let actual: u32 = if wait.wait_us >= MIN_HINT_RETRY_GAP_US {
                wait.wait_us
            } else {
                MIN_HINT_RETRY_GAP_US
            };
            self.event.wait_us = self.event.wait_us.saturating_add(actual);
            actual
        }
    }
}

/// A wait never exceeds the latency budget, whatever was hinted.
pub proof fn law_wait_is_bounded(link: LinkTiming, now_us: u64)
    ensures
        link.waited(now_us, timing()).1.wait_us <= 2_000,
        link.waited(now_us, timing()).1.fallback is Some ==> link.waited(
            now_us,
            timing(),
        ).1.wait_us == 0,
{
}

/// What stands behind the counter of a staged packet is what a receiver finds
/// there.
proof fn lemma_frame_is_heard(buf: Seq<u8>, pid: u8, counter: u32, frame: Seq<u8>, rx: Seq<u8>)
    requires
        buf.len() == 256,
        frame.len() <= 248,
        rx.len() == 256,
        link_laws::heard(rx, mpsl_common::counter_payload_packet(buf, pid, counter, frame)),
    ensures
        mpsl_common::app_payload_of(rx) == Some(frame),
{
    let sent = mpsl_common::counter_payload_packet(buf, pid, counter, frame);
    let n = frame.len() as int;
    assert(rx.subrange(8, 8 + n) =~= link_laws::payload_of(rx).subrange(4, 4 + n));
    assert(frame =~= link_laws::payload_of(sent).subrange(4, 4 + n));
}

/// An event arrives: from the packet that an attempt stages, the left half that
/// hears it takes the rows over, and the ACK that it answers with, extended by the
/// transport ACK, confirms the event to the right half that hears it.
pub proof fn law_snapshot_arrives(
    rows: Seq<u8>,
    sequence: u8,
    attempts: u32,
    tx: Seq<u8>,
    pid: u8,
    tx_count: u32,
    rx: Seq<u8>,
    bindings: Seq<Option<u8>>,
    tracker: Seq<Option<u8>>,
    state: RightState,
    now_ms: u32,
    ack: Seq<u8>,
    ack_counter: u32,
    hint: ScheduleHint,
    ack_rx: Seq<u8>,
    counters: SignalCounters,
)
    requires
        rows.len() == ROWS,
        tx.len() == 256 && rx.len() == 256 && ack.len() == 256 && ack_rx.len() == 256,
        link_laws::heard(
            rx,
            mpsl_common::counter_payload_packet(
                tx,
                pid,
                tx_count,
                attempt_frame(snapshot_of(rows), sequence, attempts),
            ),
        ),
        right_half::RIGHT_PIPE < bindings.len(),
        bindings[right_half::RIGHT_PIPE as int] == Some(RIGHT_DEVICE_ID),
        tracker.len() > RIGHT_DEVICE_ID,
        tracker[RIGHT_DEVICE_ID as int] != Some(sequence),
        hint.validity() is Ok,
        link_laws::heard(
            ack_rx,
            right_half::extended(
                mpsl_common::counter_schedule_packet(ack, 0, ack_counter, hint),
                (TransportAck { device_id: RIGHT_DEVICE_ID, sequence }).encoded(),
            ),
        ),
    ensures
        ({
            let frame = attempt_frame(snapshot_of(rows), sequence, attempts);
            let header = transport::raw_header(frame);
            let pipe = right_half::RIGHT_PIPE;
            &&& mpsl_common::app_payload_of(rx) == Some(frame)
            &&& transport::frame_verdict(bindings, tracker, pipe, frame) == Ok::<
                Option<(TransportHeader, Seq<u8>)>,
                Error,
            >(Some((header, snapshot_of(rows))))
            &&& state.heard(header, snapshot_of(rows), now_ms).rows == rows
            &&& right_half::ack_extension(pipe, frame, true) == Some(
                TransportAck { device_id: RIGHT_DEVICE_ID, sequence },
            )
            &&& outcome_of(true, counters, ack_rx).ack matches Some(a) && confirms(a, sequence)
            &&& outcome_of(true, counters, ack_rx).hint == Some(hint)
        }),
{
    let frame = attempt_frame(snapshot_of(rows), sequence, attempts);
    assert(0u8 & !0x03u8 == 0 && 0x02u8 & !0x03u8 == 0) by (bit_vector);
    assert(transport::frame_payload(frame) =~= snapshot_of(rows));
    assert(snapshot_of(rows).subrange(1, 6) =~= rows);
    lemma_frame_is_heard(tx, pid, tx_count, frame, rx);
    let confirmation = TransportAck { device_id: RIGHT_DEVICE_ID, sequence };
    let sent = right_half::extended(
        mpsl_common::counter_schedule_packet(ack, 0, ack_counter, hint),
        confirmation.encoded(),
    );
    right_half::law_extended_ack_is_read(ack, ack_counter, hint, confirmation);
    assert(ack_rx.subrange(28, 32) =~= link_laws::payload_of(ack_rx).subrange(24, 28));
    assert(sent.subrange(28, 32) =~= link_laws::payload_of(sent).subrange(24, 28));
}

/// A retransmission of a snapshot that has arrived changes nothing: from the packet
/// that is staged, the left half that hears it takes it for a copy, but confirms it
/// again.
pub proof fn law_retransmission_is_a_copy(
    rows: Seq<u8>,
    sequence: u8,
    attempts: u32,
    tx: Seq<u8>,
    pid: u8,
    tx_count: u32,
    rx: Seq<u8>,
    bindings: Seq<Option<u8>>,
    tracker: Seq<Option<u8>>,
)
    requires
        rows.len() == ROWS,
        tx.len() == 256 && rx.len() == 256,
        link_laws::heard(
            rx,
            mpsl_common::counter_payload_packet(
                tx,
                pid,
                tx_count,
                attempt_frame(snapshot_of(rows), sequence, attempts),
            ),
        ),
        right_half::RIGHT_PIPE < bindings.len(),
        bindings[right_half::RIGHT_PIPE as int] == Some(RIGHT_DEVICE_ID),
        tracker.len() > RIGHT_DEVICE_ID,
        tracker[RIGHT_DEVICE_ID as int] == Some(sequence),
    ensures
        ({
            let frame = attempt_frame(snapshot_of(rows), sequence, attempts);
            &&& mpsl_common::app_payload_of(rx) == Some(frame)
            &&& transport::frame_verdict(
                bindings,
                tracker,
                right_half::RIGHT_PIPE,
                frame,
            ) == Ok::<Option<(TransportHeader, Seq<u8>)>, Error>(None)
            &&& right_half::ack_extension(right_half::RIGHT_PIPE, frame, true) == Some(
                TransportAck { device_id: RIGHT_DEVICE_ID, sequence },
            )
        }),
{
    assert(0u8 & !0x03u8 == 0 && 0x02u8 & !0x03u8 == 0) by (bit_vector);
    lemma_frame_is_heard(tx, pid, tx_count, attempt_frame(snapshot_of(rows), sequence, attempts), rx);
}

/// What a send adds to its event: its signals, and an ACK of the radio and of the
/// transport where they came. Without an ACK of the radio nothing is learnt of the
/// link, and a hint in one is taken as it is.
pub proof fn law_send_is_noted(s: EventSender, outcome: SendOutcome, now_us: u64)
    requires
        s.event.radio_ack_count < u32::MAX,
        s.event.transport_ack_count < u32::MAX,
    ensures
        ({
            let after = s.noted(outcome, now_us);
            let acked = outcome.ack_ok && outcome.ack is Some;
            &&& after.event.counters == s.event.counters.plus_all(outcome.counters)
            &&& after.event.radio_ack_count == s.event.radio_ack_count + mpsl_timeslot::one_if(
                outcome.ack_ok,
            )
            &&& after.event.transport_ack_count == s.event.transport_ack_count
                + mpsl_timeslot::one_if(acked)
            &&& acked ==> after.event.last_ack_dev == outcome.ack->0.device_id
                && after.event.last_ack_seq == outcome.ack->0.sequence
            &&& !acked ==> after.event.last_ack_dev == s.event.last_ack_dev
                && after.event.last_ack_seq == s.event.last_ack_seq
            &&& !outcome.ack_ok || outcome.hint is None ==> after.link == s.link
            &&& outcome.ack_ok && outcome.hint is Some ==> after.link.last_hint == outcome.hint
            &&& after.event.report == s.event.report && after.event.sequence == s.event.sequence
                && after.event.attempts == s.event.attempts && after.event.wait_us
                == s.event.wait_us && after.event.fallback_count == s.event.fallback_count
            &&& after.sequence == s.sequence && after.event_count == s.event_count
                && after.total_sends == s.total_sends
        }),
{
}

/// Only an acknowledgement of this device and of this event's sequence number
/// confirms an event, and none that came without the radio's ACK.
pub proof fn law_only_own_ack_confirms(s: EventSender, outcome: SendOutcome, rx: Seq<u8>)
    ensures
        s.confirmed_by(outcome) ==> outcome.ack_ok && outcome.ack is Some
            && outcome.ack->0.device_id == RIGHT_DEVICE_ID && outcome.ack->0.sequence
            == s.event.sequence,
        outcome.ack_ok && outcome.ack == Some(
            TransportAck { device_id: RIGHT_DEVICE_ID, sequence: s.event.sequence },
        ) ==> s.confirmed_by(outcome),
        !s.confirmed_by(outcome_of(false, outcome.counters, rx)),
        outcome_of(false, outcome.counters, rx).hint is None,
{
}

/// Every attempt at an event carries the same report under the same sequence number.
/// The first one is not marked as a retransmission, and all others are.
pub proof fn law_attempts_carry_the_event(report: Seq<u8>, sequence: u8, a: u32, b: u32, i: int)
    requires
        report.len() <= transport::MAX_TRANSPORT_PAYLOAD_LEN,
        0 <= i < 5 + report.len(),
    ensures
        attempt_frame(report, sequence, a).len() == 5 + report.len(),
        i != 3 ==> attempt_frame(report, sequence, a)[i] == attempt_frame(report, sequence, b)[i],
        attempt_frame(report, sequence, a)[1] == RIGHT_DEVICE_ID,
        attempt_frame(report, sequence, a)[2] == sequence,
        attempt_frame(report, sequence, a)[3] == (if a == 0 {
            0
        } else {
            FLAG_RETRANSMIT
        }),
        transport::frame_payload(attempt_frame(report, sequence, a)) == report,
{
    assert(transport::frame_payload(attempt_frame(report, sequence, a)) =~= report);
}

/// Two events that follow each other are counted, and have sequence numbers that
/// follow each other; both start afresh, with the rows they were begun with.
pub proof fn law_events_are_numbered(
    a: EventSender,
    b: EventSender,
    c: EventSender,
    first: Seq<u8>,
    second: Seq<u8>,
    now_us: u64,
    later_us: u64,
    wait_us: u32,
    again_us: u32,
)
    requires
        begins(a, b, first, now_us, wait_us),
        begins(b, c, second, later_us, again_us),
    ensures
        c.event_count == a.event_count + 2,
        c.event.sequence == (b.event.sequence + 1) % 256,
        c.event.sequence != b.event.sequence,
        b.event.report@.subrange(1, 6) == first.take(5) || first.len() != ROWS,
        c.event.report@.subrange(1, 6) == second.take(5) || second.len() != ROWS,
        b.event.attempts == 0 && c.event.attempts == 0,
        c.total_sends == a.total_sends && c.total_acked == a.total_acked,
        wait_us <= 2_000 && again_us <= 2_000,
{
    law_wait_is_bounded(a.link, now_us);
    law_wait_is_bounded(b.link, later_us);
    if first.len() == ROWS {
        assert(snapshot_of(first).subrange(1, 6) =~= first.take(5));
    }
    if second.len() == ROWS {
        assert(snapshot_of(second).subrange(1, 6) =~= second.take(5));
    }
}

/// Every attempt is counted, for its event and in all, and changes nothing else: only
/// the first frame of an event goes out without the mark of a retransmission.
pub proof fn law_attempts_are_counted(s: EventSender)
    requires
        s.event.attempts < u32::MAX,
        s.total_sends < u32::MAX,
    ensures
        s.attempted().event.attempts == s.event.attempts + 1,
        s.attempted().total_sends == s.total_sends + 1,
        s.attempted().event.sequence == s.event.sequence,
        s.attempted().event.report == s.event.report,
        s.attempted().link == s.link,
        s.attempted().total_acked == s.total_acked,
        attempt_flags(s.attempted().event.attempts) == FLAG_RETRANSMIT,
{
}

/// An event ends confirmed exactly where the acknowledgement is its own, and that is
/// counted. One that is not confirmed is sent again for as long as the matrix stays as
/// it was, and is a miss for the link.
pub proof fn law_send_ends_event(s: EventSender, outcome: SendOutcome, now_us: u64, changed: bool)
    requires
        s.total_acked < u32::MAX,
    ensures
        ({
            let (after, step) = s.stepped(outcome, now_us, changed);
            let own = outcome.ack_ok && outcome.ack == Some(
                TransportAck { device_id: RIGHT_DEVICE_ID, sequence: s.event.sequence },
            );
            &&& step == SendStep::Acked <==> own
            &&& !own && changed ==> step == SendStep::Superseded
            &&& !own && !changed ==> step == SendStep::Retry
            &&& after.total_acked == s.total_acked + mpsl_timeslot::one_if(own)
            &&& after.event.sequence == s.event.sequence && after.sequence == s.sequence
            &&& after.total_sends == s.total_sends && after.event.attempts == s.event.attempts
            &&& !own && !outcome.ack_ok ==> after.link == s.link.missed(timing())
        }),
{
}

/// An event is not sent again at once: the wait is never shorter than the gap that lets
/// the receiver turn round, nor longer than the longest wait for a window. A wait that
/// no hint backs is counted.
pub proof fn law_retry_waits(s: EventSender, now_us: u64)
    requires
        s.event.fallback_count < u32::MAX,
    ensures
        ({
            let (after, wait_us) = s.waits_again(now_us);
            let hinted = s.link.waited(now_us, timing()).1.fallback is None;
            &&& hinted ==> MIN_HINT_RETRY_GAP_US <= wait_us && (wait_us <= 2_000 || wait_us
                == MIN_HINT_RETRY_GAP_US)
            &&& hinted ==> wait_us >= s.link.waited(now_us, timing()).1.wait_us
            &&& !hinted ==> wait_us == RETRY_DELAY_US
            &&& after.event.fallback_count == s.event.fallback_count + mpsl_timeslot::one_if(
                !hinted,
            )
            &&& after.event.attempts == s.event.attempts && after.event.sequence
                == s.event.sequence && after.event.report == s.event.report
            &&& after.link == s.link.waited(now_us, timing()).0
        }),
{
    law_wait_is_bounded(s.link, now_us);
}

} // verus!
