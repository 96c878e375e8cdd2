//! Helpers shared by the timeslot layer.

use crate::bytes::{get_u32_le, put_u32_le};
use crate::header::EsbHeader;
use crate::mpsl_schedule::{encode_hint_at, ScheduleHint, SCHEDULE_COUNTER_HINT_PAYLOAD_LEN};
use vstd::prelude::*;

verus! {

/// Number of ESB pipes.
pub const NUM_PIPES: usize = 8;

/// The PID of the packet after one with PID `pid`.
pub fn advance_pid(pid: u8) -> (next: u8)
    ensures
        next == (pid + 1) % 4,
{
    let p: u8 = pid.wrapping_add(1);
    assert(p & 0x03 == p % 4) by (bit_vector);
    p & 0x03
}

/// Pipe `p` is in `mask`.
pub open spec fn pipe_in_mask(mask: u8, p: u8) -> bool {
    mask & (1u8 << p) != 0
}

/// `distance` steps up from `current`, wrapping after the last pipe.
pub open spec fn pipe_after(current: u8, distance: int) -> u8 {
    ((current + distance) % 8) as u8
}

/// The first pipe in `mask` at least `d` steps after `current`.
pub open spec fn next_pipe_from(current: u8, mask: u8, d: int) -> Option<u8>
    decreases 9 - d,
{
    if d > 8 {
        None
    } else if pipe_in_mask(mask, pipe_after(current, d)) {
        Some(pipe_after(current, d))
    } else {
        next_pipe_from(current, mask, d + 1)
    }
}

/// The next pipe in `mask` after `current`, in cyclic order.
pub open spec fn next_pipe(current: u8, mask: u8) -> Option<u8> {
    next_pipe_from(current, mask, 1)
}

/// The next pipe in `mask` after `current`, in cyclic order.
pub fn next_pipe_in_mask(current: u8, mask: u8) -> (next: Option<u8>)
    requires
        current < 255,
    ensures
        next == next_pipe(current, mask),
{
    if mask == 0 {
        proof {
            law_next_pipe(current, mask);
        }
        return None;
    }
    let mut next: u8 = current;
    let mut step: usize = 0;
    while step < NUM_PIPES
        invariant
            step <= 8,
            current < 255,
            step == 0 ==> next == current,
            step > 0 ==> next == pipe_after(current, step as int),
            next_pipe(current, mask) == next_pipe_from(current, mask, step + 1),
        decreases 8 - step,
    {
        next = (next + 1) % (NUM_PIPES as u8);
        step = step + 1;
        if mask & (1u8 << next) != 0 {
            return Some(next);
        }
    }
    None
}

/// The next pipe is in the mask, no pipe between it and the current one is, and
/// there is one exactly when the mask is not empty. With the current pipe the
/// only one in the mask, it is its own successor.
pub proof fn law_next_pipe(current: u8, mask: u8)
    ensures
        next_pipe(current, mask) is None <==> mask == 0,
        next_pipe(current, mask) matches Some(p) ==> p < 8 && pipe_in_mask(mask, p) && exists|d: int|
            1 <= d <= 8 && p == #[trigger] pipe_after(current, d) && (forall|e: int|
                1 <= e < d ==> !pipe_in_mask(mask, #[trigger] pipe_after(current, e))),
{
    lemma_next_pipe_from(current, mask, 1);
    if mask == 0 {
        if let Some(p) = next_pipe(current, mask) {
            assert(0u8 & (1u8 << p) == 0) by (bit_vector);
        }
    } else if next_pipe(current, mask) is None {
        lemma_every_pipe_visited(current, mask);
    }
}

/// What a search from distance `d` on finds.
proof fn lemma_next_pipe_from(current: u8, mask: u8, d: int)
    requires
        1 <= d <= 9,
    ensures
        match next_pipe_from(current, mask, d) {
            Some(p) => p < 8 && pipe_in_mask(mask, p) && exists|f: int|
                d <= f <= 8 && p == #[trigger] pipe_after(current, f) && (forall|e: int|
                    d <= e < f ==> !pipe_in_mask(mask, #[trigger] pipe_after(current, e))),
            None => forall|e: int|
                d <= e <= 8 ==> !pipe_in_mask(mask, #[trigger] pipe_after(current, e)),
        },
    decreases 9 - d,
{
    if d <= 8 {
        if pipe_in_mask(mask, pipe_after(current, d)) {
            assert(pipe_after(current, d) < 8);
        } else {
            lemma_next_pipe_from(current, mask, d + 1);
            if let Some(p) = next_pipe_from(current, mask, d + 1) {
                let f = choose|f: int|
                    d + 1 <= f <= 8 && p == #[trigger] pipe_after(current, f) && (forall|e: int|
                        d + 1 <= e < f ==> !pipe_in_mask(
                            mask,
                            #[trigger] pipe_after(current, e),
                        ));
                assert(forall|e: int|
                    d <= e < f ==> !pipe_in_mask(mask, #[trigger] pipe_after(current, e)));
            }
        }
    }
}

/// A mask in which no pipe is found within eight steps is empty.
proof fn lemma_every_pipe_visited(current: u8, mask: u8)
    requires
        forall|e: int| 1 <= e <= 8 ==> !pipe_in_mask(mask, #[trigger] pipe_after(current, e)),
    ensures
        mask == 0,
{
    assert forall|p: u8| p < 8 implies !pipe_in_mask(mask, p) by {
        let e = if p > current % 8 {
            p - current % 8
        } else {
            p + 8 - current % 8
        };
        assert(pipe_after(current, e) == p);
    }
    assert(!pipe_in_mask(mask, 0) && !pipe_in_mask(mask, 1) && !pipe_in_mask(mask, 2)
        && !pipe_in_mask(mask, 3) && !pipe_in_mask(mask, 4) && !pipe_in_mask(mask, 5)
        && !pipe_in_mask(mask, 6) && !pipe_in_mask(mask, 7));
    assert(mask & (1u8 << 0) == 0 && mask & (1u8 << 1) == 0 && mask & (1u8 << 2) == 0 && mask & (1u8
        << 3) == 0 && mask & (1u8 << 4) == 0 && mask & (1u8 << 5) == 0 && mask & (1u8 << 6) == 0
        && mask & (1u8 << 7) == 0 ==> mask == 0) by (bit_vector);
}

/// The header of a packet that the timeslot layer sends: PID set, ACK requested.
pub open spec fn packet_header(buf: Seq<u8>, length: u8, pid: u8) -> EsbHeader {
    EsbHeader {
        length,
        pid_no_ack: crate::header::s1_with_no_ack(crate::header::s1_with_pid(0, pid), false),
        ..crate::header::header_at(buf)
    }
}

/// A buffer with a header and a counter written into it.
pub open spec fn counter_packet(buf: Seq<u8>, length: u8, pid: u8, counter: u32) -> Seq<u8> {
    crate::bytes::splice(
        crate::header::with_header(buf, packet_header(buf, length, pid)),
        4,
        crate::bytes::u32_le(counter),
    )
}

/// A buffer with a header, a counter and a schedule hint written into it. A
/// hint that is not valid is left out.
pub open spec fn counter_schedule_packet(
    buf: Seq<u8>,
    pid: u8,
    counter: u32,
    hint: ScheduleHint,
) -> Seq<u8> {
    let base = counter_packet(buf, 24, pid, counter);
    if hint.validity() is Ok {
        crate::bytes::splice(base, 8, hint.encoded())
    } else {
        base
    }
}

/// Write header and counter.
fn write_counter(buf: &mut [u8; 256], length: u8, pid: u8, counter: u32)
    ensures
        final(buf)@ == counter_packet(old(buf)@, length, pid, counter),
{
    let mut header = EsbHeader::read(buf);
    header.length = length;
    header.pid_no_ack = 0;
    header.set_pid(pid);
    header.set_no_ack(false);
    header.write(buf);
    put_u32_le(buf, EsbHeader::PAYLOAD_OFFSET, counter);
}

/// Make `buf` a packet whose payload is a little-endian counter.
pub fn write_counter_packet(buf: &mut [u8; 256], pid: u8, counter: u32)
    ensures
        final(buf)@ == counter_packet(old(buf)@, 4, pid, counter),
{
    write_counter(buf, 4, pid, counter);
}

/// Make `buf` a packet whose payload is a counter and a schedule hint.
pub fn write_counter_schedule_packet(
    buf: &mut [u8; 256],
    pid: u8,
    counter: u32,
    hint: ScheduleHint,
)
    ensures
        final(buf)@ == counter_schedule_packet(old(buf)@, pid, counter, hint),
{
    write_counter(buf, SCHEDULE_COUNTER_HINT_PAYLOAD_LEN as u8, pid, counter);
    let _ = encode_hint_at(buf, 8, hint);
}

/// A buffer with a header, a counter and a payload written into it.
pub open spec fn counter_payload_packet(
    buf: Seq<u8>,
    pid: u8,
    counter: u32,
    payload: Seq<u8>,
) -> Seq<u8> {
    crate::bytes::splice(
        counter_packet(buf, (4 + payload.len()) as u8, pid, counter),
        8,
        payload,
    )
}

/// Make `buf` a packet whose payload is a counter and `payload`. Returns false,
/// with `buf` unchanged, where they exceed the largest ESB payload.
pub fn write_counter_payload_packet(
    buf: &mut [u8; 256],
    pid: u8,
    counter: u32,
    payload: &[u8],
) -> (fits: bool)
    ensures
        fits == (4 + payload@.len() <= EsbHeader::MAX_PAYLOAD),
        final(buf)@ == (if fits {
            counter_payload_packet(old(buf)@, pid, counter, payload@)
        } else {
            old(buf)@
        }),
{
    if payload.len() > 248 {
        return false;
    }
    write_counter(buf, 4 + payload.len() as u8, pid, counter);
    crate::bytes::copy_into(buf, 8, payload);
    true
}

/// The counter at the start of a packet's payload, if the packet has one.
pub open spec fn counter_of(buf: Seq<u8>) -> Option<u32> {
    if buf.len() >= 8 && buf[2] >= 4 {
        Some(crate::bytes::u32_at(buf, 4))
    } else {
        None
    }
}

/// Read the counter at the start of a packet's payload.
pub fn read_counter_payload(buf: &[u8]) -> (counter: Option<u32>)
    ensures
        counter == counter_of(buf@),
{
    if buf.len() < EsbHeader::PAYLOAD_OFFSET + 4 || buf[EsbHeader::DMA_OFFSET] < 4 {
        return None;
    }
    Some(get_u32_le(buf, EsbHeader::PAYLOAD_OFFSET))
}

/// What stands behind the counter in a packet's payload, if the packet has one.
pub open spec fn app_payload_of(buf: Seq<u8>) -> Option<Seq<u8>> {
    if buf.len() >= 8 && 4 <= buf[2] <= buf.len() - 4 {
        Some(buf.subrange(8, 4 + buf[2]))
    } else {
        None
    }
}

/// The application's payload of a received packet: the bytes behind the counter.
pub fn app_payload(rx: &[u8; 256]) -> (r: Option<&[u8]>)
    ensures
        match app_payload_of(rx@) {
            Some(payload) => r is Some && r->0@ == payload,
            None => r is None,
        },
{
    let len: usize = rx[EsbHeader::DMA_OFFSET] as usize;
    if len < 4 || len > EsbHeader::MAX_PAYLOAD as usize {
        return None;
    }
    Some(&rx[EsbHeader::PAYLOAD_OFFSET + 4..EsbHeader::PAYLOAD_OFFSET + len])
}

/// The counter, and the hint behind it, read back from a packet that was
/// written with them, and so do the counter and the payload of any other packet.
pub proof fn law_counter_round_trip(
    buf: Seq<u8>,
    pid: u8,
    counter: u32,
    hint: ScheduleHint,
    payload: Seq<u8>,
)
    requires
        buf.len() == 256,
        hint.validity() is Ok,
        4 + payload.len() <= 252,
    ensures
        counter_of(counter_packet(buf, 4, pid, counter)) == Some(counter),
        counter_of(counter_schedule_packet(buf, pid, counter, hint)) == Some(counter),
        crate::mpsl_schedule::decoded_counter_hint(
            counter_schedule_packet(buf, pid, counter, hint).subrange(4, 28),
        ) == Ok::<ScheduleHint, crate::mpsl_schedule::ScheduleHintError>(hint),
        counter_of(counter_payload_packet(buf, pid, counter, payload)) == Some(counter),
        app_payload_of(counter_payload_packet(buf, pid, counter, payload)) == Some(payload),
{
    crate::bytes::lemma_u32_round_trip(counter);
    crate::mpsl_schedule::law_hint_round_trip(hint, Seq::empty());
    let p = counter_schedule_packet(buf, pid, counter, hint).subrange(4, 28);
    assert(p.subrange(4, 24) =~= hint.encoded() + Seq::empty());
    let q = counter_payload_packet(buf, pid, counter, payload);
    assert(q.subrange(8, 8 + payload.len() as int) =~= payload);
}

/// The growth of each per-pipe count, never below zero.
pub open spec fn pipe_deltas(current: Seq<u32>, previous: Seq<u32>) -> Seq<u32> {
    Seq::new(8, |i: int| crate::mpsl_schedule::sat_sub(current[i], previous[i]))
}

/// The growth of each per-pipe count.
pub fn delta_per_pipe(current: &[u32; 8], previous: &[u32; 8]) -> (out: [u32; 8])
    ensures
        out@ == pipe_deltas(current@, previous@),
{
    let mut out: [u32; 8] = [0u32; 8];
    let mut i: usize = 0;
    while i < NUM_PIPES
        invariant
            i <= 8,
            forall|j: int|
                0 <= j < i ==> out@[j] == crate::mpsl_schedule::sat_sub(current@[j], previous@[j]),
        decreases 8 - i,
    {
        out[i] = current[i].saturating_sub(previous[i]);
        i = i + 1;
    }
    out
}

/// `polls` is what polling a condition gives until it holds, or until it has
/// been polled once and `limit` times more.
pub open spec fn bounded_polls(polls: Seq<bool>, limit: u32) -> bool {
    &&& 1 <= polls.len() <= limit + 1
    &&& forall|i: int| 0 <= i < polls.len() - 1 ==> !polls[i]
    &&& polls.last() || polls.len() == limit + 1
}

/// Poll a condition until it holds, at most `limit` times after the first.
pub fn spin_until(condition: impl FnMut() -> bool, limit: u32) -> (done: bool)
    requires
        call_requires(condition, ()),
    ensures
        exists|polls: Seq<bool>| #[trigger]
            bounded_polls(polls, limit) && done == polls.last() && (forall|i: int|
                0 <= i < polls.len() ==> call_ensures(condition, (), #[trigger] polls[i])),
{
    let ghost polled = condition;
    let mut condition = condition;
    let mut spins: u32 = 0;
    let mut done = condition();
    let ghost mut polls: Seq<bool> = seq![done];
    while !done && spins < limit
        invariant
            spins <= limit,
            condition == polled,
            polls.len() == spins + 1,
            done == polls.last(),
            forall|i: int| 0 <= i < polls.len() - 1 ==> !polls[i],
            forall|i: int| 0 <= i < polls.len() ==> call_ensures(condition, (), #[trigger] polls[i]),
            call_requires(condition, ()),
        decreases limit - spins,
    {
        spins = spins + 1;
        done = condition();
        proof {
            polls = polls.push(done);
        }
    }
    assert(bounded_polls(polls, limit));
    done
}

/// Where the parts of a packet stand: length and PID in its header, with an ACK asked
/// for, its counter at the start of its payload, and a hint or a payload behind that.
/// The pipe and the signal strength in the header stay as they were.
pub proof fn law_packet_layout(
    buf: Seq<u8>,
    pid: u8,
    counter: u32,
    hint: ScheduleHint,
    payload: Seq<u8>,
    i: int,
)
    requires
        buf.len() == 256,
        hint.validity() is Ok,
        4 + payload.len() <= 252,
        0 <= i < payload.len(),
    ensures
        ({
            let plain = counter_packet(buf, 4, pid, counter);
            let hinted = counter_schedule_packet(buf, pid, counter, hint);
            let loaded = counter_payload_packet(buf, pid, counter, payload);
            &&& crate::header::header_at(plain).length == 4
            &&& crate::header::header_at(hinted).length == 24
            &&& crate::header::header_at(loaded).length == 4 + payload.len()
            &&& crate::header::s1_pid(plain[3]) == pid % 4 && !crate::header::s1_no_ack(plain[3])
            &&& plain[3] == hinted[3] && plain[3] == loaded[3]
            &&& crate::header::header_at(loaded).pipe == crate::header::header_at(buf).pipe
            &&& crate::header::header_at(loaded).rssi == crate::header::header_at(buf).rssi
            &&& crate::bytes::u32_at(plain, 4) == counter
            &&& crate::bytes::u32_at(hinted, 4) == counter
            &&& crate::bytes::u32_at(loaded, 4) == counter
            &&& crate::bytes::u32_at(hinted, 12) == hint.window_id
            &&& crate::bytes::u32_at(hinted, 16) == hint.next_delay_us
            &&& loaded[8 + i] == payload[i]
        }),
{
    crate::bytes::lemma_u32_round_trip(counter);
    crate::mpsl_schedule::law_hint_layout(hint);
    crate::header::law_pid_round_trip(0, pid);
    crate::header::law_no_ack_round_trip(crate::header::s1_with_pid(0, pid), false);
}

} // verus!
