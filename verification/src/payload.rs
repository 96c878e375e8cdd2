//! ESB packet buffer pool.
//!
//! Each packet is a fixed-size buffer that starts with an [`EsbHeader`]:
//! `[rssi, pipe, length, pid_no_ack, payload...]`, of which the bytes from 2 on
//! are the DMA region. A buffer is owned by whoever its state says:
//!
//! - `Free -> TxAllocated -> TxQueued -> InDma -> Free` (TX path)
//! - `Free -> InDma -> RxQueued -> Free` (RX path)

use crate::header;
use crate::header::EsbHeader;
use crate::rx_queue::RxQueue;
use vstd::prelude::*;

verus! {

/// Maximum ESB payload length.
pub const MAX_PAYLOAD: usize = 252;

/// Who owns a packet buffer.
#[derive(Debug, Clone, Copy, PartialEq, Eq, Structural)]
pub enum SlotState {
    /// Nobody.
    Free,
    /// An application that fills it for TX.
    TxAllocated,
    /// The TX queue.
    TxQueued,
    /// The radio.
    InDma,
    /// The RX queue, or the application that took it from there.
    RxQueued,
}

/// A pool of packet buffers.
///
/// `N` = number of packets, `SIZE` = buffer size per packet (including the
/// 4-byte header). Typical: `SIZE = 256` (4-byte header + 252-byte payload).
pub struct PacketPool<const N: usize, const SIZE: usize> {
    storage: [[u8; SIZE]; N],
    state: [SlotState; N],
    rx_queue: RxQueue<N>,
}

/// A packet pool, as its contracts see it.
#[verifier::ext_equal]
pub struct PoolView {
    /// State of each buffer.
    pub slots: Seq<SlotState>,
    /// Contents of each buffer.
    pub bufs: Seq<Seq<u8>>,
    /// Buffers that wait to be received, oldest first.
    pub rx: Seq<usize>,
}

/// The first buffer in state `s`, from index `from` on.
pub open spec fn first_slot(slots: Seq<SlotState>, s: SlotState, from: int) -> Option<usize>
    decreases slots.len() - from,
{
    if from >= slots.len() {
        None
    } else if slots[from] == s {
        Some(from as usize)
    } else {
        first_slot(slots, s, from + 1)
    }
}

/// The first buffer that is queued for TX on `pipe`, from index `from` on.
pub open spec fn first_queued_for(v: PoolView, pipe: u8, from: int) -> Option<usize>
    decreases v.slots.len() - from,
{
    if from >= v.slots.len() {
        None
    } else if v.slots[from] == SlotState::TxQueued && v.bufs[from][1] == pipe {
        Some(from as usize)
    } else {
        first_queued_for(v, pipe, from + 1)
    }
}

impl PoolView {
    /// The pool with buffer `i` in state `s`.
    pub open spec fn with_slot(self, i: int, s: SlotState) -> PoolView {
        PoolView { slots: self.slots.update(i, s), ..self }
    }

    /// The pool with other contents in buffer `i`.
    pub open spec fn with_buf(self, i: int, buf: Seq<u8>) -> PoolView {
        PoolView { bufs: self.bufs.update(i, buf), ..self }
    }

    /// The pool with another header in buffer `i`.
    pub open spec fn with_header(self, i: int, h: EsbHeader) -> PoolView {
        self.with_buf(i, header::with_header(self.bufs[i], h))
    }

    /// The header of buffer `i`.
    pub open spec fn header(self, i: int) -> EsbHeader {
        header::header_at(self.bufs[i])
    }

    /// A buffer handed to the application for TX, if one is free.
    pub open spec fn free(self) -> Option<usize> {
        first_slot(self.slots, SlotState::Free, 0)
    }

    /// The buffer to transmit next.
    pub open spec fn queued(self) -> Option<usize> {
        first_slot(self.slots, SlotState::TxQueued, 0)
    }

    /// The buffer to transmit next on `pipe`.
    pub open spec fn queued_for(self, pipe: u8) -> Option<usize> {
        first_queued_for(self, pipe, 0)
    }

    /// Buffer `i` filled by the radio and handed to the RX queue, as long as
    /// the queue has room.
    pub open spec fn completed(self, i: int) -> PoolView {
        PoolView {
            slots: self.slots.update(i, SlotState::RxQueued),
            rx: if self.rx.len() < self.slots.len() {
                self.rx.push(i as usize)
            } else {
                self.rx
            },
            ..self
        }
    }

    /// The pool with the oldest received buffer taken from the queue.
    pub open spec fn received(self) -> PoolView {
        if self.rx.len() > 0 {
            PoolView { rx: self.rx.skip(1), ..self }
        } else {
            self
        }
    }

    /// The pool with every received buffer taken from the queue and freed.
    pub open spec fn discarded(self) -> PoolView
        decreases self.rx.len(),
    {
        if self.rx.len() > 0 {
            self.received().with_slot(self.rx[0] as int, SlotState::Free).discarded()
        } else {
            self
        }
    }

    /// `n` buffers of `size` bytes, and only those in the RX queue.
    pub open spec fn fits(self, n: int, size: int) -> bool {
        &&& self.slots.len() == n
        &&& self.bufs.len() == n
        &&& forall|i: int| 0 <= i < n ==> (#[trigger] self.bufs[i]).len() == size
        &&& self.rx.len() <= n
        &&& forall|k: int| 0 <= k < self.rx.len() ==> (#[trigger] self.rx[k]) < n
    }

    /// The RX queue holds received buffers, each of them once.
    pub open spec fn queue_sound(self) -> bool {
        &&& forall|k: int|
            0 <= k < self.rx.len() ==> self.slots[(#[trigger] self.rx[k]) as int]
                == SlotState::RxQueued
        &&& forall|k: int, l: int|
            0 <= k < l < self.rx.len() ==> #[trigger] self.rx[k] != #[trigger] self.rx[l]
    }
}

/// What a search for a buffer finds: the lowest index in the state, and nothing
/// exactly when no buffer is in it.
pub proof fn law_first_slot(slots: Seq<SlotState>, s: SlotState, from: int)
    requires
        0 <= from <= slots.len(),
        slots.len() <= usize::MAX,
    ensures
        match first_slot(slots, s, from) {
            Some(i) => from <= i < slots.len() && slots[i as int] == s && (forall|j: int|
                from <= j < i ==> slots[j] != s),
            None => forall|j: int| from <= j < slots.len() ==> slots[j] != s,
        },
    decreases slots.len() - from,
{
    if from < slots.len() && slots[from] != s {
        law_first_slot(slots, s, from + 1);
    }
}

/// What a search for a pipe's buffer finds: the lowest queued index whose
/// header names the pipe, and nothing exactly when there is none. A payload
/// that is queued for another pipe is never found.
pub proof fn law_first_queued_for(v: PoolView, pipe: u8, from: int)
    requires
        0 <= from <= v.slots.len(),
        v.slots.len() <= usize::MAX,
    ensures
        match first_queued_for(v, pipe, from) {
            Some(i) => from <= i < v.slots.len() && v.slots[i as int] == SlotState::TxQueued
                && v.header(i as int).pipe == pipe && (forall|j: int|
                from <= j < i ==> !(v.slots[j] == SlotState::TxQueued && (
                #[trigger] v.bufs[j])[1] == pipe)),
            None => forall|j: int|
                from <= j < v.slots.len() ==> !(v.slots[j] == SlotState::TxQueued && (
                #[trigger] v.bufs[j])[1] == pipe),
        },
    decreases v.slots.len() - from,
{
    if from < v.slots.len() && !(v.slots[from] == SlotState::TxQueued && v.bufs[from][1] == pipe) {
        law_first_queued_for(v, pipe, from + 1);
    }
}

/// While the queue is sound it has room for every buffer that is not in it: a
/// received packet is never dropped.
pub proof fn law_queue_has_room(v: PoolView, n: int, size: int, i: int)
    requires
        v.fits(n, size),
        v.queue_sound(),
        0 <= i < n <= usize::MAX,
        v.slots[i] != SlotState::RxQueued,
    ensures
        v.rx.len() < n,
        v.completed(i).rx == v.rx.push(i as usize),
        v.completed(i).queue_sound(),
        v.completed(i).fits(n, size),
{
    let all = v.rx.push(i as usize);
    assert(all.no_duplicates());
    assert forall|k: int| 0 <= k < all.len() implies 0 <= #[trigger] all[k] < n by {}
    lemma_distinct_below(all, n);
}

/// A sequence of distinct indices below `n` has at most `n` of them.
proof fn lemma_distinct_below(s: Seq<usize>, n: int)
    requires
        s.no_duplicates(),
        0 <= n,
        forall|k: int| 0 <= k < s.len() ==> 0 <= #[trigger] s[k] < n,
    ensures
        s.len() <= n,
{
    let m = s.map_values(|x: usize| x as int);
    assert(m.no_duplicates());
    m.unique_seq_to_set();
    let range = vstd::set_lib::set_int_range(0, n);
    vstd::set_lib::lemma_int_range(0, n);
    assert(m.to_set().subset_of(range)) by {
        assert forall|x: int| m.to_set().contains(x) implies range.contains(x) by {
            let k = choose|k: int| 0 <= k < m.len() && m[k] == x;
            assert(s[k] == x);
        }
    }
    vstd::set_lib::lemma_len_subset(m.to_set(), range);
}

impl<const N: usize, const SIZE: usize> View for PacketPool<N, SIZE> {
    type V = PoolView;

    closed spec fn view(&self) -> PoolView {
        PoolView {
            slots: self.state@,
            bufs: Seq::new(N as nat, |i: int| self.storage@[i]@),
            rx: self.rx_queue@,
        }
    }
}

impl<const N: usize, const SIZE: usize> Default for PacketPool<N, SIZE> {
    fn default() -> (p: Self)
        ensures
            p.wf(),
            p@.slots == Seq::new(N as nat, |i: int| SlotState::Free),
            p@.bufs == Seq::new(N as nat, |i: int| Seq::new(SIZE as nat, |j: int| 0u8)),
            p@.rx == Seq::<usize>::empty(),
    {
        PacketPool::new()
    }
}

impl<const N: usize, const SIZE: usize> PacketPool<N, SIZE> {
    /// `N` buffers of `SIZE` bytes, and only those in the RX queue.
    pub open spec fn wf(&self) -> bool {
        self@.fits(N as int, SIZE as int)
    }

    /// Create a zeroed pool.
    pub fn new() -> (p: Self)
        ensures
            p.wf(),
            p@.slots == Seq::new(N as nat, |i: int| SlotState::Free),
            p@.bufs == Seq::new(N as nat, |i: int| Seq::new(SIZE as nat, |j: int| 0u8)),
            p@.rx == Seq::<usize>::empty(),
    {
        let p = PacketPool {
            storage: [[0u8; SIZE]; N],
            state: [SlotState::Free; N],
            rx_queue: RxQueue::new(),
        };
        assert forall|i: int| 0 <= i < N implies #[trigger] p@.bufs[i] == Seq::new(
            SIZE as nat,
            |j: int| 0u8,
        ) by {
            assert(p.storage@[i]@ =~= Seq::new(SIZE as nat, |j: int| 0u8));
        }
        p
    }

    /// Set the state of a buffer.
    fn set_slot(&mut self, index: usize, s: SlotState)
        requires
            old(self).wf(),
            index < N,
        ensures
            final(self).wf(),
            final(self)@ == old(self)@.with_slot(index as int, s),
    {
        self.state[index] = s;
        assert(self@.bufs =~= old(self)@.bufs);
    }

    /// The state of a buffer.
    pub fn slot(&self, index: usize) -> (s: SlotState)
        requires
            index < N,
        ensures
            s == self@.slots[index as int],
    {
        self.state[index]
    }

    /// Allocate a packet for TX: `Free -> TxAllocated`.
    ///
    /// Returns the lowest free index. The caller fills the buffer, then calls
    /// `enqueue_tx()` or `cancel_tx()`.
    pub fn alloc_tx(&mut self) -> (r: Option<usize>)
        requires
            old(self).wf(),
        ensures
            final(self).wf(),
            r == old(self)@.free(),
            r matches Some(i) ==> i < N,
            final(self)@ == (match r {
                Some(i) => old(self)@.with_slot(i as int, SlotState::TxAllocated),
                None => old(self)@,
            }),
    {
        let mut i: usize = 0;
        while i < N
            invariant
                i <= N,
                self.wf(),
                self@ == old(self)@,
                old(self)@.free() == first_slot(self@.slots, SlotState::Free, i as int),
            decreases N - i,
        {
            if self.state[i] == SlotState::Free {
                self.set_slot(i, SlotState::TxAllocated);
                return Some(i);
            }
            i = i + 1;
        }
        None
    }

    /// Hand an allocated TX packet to the queue: `TxAllocated -> TxQueued`. A
    /// buffer in another state stays as it is.
    pub fn enqueue_tx(&mut self, index: usize)
        requires
            old(self).wf(),
            index < N,
        ensures
            final(self).wf(),
            final(self)@ == (if old(self)@.slots[index as int] == SlotState::TxAllocated {
                old(self)@.with_slot(index as int, SlotState::TxQueued)
            } else {
                old(self)@
            }),
    {
        if self.state[index] == SlotState::TxAllocated {
            self.set_slot(index, SlotState::TxQueued);
        }
    }

    /// Take the next TX packet for the radio: `TxQueued -> InDma`.
    pub fn try_dequeue_tx(&mut self) -> (r: Option<usize>)
        requires
            old(self).wf(),
        ensures
            final(self).wf(),
            r == old(self)@.queued(),
            r matches Some(i) ==> i < N,
            final(self)@ == (match r {
                Some(i) => old(self)@.with_slot(i as int, SlotState::InDma),
                None => old(self)@,
            }),
    {
        let mut i: usize = 0;
        while i < N
            invariant
                i <= N,
                self.wf(),
                self@ == old(self)@,
                old(self)@.queued() == first_slot(self@.slots, SlotState::TxQueued, i as int),
            decreases N - i,
        {
            if self.try_claim_queued_tx(i) {
                return Some(i);
            }
            i = i + 1;
        }
        None
    }

    /// Take the next TX packet for a specific pipe: `TxQueued -> InDma`.
    ///
    /// A payload that is queued for one pipe cannot be consumed by a packet
    /// received on another.
    pub fn try_dequeue_tx_for_pipe(&mut self, pipe: u8) -> (r: Option<usize>)
        requires
            old(self).wf(),
            SIZE >= 4,
        ensures
            final(self).wf(),
            r == old(self)@.queued_for(pipe),
            r matches Some(i) ==> i < N,
            final(self)@ == (match r {
                Some(i) => old(self)@.with_slot(i as int, SlotState::InDma),
                None => old(self)@,
            }),
    {
        let mut i: usize = 0;
        while i < N
            invariant
                i <= N,
                SIZE >= 4,
                self.wf(),
                self@ == old(self)@,
                old(self)@.queued_for(pipe) == first_queued_for(self@, pipe, i as int),
            decreases N - i,
        {
            if self.state[i] == SlotState::TxQueued {
                let header = self.header(i);
                if header.pipe == pipe && self.try_claim_queued_tx(i) {
                    return Some(i);
                }
            }
            i = i + 1;
        }
        None
    }

    /// Hand a queued TX packet to the radio: `TxQueued -> InDma`. A buffer in
    /// another state stays as it is.
    pub fn tx_to_dma(&mut self, index: usize)
        requires
            old(self).wf(),
            index < N,
        ensures
            final(self).wf(),
            final(self)@ == (if old(self)@.slots[index as int] == SlotState::TxQueued {
                old(self)@.with_slot(index as int, SlotState::InDma)
            } else {
                old(self)@
            }),
    {
        let _ = self.try_claim_queued_tx(index);
    }

    /// Release a TX packet after DMA: `InDma -> Free`.
    pub fn release_tx(&mut self, index: usize)
        requires
            old(self).wf(),
            index < N,
        ensures
            final(self).wf(),
            final(self)@ == old(self)@.with_slot(index as int, SlotState::Free),
    {
        self.set_slot(index, SlotState::Free);
    }

    /// Cancel a TX allocation: `TxAllocated/TxQueued -> Free`.
    pub fn cancel_tx(&mut self, index: usize)
        requires
            old(self).wf(),
            index < N,
        ensures
            final(self).wf(),
            final(self)@ == old(self)@.with_slot(index as int, SlotState::Free),
    {
        self.set_slot(index, SlotState::Free);
    }

    fn try_claim_queued_tx(&mut self, index: usize) -> (ok: bool)
        requires
            old(self).wf(),
            index < N,
        ensures
            final(self).wf(),
            ok == (old(self)@.slots[index as int] == SlotState::TxQueued),
            final(self)@ == (if ok {
                old(self)@.with_slot(index as int, SlotState::InDma)
            } else {
                old(self)@
            }),
    {
        if self.state[index] == SlotState::TxQueued {
            self.set_slot(index, SlotState::InDma);
            true
        } else {
            false
        }
    }

    /// Hand a buffer to the radio for RX: `Free -> InDma`.
    ///
    /// Returns false if the buffer was not free.
    pub fn rx_to_dma(&mut self, index: usize) -> (ok: bool)
        requires
            old(self).wf(),
            index < N,
        ensures
            final(self).wf(),
            ok == (old(self)@.slots[index as int] == SlotState::Free),
            final(self)@ == (if ok {
                old(self)@.with_slot(index as int, SlotState::InDma)
            } else {
                old(self)@
            }),
    {
        if self.state[index] == SlotState::Free {
            self.set_slot(index, SlotState::InDma);
            true
        } else {
            false
        }
    }

    /// Hand the first free buffer to the radio.
    pub fn alloc_dma_buffer(&mut self) -> (r: Option<usize>)
        requires
            old(self).wf(),
        ensures
            final(self).wf(),
            r == old(self)@.free(),
            r matches Some(i) ==> i < N,
            final(self)@ == (match r {
                Some(i) => old(self)@.with_slot(i as int, SlotState::InDma),
                None => old(self)@,
            }),
    {
        let mut i: usize = 0;
        while i < N
            invariant
                i <= N,
                self.wf(),
                self@ == old(self)@,
                old(self)@.free() == first_slot(self@.slots, SlotState::Free, i as int),
            decreases N - i,
        {
            if self.rx_to_dma(i) {
                return Some(i);
            }
            i = i + 1;
        }
        None
    }

    /// Complete RX: `InDma -> RxQueued`, and queue the buffer for the application.
    pub fn rx_complete(&mut self, index: usize)
        requires
            old(self).wf(),
            index < N,
        ensures
            final(self).wf(),
            final(self)@ == old(self)@.completed(index as int),
    {
        self.state[index] = SlotState::RxQueued;
        let _ = self.rx_queue.try_send(index);
        assert(self@.bufs =~= old(self)@.bufs);
    }

    /// Receive the next RX packet, if one is waiting.
    pub fn try_receive_rx(&mut self) -> (r: Option<usize>)
        requires
            old(self).wf(),
        ensures
            final(self).wf(),
            r == (if old(self)@.rx.len() > 0 {
                Some(old(self)@.rx[0])
            } else {
                None
            }),
            r matches Some(i) ==> i < N,
            final(self)@ == old(self)@.received(),
    {
        let r = self.rx_queue.try_receive();
        assert(self@.bufs =~= old(self)@.bufs);
        assert(self@ =~= old(self)@.received());
        r
    }

    /// Release an RX packet back to the pool: `RxQueued -> Free`.
    pub fn release_rx(&mut self, index: usize)
        requires
            old(self).wf(),
            index < N,
        ensures
            final(self).wf(),
            final(self)@ == old(self)@.with_slot(index as int, SlotState::Free),
    {
        self.set_slot(index, SlotState::Free);
    }

    /// Drop every packet that waits to be received.
    pub fn discard_received(&mut self)
        requires
            old(self).wf(),
        ensures
            final(self).wf(),
            final(self)@ == old(self)@.discarded(),
            final(self)@.rx.len() == 0,
    {
        loop
            invariant
                self.wf(),
                self@.discarded() == old(self)@.discarded(),
            ensures
                self.wf(),
                self@ == old(self)@.discarded(),
                self@.rx.len() == 0,
            decreases self@.rx.len(),
        {
            match self.try_receive_rx() {
                Some(index) => {
                    self.release_rx(index);
                },
                None => {
                    break;
                },
            }
        }
    }

    /// Get the header of a packet.
    pub fn header(&self, index: usize) -> (h: EsbHeader)
        requires
            index < N,
            SIZE >= 4,
        ensures
            h == self@.header(index as int),
    {
        EsbHeader::read(&self.storage[index])
    }

    /// Replace the header of a packet.
    pub fn set_header(&mut self, index: usize, h: EsbHeader)
        requires
            old(self).wf(),
            index < N,
            SIZE >= 4,
        ensures
            final(self).wf(),
            final(self)@ == old(self)@.with_header(index as int, h),
    {
        h.write(&mut self.storage[index]);
        assert(self@ =~= old(self)@.with_header(index as int, h));
    }

    /// Get a packet buffer.
    pub fn buf(&self, index: usize) -> (b: &[u8; SIZE])
        requires
            index < N,
        ensures
            b@ == self@.bufs[index as int],
    {
        &self.storage[index]
    }

    /// Write into a packet buffer.
    pub fn write_buf(&mut self, index: usize, at: usize, bytes: &[u8])
        requires
            old(self).wf(),
            index < N,
            at + bytes@.len() <= SIZE,
        ensures
            final(self).wf(),
            final(self)@ == old(self)@.with_buf(
                index as int,
                crate::bytes::splice(old(self)@.bufs[index as int], at as int, bytes@),
            ),
    {
        crate::bytes::copy_into(&mut self.storage[index], at, bytes);
        assert(self@ =~= old(self)@.with_buf(
            index as int,
            crate::bytes::splice(old(self)@.bufs[index as int], at as int, bytes@),
        ));
    }
}

/// Received buffers are handed out in the order in which they came: one that comes
/// while others wait is behind them, and one that comes alone is next.
pub proof fn law_received_in_order(v: PoolView, n: int, size: int, i: int)
    requires
        v.fits(n, size),
        v.queue_sound(),
        0 <= i < n <= usize::MAX,
        v.slots[i] != SlotState::RxQueued,
    ensures
        v.completed(i).rx.last() == i,
        v.rx.len() > 0 ==> v.completed(i).rx[0] == v.rx[0],
        v.rx.len() == 0 ==> v.completed(i).rx[0] == i,
        v.rx.len() > 0 ==> v.completed(i).received().rx == v.received().completed(i).rx,
        v.rx.len() > 0 ==> v.received().rx.len() == v.rx.len() - 1,
        v.rx.len() == 0 ==> v.completed(i).received().rx.len() == 0,
        v.completed(i).slots[i] == SlotState::RxQueued,
        v.completed(i).bufs == v.bufs,
        v.received().slots == v.slots,
{
    law_queue_has_room(v, n, size, i);
    if v.rx.len() > 0 {
        assert(v.completed(i).received().rx =~= v.received().completed(i).rx);
    }
}

/// Discarding what was received empties the queue and frees the buffers that were in
/// it; every other buffer stays as it is.
pub proof fn law_discard_frees_received(v: PoolView, n: int, size: int, j: int)
    requires
        v.fits(n, size),
        0 <= j < n <= usize::MAX,
    ensures
        v.discarded().rx.len() == 0,
        v.discarded().bufs == v.bufs,
        v.discarded().slots.len() == n,
        v.rx.contains(j as usize) ==> v.discarded().slots[j] == SlotState::Free,
        !v.rx.contains(j as usize) ==> v.discarded().slots[j] == v.slots[j],
    decreases v.rx.len(),
{
    if v.rx.len() > 0 {
        let next = v.received().with_slot(v.rx[0] as int, SlotState::Free);
        assert forall|k: int| 0 <= k < next.rx.len() implies (#[trigger] next.rx[k]) < n by {
            assert(next.rx[k] == v.rx[k + 1]);
        }
        law_discard_frees_received(next, n, size, j);
        if v.rx.contains(j as usize) && v.rx[0] != j {
            let k = choose|k: int| 0 <= k < v.rx.len() && v.rx[k] == j as usize;
            assert(next.rx[k - 1] == j as usize);
        }
        if next.rx.contains(j as usize) {
            let k = choose|k: int| 0 <= k < next.rx.len() && next.rx[k] == j as usize;
            assert(v.rx[k + 1] == j as usize);
        }
        if v.rx[0] == j {
            assert(v.rx.contains(j as usize));
        }
    }
}

} // verus!
