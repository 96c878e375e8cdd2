//! Packet pool.

use embassy_nrf_esb::payload::{PacketPool, SlotState};

#[test]
fn tx_allocation_is_not_visible_until_enqueued() {
    let mut pool = PacketPool::<2, 16>::new();

    let idx = pool.alloc_tx().expect("free tx slot");
    assert_eq!(pool.slot(idx), SlotState::TxAllocated);
    assert_eq!(pool.try_dequeue_tx(), None);

    let mut header = pool.header(idx);
    header.pipe = 3;
    header.length = 4;
    pool.set_header(idx, header);

    pool.enqueue_tx(idx);

    let claimed = pool.try_dequeue_tx().expect("queued tx slot");
    assert_eq!(claimed, idx);
    assert_eq!(pool.slot(idx), SlotState::InDma);

    pool.release_tx(idx);
    assert_eq!(pool.slot(idx), SlotState::Free);
}

#[test]
fn pipe_filtered_dequeue_claims_only_matching_pipe() {
    let mut pool = PacketPool::<3, 16>::new();

    let pipe0 = pool.alloc_tx().expect("pipe0 slot");
    let pipe1 = pool.alloc_tx().expect("pipe1 slot");

    let mut header = pool.header(pipe0);
    header.pipe = 0;
    pool.set_header(pipe0, header);
    let mut header = pool.header(pipe1);
    header.pipe = 1;
    pool.set_header(pipe1, header);

    pool.enqueue_tx(pipe0);
    pool.enqueue_tx(pipe1);

    assert_eq!(pool.try_dequeue_tx_for_pipe(2), None);

    let claimed_pipe1 = pool.try_dequeue_tx_for_pipe(1).expect("pipe1 queued slot");
    assert_eq!(claimed_pipe1, pipe1);
    assert_eq!(pool.slot(pipe1), SlotState::InDma);
    assert_eq!(pool.slot(pipe0), SlotState::TxQueued);

    let claimed_any = pool.try_dequeue_tx().expect("remaining queued slot");
    assert_eq!(claimed_any, pipe0);

    pool.release_tx(pipe0);
    pool.release_tx(pipe1);
}

#[test]
fn cancel_tx_releases_allocated_or_queued_slots() {
    let mut pool = PacketPool::<1, 16>::new();

    let idx = pool.alloc_tx().expect("free tx slot");
    pool.cancel_tx(idx);
    assert_eq!(pool.slot(idx), SlotState::Free);

    let idx = pool.alloc_tx().expect("reused tx slot");
    pool.enqueue_tx(idx);
    pool.cancel_tx(idx);
    assert_eq!(pool.slot(idx), SlotState::Free);
}
