//! The drivers behind the interrupt handlers.
//!
//! A driver owns its state machine and its packet pool. All protocol work runs in
//! the RADIO interrupt; the TIMER interrupt only sets a flag and pends it. What
//! the application calls between interrupts masks the RADIO interrupt meanwhile.

use crate::addresses::EsbAddresses;
use crate::config::EsbConfig;
use crate::error::Error;
use crate::header;
use crate::header::EsbHeader;
use crate::hw::HwOp;
use crate::payload::{PacketPool, PoolView, SlotState};
use crate::prx;
use crate::prx::{PrxCore, PrxSample, PrxStateMachine};
use crate::ptx;
use crate::ptx::{PtxSample, PtxStateMachine};
use crate::radio;
use crate::radio::EsbRadio;
use crate::radio_model::{radio_after, RadioRegs};
use crate::state_machine;
use crate::state_machine::{PrxEvent, PtxEvent, StatePrx, StatePtx, TimeslotDiagAckContext};
use crate::suspend::EsbSavedState;
use crate::timer;
use crate::timer::EsbTimer;
use vstd::prelude::*;

verus! {

/// Default pool size (number of packet buffers).
pub const DEFAULT_POOL_N: usize = 4;

/// Default buffer size per packet (4-byte header and 252-byte payload).
pub const DEFAULT_POOL_SIZE: usize = 256;

/// A packet can be queued: its pipe exists, and its payload is not empty, within
/// the configured length, and within a buffer.
pub open spec fn sendable(pipe: u8, len: int, max_len: int, size: int) -> bool {
    pipe < 8 && 0 < len <= max_len && 4 + len <= size
}

/// The pool with a packet queued in buffer `i`.
pub open spec fn packet_queued(
    v: PoolView,
    i: int,
    pipe: u8,
    payload: Seq<u8>,
    no_ack: bool,
) -> PoolView {
    let h = EsbHeader {
        pipe,
        length: payload.len() as u8,
        pid_no_ack: header::s1_with_no_ack(v.header(i).pid_no_ack, no_ack),
        ..v.header(i)
    };
    let v = v.with_header(i, h);
    v.with_buf(i, crate::bytes::splice(v.bufs[i], 4, payload)).with_slot(i, SlotState::TxQueued)
}

/// What queueing a packet answers.
pub open spec fn send_verdict(
    v: PoolView,
    pipe: u8,
    len: int,
    max_len: int,
    size: int,
) -> Result<(), Error> {
    if !sendable(pipe, len, max_len, size) {
        Err(Error::InvalidParam)
    } else if v.free() is None {
        Err(Error::TxFull)
    } else {
        Ok(())
    }
}

/// The pool after a packet was to be queued.
pub open spec fn pool_after_send(
    v: PoolView,
    pipe: u8,
    payload: Seq<u8>,
    no_ack: bool,
    max_len: int,
    size: int,
) -> PoolView {
    if send_verdict(v, pipe, payload.len() as int, max_len, size) is Ok {
        packet_queued(v, v.free()->0 as int, pipe, payload, no_ack)
    } else {
        v
    }
}

/// Queue a packet.
fn queue_packet<const N: usize, const SIZE: usize>(
    pool: &mut PacketPool<N, SIZE>,
    pipe: u8,
    payload: &[u8],
    no_ack: bool,
    max_payload_len: usize,
) -> (r: Result<(), Error>)
    requires
        old(pool).wf(),
        SIZE >= 4,
        max_payload_len <= 255,
    ensures
        final(pool).wf(),
        r == send_verdict(
            old(pool)@,
            pipe,
            payload@.len() as int,
            max_payload_len as int,
            SIZE as int,
        ),
        final(pool)@ == pool_after_send(
            old(pool)@,
            pipe,
            payload@,
            no_ack,
            max_payload_len as int,
            SIZE as int,
        ),
{
    if pipe >= 8 {
        return Err(Error::InvalidParam);
    }
    let len: usize = payload.len();
    if len == 0 || len > max_payload_len {
        return Err(Error::InvalidParam);
    }
    if EsbHeader::PAYLOAD_OFFSET + len > SIZE {
        return Err(Error::InvalidParam);
    }
    let idx: usize = match pool.alloc_tx() {
        Some(idx) => idx,
        None => {
            return Err(Error::TxFull);
        },
    };
    let mut header = pool.header(idx);
    header.pipe = pipe;
    header.length = len as u8;
    header.set_no_ack(no_ack);
    pool.set_header(idx, header);
    pool.write_buf(idx, EsbHeader::PAYLOAD_OFFSET, payload);
    pool.enqueue_tx(idx);
    proof {
        let v = old(pool)@;
        crate::payload::law_first_slot(v.slots, SlotState::Free, 0);
        assert(pool@.slots =~= v.slots.update(idx as int, SlotState::TxQueued));
        assert(pool@.bufs =~= packet_queued(v, idx as int, pipe, payload@, no_ack).bufs);
    }
    Ok(())
}

/// A received packet.
///
/// It is read in place; its buffer goes back to the pool with the driver's
/// `release`.
pub struct ReceivedPacket<'a, const N: usize, const SIZE: usize> {
    pool: &'a PacketPool<N, SIZE>,
    idx: usize,
}

impl<'a, const N: usize, const SIZE: usize> ReceivedPacket<'a, N, SIZE> {
    /// The pool that holds the packet.
    pub closed spec fn pool(&self) -> PoolView {
        self.pool@
    }

    /// Where in the pool it stands.
    pub closed spec fn idx(&self) -> int {
        self.idx as int
    }

    /// The buffer exists and holds a header.
    pub closed spec fn wf(&self) -> bool {
        self.idx < N && SIZE >= 4 && self.pool.wf()
    }

    /// The payload: as long as the header says, but never past the buffer.
    pub open spec fn content(&self) -> Seq<u8> {
        let buf = self.pool().bufs[self.idx()];
        let len = self.pool().header(self.idx()).length;
        if 4 + len <= buf.len() {
            buf.subrange(4, 4 + len)
        } else {
            buf.subrange(4, buf.len() as int)
        }
    }

    /// The pipe number.
    pub fn pipe(&self) -> (r: u8)
        requires
            self.wf(),
        ensures
            r == self.pool().header(self.idx()).pipe,
    {
        self.pool.header(self.idx).pipe
    }

    /// The RSSI value.
    pub fn rssi(&self) -> (r: u8)
        requires
            self.wf(),
        ensures
            r == self.pool().header(self.idx()).rssi,
    {
        self.pool.header(self.idx).rssi
    }

    /// The payload length that the header gives.
    pub fn len(&self) -> (r: usize)
        requires
            self.wf(),
        ensures
            r == self.pool().header(self.idx()).length,
    {
        self.pool.header(self.idx).length as usize
    }

    /// Whether the payload is empty.
    pub fn is_empty(&self) -> (r: bool)
        requires
            self.wf(),
        ensures
            r == (self.pool().header(self.idx()).length == 0),
    {
        self.len() == 0
    }

    /// The payload.
    pub fn payload(&self) -> (r: &[u8])
        requires
            self.wf(),
        ensures
            r@ == self.content(),
    {
        let buf: &[u8; SIZE] = self.pool.buf(self.idx);
        let len: usize = self.len();
        let end: usize = if EsbHeader::PAYLOAD_OFFSET + len <= SIZE {
            EsbHeader::PAYLOAD_OFFSET + len
        } else {
            SIZE
        };
        let bytes: &[u8] = buf;
        &bytes[EsbHeader::PAYLOAD_OFFSET..end]
    }

    /// Where in the pool the packet stands.
    pub fn index(&self) -> (r: usize)
        ensures
            r == self.idx(),
    {
        self.idx
    }
}

/// PTX (primary transmitter) driver.
pub struct EsbPtx<const N: usize, const SIZE: usize> {
    /// State machine.
    pub sm: PtxStateMachine,
    /// Packet pool.
    pub pool: PacketPool<N, SIZE>,
    /// Set in the TIMER interrupt, read and cleared in the RADIO interrupt.
    pub timer_flag: bool,
    /// A packet was given up; cleared when the application asks.
    pub max_attempts_flag: bool,
    /// The application waits to suspend: nothing new is to be started.
    pub suspend_requested: bool,
    /// Longest payload.
    pub max_payload_len: usize,
}

/// The flags of a PTX driver.
#[verifier::ext_equal]
pub struct PtxFlags {
    /// The TIMER has interrupted.
    pub timer: bool,
    /// A packet was given up.
    pub max_attempts: bool,
    /// The application waits to suspend.
    pub suspend: bool,
}

/// A PTX driver after the RADIO interrupt: one step of its machine. What the timer left
/// is used up, a packet that was given up is remembered, and a task that waits to suspend
/// is woken once the transmitter is idle.
pub open spec fn ptx_interrupted(w: ptx::PtxWorld, flags: PtxFlags, sample: PtxSample) -> (
    ptx::PtxWorld,
    PtxFlags,
) {
    let (v, event) = w.handled(sample, flags.timer, flags.suspend);
    let log = if flags.suspend && v.sm.state == StatePtx::Idle {
        v.log.push(HwOp::WakeSuspend)
    } else {
        v.log
    };
    (
        ptx::PtxWorld { log: log.push(HwOp::UnpendRadio), ..v },
        PtxFlags {
            timer: false,
            max_attempts: flags.max_attempts || event == PtxEvent::MaxAttempts,
            ..flags
        },
    )
}

/// A PTX driver that was asked to suspend, and the answer.
pub open spec fn ptx_suspend_tried(w: ptx::PtxWorld) -> (
    ptx::PtxWorld,
    Result<EsbSavedState, Error>,
) {
    let masked = ptx::PtxWorld { log: w.log.push(HwOp::MaskRadio), ..w };
    if w.sm.state == StatePtx::Idle {
        let v = masked.suspended();
        (
            ptx::PtxWorld { log: v.log.push(HwOp::UnpendRadio), ..v },
            Ok(ptx::saved_ptx(w.sm)),
        )
    } else {
        (
            ptx::PtxWorld { log: masked.log.push(HwOp::UnmaskRadio), ..w },
            Err(Error::Busy),
        )
    }
}

/// Resuming from a saved state.
pub open spec fn resumed_log(
    log: Seq<HwOp>,
    fast_ramp_up: bool,
    config: EsbConfig,
    addresses: EsbAddresses,
) -> Seq<HwOp> {
    radio::init_log(radio::power_cycle_log(log), fast_ramp_up, config, addresses).push(
        HwOp::UnpendRadio,
    ).push(HwOp::UnmaskRadio)
}

impl<const N: usize, const SIZE: usize> EsbPtx<N, SIZE> {
    /// Pool and state machine fit together.
    pub open spec fn wf(&self) -> bool {
        &&& self.pool.wf()
        &&& self.sm.wf(N as int)
        &&& SIZE >= 4
        &&& self.max_payload_len <= 255
    }

    /// The flags.
    pub open spec fn flags(&self) -> PtxFlags {
        PtxFlags {
            timer: self.timer_flag,
            max_attempts: self.max_attempts_flag,
            suspend: self.suspend_requested,
        }
    }

    /// The state machine with its pool and a log.
    pub open spec fn world(&self, log: Seq<HwOp>) -> ptx::PtxWorld {
        ptx::ptx_world(self.sm, self.pool@, log)
    }

    /// Create a PTX driver, and configure the hardware for it.
    pub fn new(
        pool: PacketPool<N, SIZE>,
        config: &EsbConfig,
        addresses: &EsbAddresses,
        tx_pipe: u8,
        fast_ramp_up: bool,
        ops: &mut Vec<HwOp>,
    ) -> (r: Result<Self, Error>)
        requires
            pool.wf(),
            SIZE >= 4,
        ensures
            r is Ok <==> config.is_valid(),
            r matches Err(e) ==> e == Error::InvalidParam && final(ops)@ == old(ops)@,
            r matches Ok(d) ==> {
                &&& d.wf()
                &&& d.sm == ptx::new_ptx(
                    EsbRadio::fresh(fast_ramp_up),
                    EsbTimer {  },
                    *config,
                    tx_pipe,
                )
                &&& d.pool@ == pool@
                &&& d.flags() == (PtxFlags { timer: false, max_attempts: false, suspend: false })
                &&& d.max_payload_len == config.payload_length
                &&& final(ops)@ == timer::timer_init_log(
                    radio::init_log(old(ops)@, fast_ramp_up, *config, *addresses),
                ).push(HwOp::UnmaskRadio).push(HwOp::UnmaskTimer)
            },
    {
        match config.validate() {
            Ok(_) => {},
            Err(e) => {
                return Err(e);
            },
        }
        let radio = EsbRadio::new(fast_ramp_up);
        radio.init(config, addresses, ops);
        let timer = EsbTimer::new(ops);
        let sm = PtxStateMachine::new(radio, timer, config, tx_pipe);
        ops.push(HwOp::UnmaskRadio);
        ops.push(HwOp::UnmaskTimer);
        Ok(
            EsbPtx {
                sm,
                pool,
                timer_flag: false,
                max_attempts_flag: false,
                suspend_requested: false,
                max_payload_len: config.payload_length as usize,
            },
        )
    }

    /// Handle the RADIO interrupt: one step of the state machine. A task that waits
    /// to suspend is woken once the transmitter is idle.
    pub fn on_radio_interrupt(&mut self, sample: PtxSample, ops: &mut Vec<HwOp>)
        requires
            old(self).wf(),
        ensures
            final(self).wf(),
            final(self).max_payload_len == old(self).max_payload_len,
            (final(self).world(final(ops)@), final(self).flags()) == ptx_interrupted(
                old(self).world(old(ops)@),
                old(self).flags(),
                sample,
            ),
    {
        let timer_flag: bool = self.timer_flag;
        self.timer_flag = false;
        let suppress: bool = self.suspend_requested;
        let event = self.sm.handle_radio_event(&mut self.pool, sample, timer_flag, suppress, ops);
        if event == PtxEvent::MaxAttempts {
            self.max_attempts_flag = true;
        }
        if suppress && self.sm.state() == StatePtx::Idle {
            ops.push(HwOp::WakeSuspend);
        }
        ops.push(HwOp::UnpendRadio);
    }

    /// Handle the TIMER interrupt: set the flag, and pend the RADIO interrupt.
    pub fn on_timer_interrupt(
        &mut self,
        retransmit_fired: bool,
        ack_timeout_fired: bool,
        ops: &mut Vec<HwOp>,
    )
        requires
            old(self).wf(),
        ensures
            final(self).wf(),
            final(self).sm == old(self).sm,
            final(self).pool@ == old(self).pool@,
            final(self).max_payload_len == old(self).max_payload_len,
            final(self).flags() == (PtxFlags { timer: true, ..old(self).flags() }),
            final(ops)@ == state_machine::timer_event_log(
                old(ops)@,
                retransmit_fired,
                ack_timeout_fired,
            ).push(HwOp::PendRadio),
    {
        self.timer_flag = true;
        self.sm.handle_timer_event(retransmit_fired, ack_timeout_fired, ops);
    }

    /// Queue a packet that is to be acknowledged, and trigger its transmission.
    pub fn send_to(&mut self, pipe: u8, payload: &[u8], ops: &mut Vec<HwOp>) -> (r: Result<
        (),
        Error,
    >)
        requires
            old(self).wf(),
        ensures
            final(self).wf(),
            final(self).sm == old(self).sm,
            final(self).flags() == old(self).flags(),
            final(self).max_payload_len == old(self).max_payload_len,
            r == send_verdict(
                old(self).pool@,
                pipe,
                payload@.len() as int,
                old(self).max_payload_len as int,
                SIZE as int,
            ),
            final(self).pool@ == pool_after_send(
                old(self).pool@,
                pipe,
                payload@,
                false,
                old(self).max_payload_len as int,
                SIZE as int,
            ),
            final(ops)@ == (if r is Ok {
                old(ops)@.push(HwOp::PendRadio)
            } else {
                old(ops)@
            }),
    {
        let r = queue_packet(&mut self.pool, pipe, payload, false, self.max_payload_len);
        if r.is_ok() {
            self.sm.trigger_send(ops);
        }
        r
    }

    /// `send_to` on the default pipe.
    pub fn send(&mut self, payload: &[u8], ops: &mut Vec<HwOp>) -> (r: Result<(), Error>)
        requires
            old(self).wf(),
        ensures
            final(self).wf(),
            final(self).sm == old(self).sm,
            final(self).flags() == old(self).flags(),
            final(self).max_payload_len == old(self).max_payload_len,
            r == send_verdict(
                old(self).pool@,
                old(self).sm.tx_pipe,
                payload@.len() as int,
                old(self).max_payload_len as int,
                SIZE as int,
            ),
            final(self).pool@ == pool_after_send(
                old(self).pool@,
                old(self).sm.tx_pipe,
                payload@,
                false,
                old(self).max_payload_len as int,
                SIZE as int,
            ),
            final(ops)@ == (if r is Ok {
                old(ops)@.push(HwOp::PendRadio)
            } else {
                old(ops)@
            }),
    {
        let pipe: u8 = self.sm.tx_pipe;
        self.send_to(pipe, payload, ops)
    }

    /// Queue a packet that is not to be acknowledged, and trigger its transmission.
    pub fn send_no_ack_to(&mut self, pipe: u8, payload: &[u8], ops: &mut Vec<HwOp>) -> (r: Result<
        (),
        Error,
    >)
        requires
            old(self).wf(),
        ensures
            final(self).wf(),
            final(self).sm == old(self).sm,
            final(self).flags() == old(self).flags(),
            final(self).max_payload_len == old(self).max_payload_len,
            r == send_verdict(
                old(self).pool@,
                pipe,
                payload@.len() as int,
                old(self).max_payload_len as int,
                SIZE as int,
            ),
            final(self).pool@ == pool_after_send(
                old(self).pool@,
                pipe,
                payload@,
                true,
                old(self).max_payload_len as int,
                SIZE as int,
            ),
            final(ops)@ == (if r is Ok {
                old(ops)@.push(HwOp::PendRadio)
            } else {
                old(ops)@
            }),
    {
        let r = queue_packet(&mut self.pool, pipe, payload, true, self.max_payload_len);
        if r.is_ok() {
            self.sm.trigger_send(ops);
        }
        r
    }

    /// `send_no_ack_to` on the default pipe.
    pub fn send_no_ack(&mut self, payload: &[u8], ops: &mut Vec<HwOp>) -> (r: Result<(), Error>)
        requires
            old(self).wf(),
        ensures
            final(self).wf(),
            final(self).sm == old(self).sm,
            final(self).flags() == old(self).flags(),
            final(self).max_payload_len == old(self).max_payload_len,
            r == send_verdict(
                old(self).pool@,
                old(self).sm.tx_pipe,
                payload@.len() as int,
                old(self).max_payload_len as int,
                SIZE as int,
            ),
            final(self).pool@ == pool_after_send(
                old(self).pool@,
                old(self).sm.tx_pipe,
                payload@,
                true,
                old(self).max_payload_len as int,
                SIZE as int,
            ),
            final(ops)@ == (if r is Ok {
                old(ops)@.push(HwOp::PendRadio)
            } else {
                old(ops)@
            }),
    {
        let pipe: u8 = self.sm.tx_pipe;
        self.send_no_ack_to(pipe, payload, ops)
    }

    /// Take the oldest ACK payload, if there is one.
    pub fn try_receive(&mut self) -> (r: Option<ReceivedPacket<'_, N, SIZE>>)
        requires
            old(self).wf(),
        ensures
            final(self).wf(),
            final(self).sm == old(self).sm,
            final(self).flags() == old(self).flags(),
            final(self).max_payload_len == old(self).max_payload_len,
            final(self).pool@ == old(self).pool@.received(),
            r is Some <==> old(self).pool@.rx.len() > 0,
            r matches Some(p) ==> p.wf() && p.idx() == old(self).pool@.rx[0] && p.pool()
                == final(self).pool@,
    {
        match self.pool.try_receive_rx() {
            Some(idx) => Some(ReceivedPacket { pool: &self.pool, idx }),
            None => None,
        }
    }

    /// Give the buffer of a received packet back.
    pub fn release(&mut self, index: usize)
        requires
            old(self).wf(),
            index < N,
        ensures
            final(self).wf(),
            final(self).sm == old(self).sm,
            final(self).flags() == old(self).flags(),
            final(self).max_payload_len == old(self).max_payload_len,
            final(self).pool@ == old(self).pool@.with_slot(index as int, SlotState::Free),
    {
        self.pool.release_rx(index);
    }

    /// Set the default pipe. A pipe that does not exist is ignored. Packets that
    /// are queued keep their own pipe.
    pub fn set_pipe(&mut self, pipe: u8, ops: &mut Vec<HwOp>)
        requires
            old(self).wf(),
        ensures
            final(self).wf(),
            final(self).pool@ == old(self).pool@,
            final(self).flags() == old(self).flags(),
            final(self).max_payload_len == old(self).max_payload_len,
            pipe < 8 ==> final(self).sm == (PtxStateMachine { tx_pipe: pipe, ..old(self).sm })
                && final(ops)@ == old(ops)@.push(HwOp::MaskRadio).push(HwOp::UnpendRadio).push(
                HwOp::UnmaskRadio,
            ),
            pipe >= 8 ==> final(self).sm == old(self).sm && final(ops)@ == old(ops)@,
    {
        if pipe >= 8 {
            return ;
        }
        ops.push(HwOp::MaskRadio);
        self.sm.set_tx_pipe(pipe);
        ops.push(HwOp::UnpendRadio);
        ops.push(HwOp::UnmaskRadio);
    }

    /// Current state of the transmitter.
    pub fn state(&self) -> (s: StatePtx)
        ensures
            s == self.sm.state,
    {
        self.sm.state()
    }

    /// Whether no packet is in flight.
    pub fn is_tx_idle(&self) -> (r: bool)
        ensures
            r == (self.sm.state == StatePtx::Idle),
    {
        self.sm.state() == StatePtx::Idle
    }

    /// Whether a packet was given up since the last time this was asked.
    pub fn max_attempts_reached(&mut self) -> (r: bool)
        requires
            old(self).wf(),
        ensures
            final(self).wf(),
            r == old(self).max_attempts_flag,
            final(self).sm == old(self).sm,
            final(self).pool@ == old(self).pool@,
            final(self).max_payload_len == old(self).max_payload_len,
            final(self).flags() == (PtxFlags { max_attempts: false, ..old(self).flags() }),
    {
        let r: bool = self.max_attempts_flag;
        self.max_attempts_flag = false;
        r
    }

    /// Suspend, unless a packet is in flight. On success the radio is stopped and
    /// its interrupt stays masked.
    pub fn try_suspend(&mut self, ops: &mut Vec<HwOp>) -> (r: Result<EsbSavedState, Error>)
        requires
            old(self).wf(),
        ensures
            final(self).wf(),
            final(self).flags() == old(self).flags(),
            final(self).max_payload_len == old(self).max_payload_len,
            (final(self).world(final(ops)@), r) == ptx_suspend_tried(old(self).world(old(ops)@)),
    {
        ops.push(HwOp::MaskRadio);
        if self.sm.state() != StatePtx::Idle {
            ops.push(HwOp::UnmaskRadio);
            return Err(Error::Busy);
        }
        let saved = self.sm.do_suspend(&mut self.pool, ops);
        ops.push(HwOp::UnpendRadio);
        Ok(saved)
    }

    /// Suspend as soon as the packet in flight is done. Until this gives a state,
    /// no new packet is started, and it is called again after every wake-up;
    /// `cancel_suspend` takes the request back.
    pub fn suspend(&mut self, ops: &mut Vec<HwOp>) -> (r: Option<EsbSavedState>)
        requires
            old(self).wf(),
        ensures
            final(self).wf(),
            final(self).max_payload_len == old(self).max_payload_len,
            ({
                let (w, saved) = ptx_suspend_tried(old(self).world(old(ops)@));
                &&& final(self).world(final(ops)@) == w
                &&& r == saved.ok()
                &&& final(self).flags() == (PtxFlags { suspend: saved is Err, ..old(self).flags() })
            }),
    {
        match self.try_suspend(ops) {
            Ok(saved) => {
                self.suspend_requested = false;
                Some(saved)
            },
            Err(_) => {
                self.suspend_requested = true;
                None
            },
        }
    }

    /// Take back a request to suspend.
    pub fn cancel_suspend(&mut self)
        requires
            old(self).wf(),
        ensures
            final(self).wf(),
            final(self).sm == old(self).sm,
            final(self).pool@ == old(self).pool@,
            final(self).max_payload_len == old(self).max_payload_len,
            final(self).flags() == (PtxFlags { suspend: false, ..old(self).flags() }),
    {
        self.suspend_requested = false;
    }

    /// Resume from a saved state: configure the radio anew, and unmask its interrupt.
    pub fn restore(
        &mut self,
        state: &EsbSavedState,
        addresses: &EsbAddresses,
        ops: &mut Vec<HwOp>,
    )
        requires
            old(self).wf(),
        ensures
            final(self).wf(),
            final(self).sm == ptx::restored_ptx(old(self).sm, *state),
            final(self).pool@ == old(self).pool@,
            final(self).max_payload_len == old(self).max_payload_len,
            final(self).flags() == (PtxFlags { suspend: false, ..old(self).flags() }),
            final(ops)@ == resumed_log(
                old(ops)@,
                old(self).sm.radio.fast_ramp_up,
                old(self).sm.config,
                *addresses,
            ),
    {
        self.sm.do_restore(state, addresses, ops);
        self.suspend_requested = false;
        ops.push(HwOp::UnpendRadio);
        ops.push(HwOp::UnmaskRadio);
    }
}

/// PRX (primary receiver) driver.
pub struct EsbPrx<const N: usize, const SIZE: usize> {
    /// State machine.
    pub sm: PrxStateMachine,
    /// Packet pool.
    pub pool: PacketPool<N, SIZE>,
    /// Set in the TIMER interrupt, read and cleared in the RADIO interrupt.
    pub timer_flag: bool,
    /// The application waits to suspend.
    pub suspend_requested: bool,
    /// Longest payload.
    pub max_payload_len: usize,
}

/// A receiver can be suspended between packets, but not while it acknowledges one.
pub open spec fn suspendable(state: StatePrx) -> bool {
    state == StatePrx::Idle || state == StatePrx::Receiver
}

/// A PRX driver after the RADIO interrupt: one step of its machine. A task that waits to
/// suspend is woken once no ACK is being sent.
pub open spec fn prx_interrupted(
    w: prx::PrxWorld,
    timer: bool,
    suspend: bool,
    sample: PrxSample,
) -> prx::PrxWorld {
    let v = w.handled(sample, timer).0;
    let log = if suspend && suspendable(v.core.state) {
        v.log.push(HwOp::WakeSuspend)
    } else {
        v.log
    };
    prx::PrxWorld { log: log.push(HwOp::UnpendRadio), ..v }
}

/// A PRX driver that was asked to suspend, and the answer.
pub open spec fn prx_suspend_tried(w: prx::PrxWorld, disabled: bool) -> (
    prx::PrxWorld,
    Result<EsbSavedState, Error>,
) {
    let masked = prx::PrxWorld { log: w.log.push(HwOp::MaskRadio), ..w };
    if suspendable(w.core.state) {
        let v = masked.suspended(disabled);
        (
            prx::PrxWorld { log: v.log.push(HwOp::UnpendRadio), ..v },
            Ok(prx::saved_prx(w.core)),
        )
    } else {
        (
            prx::PrxWorld { log: masked.log.push(HwOp::UnmaskRadio), ..w },
            Err(Error::Busy),
        )
    }
}

impl<const N: usize, const SIZE: usize> EsbPrx<N, SIZE> {
    /// Pool and state machine fit together.
    pub open spec fn wf(&self) -> bool {
        &&& self.pool.wf()
        &&& self.sm.core.wf(N as int)
        &&& SIZE >= 4
        &&& self.max_payload_len <= 255
    }

    /// The state machine with its pool and a log.
    pub open spec fn world(&self, log: Seq<HwOp>) -> prx::PrxWorld {
        prx::prx_world(self.sm, self.pool@, log)
    }

    /// Everything but the state machine and the pool is as in `other`.
    pub open spec fn same_flags(&self, other: &Self) -> bool {
        &&& self.timer_flag == other.timer_flag
        &&& self.suspend_requested == other.suspend_requested
        &&& self.max_payload_len == other.max_payload_len
    }

    /// Create a PRX driver, and configure the hardware for it.
    pub fn new(
        pool: PacketPool<N, SIZE>,
        config: &EsbConfig,
        addresses: &EsbAddresses,
        fast_ramp_up: bool,
        ops: &mut Vec<HwOp>,
    ) -> (r: Result<Self, Error>)
        requires
            pool.wf(),
            SIZE >= 4,
        ensures
            r is Ok <==> config.is_valid(),
            r matches Err(e) ==> e == Error::InvalidParam && final(ops)@ == old(ops)@,
            r matches Ok(d) ==> {
                &&& d.wf()
                &&& d.sm.core == prx::new_prx(
                    EsbRadio::fresh(fast_ramp_up),
                    EsbTimer {  },
                    *config,
                    crate::addresses::low_mask(addresses.pipes()),
                )
                &&& d.sm.diag_ack@ == Seq::new(256, |i: int| 0u8)
                &&& d.pool@ == pool@
                &&& !d.timer_flag && !d.suspend_requested
                &&& d.max_payload_len == config.payload_length
                &&& final(ops)@ == timer::timer_init_log(
                    radio::init_log(old(ops)@, fast_ramp_up, *config, *addresses),
                ).push(HwOp::UnmaskRadio).push(HwOp::UnmaskTimer)
            },
    {
        match config.validate() {
            Ok(_) => {},
            Err(e) => {
                return Err(e);
            },
        }
        let radio = EsbRadio::new(fast_ramp_up);
        radio.init(config, addresses, ops);
        let timer = EsbTimer::new(ops);
        let sm = PrxStateMachine::new(radio, timer, config, addresses.enabled_mask());
        ops.push(HwOp::UnmaskRadio);
        ops.push(HwOp::UnmaskTimer);
        Ok(
            EsbPrx {
                sm,
                pool,
                timer_flag: false,
                suspend_requested: false,
                max_payload_len: config.payload_length as usize,
            },
        )
    }

    /// Create a PRX driver that runs inside timeslots: the radio is configured at
    /// the start of every slot, and its interrupt belongs to the service layer.
    pub fn new_timeslot(
        pool: PacketPool<N, SIZE>,
        config: &EsbConfig,
        addresses: &EsbAddresses,
        fast_ramp_up: bool,
        ops: &mut Vec<HwOp>,
    ) -> (r: Result<Self, Error>)
        requires
            pool.wf(),
            SIZE >= 4,
        ensures
            r is Ok <==> config.is_valid(),
            r matches Err(e) ==> e == Error::InvalidParam && final(ops)@ == old(ops)@,
            r matches Ok(d) ==> {
                &&& d.wf()
                &&& d.sm.core == (PrxCore {
                    addresses: Some(*addresses),
                    timeslot_managed: true,
                    ..prx::new_prx(
                        EsbRadio::fresh(fast_ramp_up),
                        EsbTimer {  },
                        *config,
                        crate::addresses::low_mask(addresses.pipes()),
                    )
                })
                &&& d.sm.diag_ack@ == Seq::new(256, |i: int| 0u8)
                &&& d.pool@ == pool@
                &&& !d.timer_flag && !d.suspend_requested
                &&& d.max_payload_len == config.payload_length
                &&& final(ops)@ == timer::timer_init_log(old(ops)@)
            },
    {
        match config.validate() {
            Ok(_) => {},
            Err(e) => {
                return Err(e);
            },
        }
        let radio = EsbRadio::new(fast_ramp_up);
        let timer = EsbTimer::new(ops);
        let mut sm = PrxStateMachine::new(radio, timer, config, addresses.enabled_mask());
        sm.set_addresses(addresses);
        sm.set_timeslot_managed(true);
        Ok(
            EsbPrx {
                sm,
                pool,
                timer_flag: false,
                suspend_requested: false,
                max_payload_len: config.payload_length as usize,
            },
        )
    }

    /// Handle the RADIO interrupt: one step of the state machine. A task that waits
    /// to suspend is woken once no ACK is being sent.
    pub fn on_radio_interrupt(&mut self, sample: PrxSample, ops: &mut Vec<HwOp>)
        requires
            old(self).wf(),
        ensures
            final(self).wf(),
            !final(self).timer_flag,
            final(self).suspend_requested == old(self).suspend_requested,
            final(self).max_payload_len == old(self).max_payload_len,
            final(self).world(final(ops)@) == prx_interrupted(
                old(self).world(old(ops)@),
                old(self).timer_flag,
                old(self).suspend_requested,
                sample,
            ),
    {
        let timer_flag: bool = self.timer_flag;
        self.timer_flag = false;
        let _ = self.sm.handle_radio_event(&mut self.pool, sample, timer_flag, ops);
        if self.suspend_requested {
            let state = self.sm.state();
            if state == StatePrx::Idle || state == StatePrx::Receiver {
                ops.push(HwOp::WakeSuspend);
            }
        }
        ops.push(HwOp::UnpendRadio);
    }

    /// Handle the TIMER interrupt: set the flag.
    pub fn on_timer_interrupt(
        &mut self,
        retransmit_fired: bool,
        ack_timeout_fired: bool,
        ops: &mut Vec<HwOp>,
    )
        requires
            old(self).wf(),
        ensures
            final(self).wf(),
            final(self).sm == old(self).sm,
            final(self).pool@ == old(self).pool@,
            final(self).timer_flag,
            final(self).suspend_requested == old(self).suspend_requested,
            final(self).max_payload_len == old(self).max_payload_len,
            final(ops)@ == state_machine::timer_event_log(
                old(ops)@,
                retransmit_fired,
                ack_timeout_fired,
            ),
    {
        self.timer_flag = true;
        self.sm.handle_timer_event(retransmit_fired, ack_timeout_fired, ops);
    }

    /// Start listening for packets, if a buffer is free.
    pub fn start_listening(&mut self, ops: &mut Vec<HwOp>) -> (r: Result<(), Error>)
        requires
            old(self).wf(),
        ensures
            final(self).wf(),
            final(self).same_flags(old(self)),
            r == (if old(self).sm.core.state == StatePrx::Idle && old(self).pool@.free() is None {
                Err(Error::OutOfMemory)
            } else {
                Ok(())
            }),
            ({
                let w = old(self).world(old(ops)@.push(HwOp::MaskRadio)).listening();
                final(self).world(final(ops)@) == (prx::PrxWorld {
                    log: w.log.push(HwOp::UnpendRadio).push(HwOp::UnmaskRadio),
                    ..w
                })
            }),
    {
        ops.push(HwOp::MaskRadio);
        let r = self.sm.start_receiving(&mut self.pool, ops);
        ops.push(HwOp::UnpendRadio);
        ops.push(HwOp::UnmaskRadio);
        r
    }

    /// Take the oldest received packet, if there is one.
    pub fn receive(&mut self) -> (r: Option<ReceivedPacket<'_, N, SIZE>>)
        requires
            old(self).wf(),
        ensures
            final(self).wf(),
            final(self).sm == old(self).sm,
            final(self).same_flags(old(self)),
            final(self).pool@ == old(self).pool@.received(),
            r is Some <==> old(self).pool@.rx.len() > 0,
            r matches Some(p) ==> p.wf() && p.idx() == old(self).pool@.rx[0] && p.pool()
                == final(self).pool@,
    {
        match self.pool.try_receive_rx() {
            Some(idx) => Some(ReceivedPacket { pool: &self.pool, idx }),
            None => None,
        }
    }

    /// Give the buffer of a received packet back.
    pub fn release(&mut self, index: usize)
        requires
            old(self).wf(),
            index < N,
        ensures
            final(self).wf(),
            final(self).sm == old(self).sm,
            final(self).same_flags(old(self)),
            final(self).pool@ == old(self).pool@.with_slot(index as int, SlotState::Free),
    {
        self.pool.release_rx(index);
    }

    /// Queue a payload for the next ACK on `pipe`.
    pub fn send_ack_payload(&mut self, pipe: u8, payload: &[u8]) -> (r: Result<(), Error>)
        requires
            old(self).wf(),
        ensures
            final(self).wf(),
            final(self).sm == old(self).sm,
            final(self).same_flags(old(self)),
            r == send_verdict(
                old(self).pool@,
                pipe,
                payload@.len() as int,
                old(self).max_payload_len as int,
                SIZE as int,
            ),
            final(self).pool@ == pool_after_send(
                old(self).pool@,
                pipe,
                payload@,
                false,
                old(self).max_payload_len as int,
                SIZE as int,
            ),
    {
        queue_packet(&mut self.pool, pipe, payload, false, self.max_payload_len)
    }

    /// Stop listening. `disabled` is whether the radio shows to be disabled.
    pub fn stop(&mut self, disabled: bool, ops: &mut Vec<HwOp>)
        requires
            old(self).wf(),
        ensures
            final(self).wf(),
            final(self).same_flags(old(self)),
            ({
                let w = old(self).world(old(ops)@.push(HwOp::MaskRadio)).stopped(disabled);
                final(self).world(final(ops)@) == (prx::PrxWorld {
                    log: w.log.push(HwOp::UnpendRadio).push(HwOp::UnmaskRadio),
                    ..w
                })
            }),
    {
        ops.push(HwOp::MaskRadio);
        self.sm.stop_receiving(&mut self.pool, disabled, ops);
        ops.push(HwOp::UnpendRadio);
        ops.push(HwOp::UnmaskRadio);
    }

    /// Current state of the receiver.
    pub fn state(&self) -> (s: StatePrx)
        ensures
            s == self.sm.core.state,
    {
        self.sm.state()
    }

    /// Suspend, unless an ACK is being sent. On success the radio is stopped and its
    /// interrupt stays masked.
    pub fn try_suspend(&mut self, disabled: bool, ops: &mut Vec<HwOp>) -> (r: Result<
        EsbSavedState,
        Error,
    >)
        requires
            old(self).wf(),
        ensures
            final(self).wf(),
            final(self).same_flags(old(self)),
            (final(self).world(final(ops)@), r) == prx_suspend_tried(
                old(self).world(old(ops)@),
                disabled,
            ),
            r is Err ==> final(self).sm == old(self).sm,
    {
        ops.push(HwOp::MaskRadio);
        let state = self.sm.state();
        if state != StatePrx::Idle && state != StatePrx::Receiver {
            ops.push(HwOp::UnmaskRadio);
            return Err(Error::Busy);
        }
        let saved = self.sm.do_suspend(&mut self.pool, disabled, ops);
        ops.push(HwOp::UnpendRadio);
        Ok(saved)
    }

    /// Suspend as soon as the ACK that is being sent is out. Until this gives a
    /// state it is called again after every wake-up; `cancel_suspend` takes the
    /// request back.
    pub fn suspend(&mut self, disabled: bool, ops: &mut Vec<HwOp>) -> (r: Option<EsbSavedState>)
        requires
            old(self).wf(),
        ensures
            final(self).wf(),
            final(self).timer_flag == old(self).timer_flag,
            final(self).max_payload_len == old(self).max_payload_len,
            final(self).suspend_requested == !suspendable(old(self).sm.core.state),
            ({
                let (w, saved) = prx_suspend_tried(old(self).world(old(ops)@), disabled);
                &&& final(self).world(final(ops)@) == w
                &&& r == saved.ok()
                &&& r is None ==> final(self).sm == old(self).sm
            }),
    {
        match self.try_suspend(disabled, ops) {
            Ok(saved) => {
                self.suspend_requested = false;
                Some(saved)
            },
            Err(_) => {
                self.suspend_requested = true;
                None
            },
        }
    }

    /// Take back a request to suspend.
    pub fn cancel_suspend(&mut self)
        requires
            old(self).wf(),
        ensures
            final(self).wf(),
            final(self).sm == old(self).sm,
            final(self).pool@ == old(self).pool@,
            final(self).timer_flag == old(self).timer_flag,
            final(self).max_payload_len == old(self).max_payload_len,
            !final(self).suspend_requested,
    {
        self.suspend_requested = false;
    }

    /// Resume from a saved state: configure the radio anew, and unmask its interrupt.
    pub fn restore(
        &mut self,
        state: &EsbSavedState,
        addresses: &EsbAddresses,
        ops: &mut Vec<HwOp>,
    )
        requires
            old(self).wf(),
        ensures
            final(self).wf(),
            final(self).sm.core == prx::restored_prx(old(self).sm.core, *state, *addresses),
            final(self).sm.diag_ack == old(self).sm.diag_ack,
            final(self).pool@ == old(self).pool@,
            final(self).timer_flag == old(self).timer_flag,
            final(self).max_payload_len == old(self).max_payload_len,
            !final(self).suspend_requested,
            final(ops)@ == resumed_log(
                old(ops)@,
                old(self).sm.core.radio.fast_ramp_up,
                old(self).sm.core.config,
                *addresses,
            ),
    {
        self.sm.do_restore(state, addresses, ops);
        self.suspend_requested = false;
        ops.push(HwOp::UnpendRadio);
        ops.push(HwOp::UnmaskRadio);
    }

    /// Record addresses and pipes for the start of each slot.
    pub fn ts_configure(&mut self, addresses: &EsbAddresses, enabled_pipes: u8)
        requires
            old(self).wf(),
        ensures
            final(self).wf(),
            final(self).same_flags(old(self)),
            final(self).pool@ == old(self).pool@,
            final(self).sm.core == (PrxCore {
                addresses: Some(*addresses),
                enabled_pipes,
                ..old(self).sm.core
            }),
            final(self).sm.diag_ack == old(self).sm.diag_ack,
    {
        self.sm.set_addresses(addresses);
        self.sm.set_enabled_pipes(enabled_pipes);
    }

    /// Slot start: configure the radio, restore duplicate detection, and listen.
    pub fn ts_start_rx(
        &mut self,
        saved_pid: [u8; 8],
        saved_crc: [u16; 8],
        saved_valid: [bool; 8],
        ops: &mut Vec<HwOp>,
    ) -> (r: Result<(), Error>)
        requires
            old(self).wf(),
            old(self).sm.core.addresses is Some,
        ensures
            final(self).wf(),
            final(self).same_flags(old(self)),
            r == (if old(self).pool@.free() is None {
                Err(Error::OutOfMemory)
            } else {
                Ok(())
            }),
            final(self).world(final(ops)@) == old(self).world(old(ops)@).slot_started(
                saved_pid,
                saved_crc,
                saved_valid,
            ),
    {
        self.sm.ts_start_rx(&mut self.pool, saved_pid, saved_crc, saved_valid, ops)
    }

    /// A radio signal within a slot: one step of the state machine.
    pub fn ts_on_radio(&mut self, sample: PrxSample, ops: &mut Vec<HwOp>) -> (r: (
        PrxEvent,
        Option<usize>,
    ))
        requires
            old(self).wf(),
        ensures
            final(self).wf(),
            final(self).same_flags(old(self)),
            (final(self).world(final(ops)@), r.0, r.1) == old(self).world(
                old(ops)@,
            ).slot_signalled(sample),
    {
        self.sm.ts_on_radio(&mut self.pool, sample, ops)
    }

    /// Give the window to advertise in diagnostic ACKs.
    pub fn ts_set_diag_ack_context(&mut self, context: TimeslotDiagAckContext)
        requires
            old(self).wf(),
        ensures
            final(self).wf(),
            final(self).same_flags(old(self)),
            final(self).pool@ == old(self).pool@,
            final(self).sm.core == (PrxCore {
                diag_ack_context: Some(context),
                ..old(self).sm.core
            }),
            final(self).sm.diag_ack == old(self).sm.diag_ack,
    {
        self.sm.set_timeslot_diag_ack_context(context);
    }

    /// Drop what was received.
    pub fn ts_discard_received(&mut self)
        requires
            old(self).wf(),
        ensures
            final(self).wf(),
            final(self).same_flags(old(self)),
            final(self).sm == old(self).sm,
            final(self).pool@ == old(self).pool@.discarded(),
    {
        self.sm.ts_discard_received(&mut self.pool);
    }

    /// Slot end: stop the radio and free its buffers.
    pub fn ts_force_stop(&mut self, disabled: bool, ops: &mut Vec<HwOp>)
        requires
            old(self).wf(),
        ensures
            final(self).wf(),
            final(self).same_flags(old(self)),
            final(self).world(final(ops)@) == old(self).world(old(ops)@).slot_stopped(disabled),
    {
        self.sm.ts_force_stop(&mut self.pool, disabled, ops);
    }

    /// The duplicate detection, to carry over to the next slot.
    pub fn ts_snapshot_dup_state(&self) -> (r: ([u8; 8], [u16; 8], [bool; 8]))
        ensures
            r.0 == self.sm.core.radio.last_pid,
            r.1 == self.sm.core.radio.last_crc,
            r.2 == self.sm.core.radio.last_valid,
    {
        (self.sm.saved_pid(), self.sm.saved_crc(), self.sm.saved_valid())
    }

    /// The last pipe a packet came on, 0xFF if none has.
    pub fn ts_last_pipe(&self) -> (r: u8)
        ensures
            r == self.sm.core.last_pipe,
    {
        self.sm.last_pipe()
    }
}

/// What a timeslot callback needs of a receiver, whatever its pool.
pub trait TimeslotPrxDriver {
    /// The driver is in order.
    spec fn in_order(&self) -> bool;

    /// The driver knows the addresses that a slot is configured with.
    spec fn configured(&self) -> bool;

    /// Slot start: configure the radio, restore duplicate detection, and listen.
    fn ts_start_rx(
        &mut self,
        saved_pid: [u8; 8],
        saved_crc: [u16; 8],
        saved_valid: [bool; 8],
        ops: &mut Vec<HwOp>,
    ) -> (r: Result<(), Error>)
        requires
            old(self).in_order(),
            old(self).configured(),
        ensures
            final(self).in_order(),
    ;

    /// A radio signal within a slot: one step of the protocol.
    fn ts_on_radio(&mut self, sample: PrxSample, ops: &mut Vec<HwOp>) -> (r: (
        PrxEvent,
        Option<usize>,
    ))
        requires
            old(self).in_order(),
        ensures
            final(self).in_order(),
    ;

    /// Give the window to advertise in diagnostic ACKs.
    fn ts_set_diag_ack_context(&mut self, context: TimeslotDiagAckContext)
        requires
            old(self).in_order(),
        ensures
            final(self).in_order(),
    ;

    /// Drop what was received.
    fn ts_discard_received(&mut self)
        requires
            old(self).in_order(),
        ensures
            final(self).in_order(),
    ;

    /// Slot end: stop the radio and free its buffers.
    fn ts_force_stop(&mut self, disabled: bool, ops: &mut Vec<HwOp>)
        requires
            old(self).in_order(),
        ensures
            final(self).in_order(),
    ;

    /// The duplicate detection, to carry over to the next slot.
    fn ts_snapshot_dup_state(&self) -> ([u8; 8], [u16; 8], [bool; 8]);

    /// The last pipe a packet came on, 0xFF if none has.
    fn ts_last_pipe(&self) -> u8;
}

impl<const N: usize, const SIZE: usize> TimeslotPrxDriver for EsbPrx<N, SIZE> {
    open spec fn in_order(&self) -> bool {
        self.wf()
    }

    open spec fn configured(&self) -> bool {
        self.sm.core.addresses is Some
    }

    fn ts_start_rx(
        &mut self,
        saved_pid: [u8; 8],
        saved_crc: [u16; 8],
        saved_valid: [bool; 8],
        ops: &mut Vec<HwOp>,
    ) -> (r: Result<(), Error>)
        ensures
            final(self).same_flags(old(self)),
            r == (if old(self).pool@.free() is None {
                Err(Error::OutOfMemory)
            } else {
                Ok(())
            }),
            final(self).world(final(ops)@) == old(self).world(old(ops)@).slot_started(
                saved_pid,
                saved_crc,
                saved_valid,
            ),
    {
        self.sm.ts_start_rx(&mut self.pool, saved_pid, saved_crc, saved_valid, ops)
    }

    fn ts_on_radio(&mut self, sample: PrxSample, ops: &mut Vec<HwOp>) -> (r: (
        PrxEvent,
        Option<usize>,
    ))
        ensures
            final(self).same_flags(old(self)),
            (final(self).world(final(ops)@), r.0, r.1) == old(self).world(
                old(ops)@,
            ).slot_signalled(sample),
    {
        self.sm.ts_on_radio(&mut self.pool, sample, ops)
    }

    fn ts_set_diag_ack_context(&mut self, context: TimeslotDiagAckContext)
        ensures
            final(self).same_flags(old(self)),
            final(self).pool@ == old(self).pool@,
            final(self).sm.core == (PrxCore {
                diag_ack_context: Some(context),
                ..old(self).sm.core
            }),
            final(self).sm.diag_ack == old(self).sm.diag_ack,
    {
        self.sm.set_timeslot_diag_ack_context(context);
    }

    fn ts_discard_received(&mut self)
        ensures
            final(self).same_flags(old(self)),
            final(self).sm == old(self).sm,
            final(self).pool@ == old(self).pool@.discarded(),
    {
        self.sm.ts_discard_received(&mut self.pool);
    }

    fn ts_force_stop(&mut self, disabled: bool, ops: &mut Vec<HwOp>)
        ensures
            final(self).same_flags(old(self)),
            final(self).world(final(ops)@) == old(self).world(old(ops)@).slot_stopped(disabled),
    {
        self.sm.ts_force_stop(&mut self.pool, disabled, ops);
    }

    fn ts_snapshot_dup_state(&self) -> (r: ([u8; 8], [u16; 8], [bool; 8]))
        ensures
            r.0 == self.sm.core.radio.last_pid,
            r.1 == self.sm.core.radio.last_crc,
            r.2 == self.sm.core.radio.last_valid,
    {
        (self.sm.saved_pid(), self.sm.saved_crc(), self.sm.saved_valid())
    }

    fn ts_last_pipe(&self) -> (r: u8)
        ensures
            r == self.sm.core.last_pipe,
    {
        self.sm.last_pipe()
    }
}

/// A packet that was queued is what the radio transmits next of an empty queue, on
/// its own pipe and with its payload.
pub proof fn law_sent_packet_is_next(
    v: PoolView,
    pipe: u8,
    payload: Seq<u8>,
    no_ack: bool,
    max_len: int,
    n: int,
    size: int,
)
    requires
        v.fits(n, size),
        n <= usize::MAX,
        max_len <= 255,
        v.queued() is None,
        send_verdict(v, pipe, payload.len() as int, max_len, size) is Ok,
    ensures
        ({
            let after = pool_after_send(v, pipe, payload, no_ack, max_len, size);
            &&& after.queued() == v.free()
            &&& after.header(v.free()->0 as int).pipe == pipe
            &&& after.header(v.free()->0 as int).length == payload.len()
            &&& header::s1_no_ack(after.header(v.free()->0 as int).pid_no_ack) == no_ack
            &&& after.bufs[v.free()->0 as int].subrange(4, 4 + payload.len() as int) == payload
        }),
{
    let i = v.free()->0 as int;
    let after = pool_after_send(v, pipe, payload, no_ack, max_len, size);
    crate::payload::law_first_slot(v.slots, SlotState::Free, 0);
    crate::payload::law_first_slot(v.slots, SlotState::TxQueued, 0);
    crate::payload::law_first_slot(after.slots, SlotState::TxQueued, 0);
    assert(after.slots[i] == SlotState::TxQueued);
    header::law_no_ack_round_trip(v.header(i).pid_no_ack, no_ack);
    assert(after.bufs[i].subrange(4, 4 + payload.len() as int) =~= payload);
}

/// A refused packet changes nothing: one that cannot be queued
/// leaves the pool as it was.
pub proof fn law_refused_packet_changes_nothing(
    v: PoolView,
    pipe: u8,
    payload: Seq<u8>,
    no_ack: bool,
    max_len: int,
    size: int,
)
    requires
        send_verdict(v, pipe, payload.len() as int, max_len, size) is Err,
    ensures
        pool_after_send(v, pipe, payload, no_ack, max_len, size) == v,
{
}

/// A packet is queued exactly where its pipe exists, its payload fits and a buffer is
/// free. It fills that one buffer, which keeps its PID; no other buffer and nothing of
/// what was received changes.
pub proof fn law_send_fills_one_buffer(
    v: PoolView,
    pipe: u8,
    payload: Seq<u8>,
    no_ack: bool,
    max_len: int,
    n: int,
    size: int,
    j: int,
)
    requires
        v.fits(n, size),
        n <= usize::MAX,
        max_len <= 255,
        0 <= j < n,
    ensures
        ({
            let verdict = send_verdict(v, pipe, payload.len() as int, max_len, size);
            let after = pool_after_send(v, pipe, payload, no_ack, max_len, size);
            let i = v.free()->0 as int;
            &&& verdict is Ok <==> pipe < 8 && 0 < payload.len() <= max_len && 4 + payload.len()
                <= size && exists|k: int| 0 <= k < n && #[trigger] v.slots[k] == SlotState::Free
            &&& verdict == Err::<(), Error>(Error::TxFull) ==> v.slots[j] != SlotState::Free
            &&& after.rx == v.rx
            &&& verdict is Err || j != i ==> after.slots[j] == v.slots[j] && after.bufs[j]
                == v.bufs[j]
            &&& verdict is Ok && j == i ==> {
                &&& v.slots[j] == SlotState::Free
                &&& after.slots[j] == SlotState::TxQueued
                &&& after.header(j).pipe == pipe
                &&& after.header(j).length == payload.len()
                &&& after.header(j).rssi == v.header(j).rssi
                &&& header::s1_no_ack(after.header(j).pid_no_ack) == no_ack
                &&& header::s1_pid(after.header(j).pid_no_ack) == header::s1_pid(
                    v.header(j).pid_no_ack,
                )
                &&& after.bufs[j].subrange(4, 4 + payload.len() as int) == payload
            }
        }),
{
    let i = v.free()->0 as int;
    let after = pool_after_send(v, pipe, payload, no_ack, max_len, size);
    crate::payload::law_first_slot(v.slots, SlotState::Free, 0);
    if send_verdict(v, pipe, payload.len() as int, max_len, size) is Ok {
        header::law_no_ack_round_trip(v.header(i).pid_no_ack, no_ack);
        assert(after.bufs[i].subrange(4, 4 + payload.len() as int) =~= payload);
    }
}

/// An ACK payload is what the next ACK on its pipe carries, where none was queued for
/// that pipe; one that was queued for another pipe stays the next one there.
pub proof fn law_ack_payload_is_next_on_its_pipe(
    v: PoolView,
    pipe: u8,
    payload: Seq<u8>,
    no_ack: bool,
    max_len: int,
    n: int,
    size: int,
    other: u8,
)
    requires
        v.fits(n, size),
        n <= usize::MAX,
        max_len <= 255,
        other != pipe,
        send_verdict(v, pipe, payload.len() as int, max_len, size) is Ok,
    ensures
        ({
            let after = pool_after_send(v, pipe, payload, no_ack, max_len, size);
            &&& v.queued_for(pipe) is None ==> after.queued_for(pipe) == v.free()
            &&& after.queued_for(pipe) is Some
            &&& after.queued_for(other) == v.queued_for(other)
        }),
{
    let i = v.free()->0 as int;
    let after = pool_after_send(v, pipe, payload, no_ack, max_len, size);
    crate::payload::law_first_slot(v.slots, SlotState::Free, 0);
    crate::payload::law_first_queued_for(v, pipe, 0);
    crate::payload::law_first_queued_for(v, other, 0);
    crate::payload::law_first_queued_for(after, pipe, 0);
    crate::payload::law_first_queued_for(after, other, 0);
    assert(after.slots[i] == SlotState::TxQueued);
    assert(after.bufs[i][1] == pipe);
    assert forall|j: int| 0 <= j < n && j != i implies after.slots[j] == v.slots[j] && (
    #[trigger] after.bufs[j]) == v.bufs[j] by {}
    if let Some(k) = v.queued_for(other) {
        assert(after.bufs[k as int] == v.bufs[k as int]);
    }
    if let Some(k) = after.queued_for(other) {
        assert(v.bufs[k as int] == after.bufs[k as int]);
    }
    if let Some(k) = after.queued_for(pipe) {
        assert(k != i ==> v.bufs[k as int] == after.bufs[k as int]);
    }
}

/// The RADIO interrupt is masked after the operations of a log, oldest first.
#[verifier::opaque]
pub open spec fn masked_after(masked: bool, log: Seq<HwOp>) -> bool
    decreases log.len(),
{
    if log.len() == 0 {
        masked
    } else if log.last() == HwOp::MaskRadio {
        true
    } else if log.last() == HwOp::UnmaskRadio {
        false
    } else {
        masked_after(masked, log.drop_last())
    }
}

/// One more operation on a log is one more step of the mask.
pub broadcast proof fn lemma_masked_push(masked: bool, log: Seq<HwOp>, op: HwOp)
    ensures
        #[trigger] masked_after(masked, log.push(op)) == (if op == HwOp::MaskRadio {
            true
        } else if op == HwOp::UnmaskRadio {
            false
        } else {
            masked_after(masked, log)
        }),
{
    reveal(masked_after);
    assert(log.push(op).drop_last() =~= log);
}

/// A driver that suspends keeps its interrupt masked and its radio off, and one that
/// cannot suspend goes on as before with its interrupt unmasked. Suspending is refused
/// only while a packet is in flight, or an ACK.
pub proof fn law_suspend_masks_interrupt(
    m: bool,
    r: RadioRegs,
    w: ptx::PtxWorld,
    p: prx::PrxWorld,
    disabled: bool,
)
    ensures
        ({
            let (v, saved) = ptx_suspend_tried(w);
            &&& saved is Ok <==> w.sm.state == StatePtx::Idle
            &&& saved is Ok ==> masked_after(m, v.log) && radio_after(r, v.log).activity is Disabled
                && !radio_after(r, v.log).interrupt
            &&& saved is Err ==> !masked_after(m, v.log) && v.sm == w.sm && v.pool == w.pool
                && saved == Err::<EsbSavedState, Error>(Error::Busy) && radio_after(r, v.log)
                == radio_after(r, w.log)
        }),
        ({
            let (v, saved) = prx_suspend_tried(p, disabled);
            &&& saved is Ok <==> p.core.state == StatePrx::Idle || p.core.state
                == StatePrx::Receiver
            &&& saved is Ok ==> masked_after(m, v.log) && radio_after(r, v.log).activity is Disabled
                && !radio_after(r, v.log).interrupt && v.core.state == StatePrx::Idle
            &&& saved is Err ==> !masked_after(m, v.log) && v.core == p.core && v.pool == p.pool
                && saved == Err::<EsbSavedState, Error>(Error::Busy) && radio_after(r, v.log)
                == radio_after(r, p.log)
        }),
{
    broadcast use lemma_masked_push;
    broadcast use crate::radio_model::lemma_radio_push;

}

/// A driver that resumes has its interrupt unmasked and its radio set up anew, for the
/// configured channel and bitrate, and off until it is used.
pub proof fn law_resume_unmasks_interrupt(
    m: bool,
    r: RadioRegs,
    log: Seq<HwOp>,
    fast: bool,
    config: EsbConfig,
    addresses: EsbAddresses,
)
    ensures
        ({
            let after = resumed_log(log, fast, config, addresses);
            let now = radio_after(r, after);
            &&& !masked_after(m, after)
            &&& now.frequency == config.channel.0 && now.mode == config.bitrate
            &&& now.activity is Disabled && !now.interrupt
        }),
{
    broadcast use lemma_masked_push;
    broadcast use crate::radio_model::lemma_radio_push;

}

/// The interrupt of a PTX uses up what the timer left and keeps a request to suspend. A
/// packet that was given up is remembered until it is asked for, and nothing else sets
/// that. While a request to suspend stands no other packet is started, and whoever
/// waits is woken once the transmitter is idle.
pub proof fn law_ptx_interrupt_flags(
    w: ptx::PtxWorld,
    flags: PtxFlags,
    sample: PtxSample,
    n: int,
    size: int,
)
    requires
        w.inv(),
        crate::ptx_laws::pool_ok(w.pool, n, size),
        w.sm.state != StatePtx::Idle,
    ensures
        ({
            let (v, after) = ptx_interrupted(w, flags, sample);
            let answered = sample.disabled && sample.crc_ok;
            let given_up = w.sm.state == StatePtx::WaitAck && (sample.disabled || flags.timer)
                && !answered && w.sm.attempts + 1 >= w.sm.max_attempts;
            &&& !after.timer
            &&& after.suspend == flags.suspend
            &&& after.max_attempts == (flags.max_attempts || given_up)
            &&& flags.suspend && v.sm.state == StatePtx::Idle ==> v.log.len() >= 2
                && v.log[v.log.len() - 2] == HwOp::WakeSuspend
            &&& flags.suspend && v.sm.state != StatePtx::Idle ==> v.sm.tx_idx == w.sm.tx_idx
            &&& v.log.last() == HwOp::UnpendRadio
        }),
{
    if sample.disabled || flags.timer {
        crate::ptx_laws::law_ptx_packet_leaves_when_done(w, sample, flags.timer, n, size, 0);
    }
}

} // verus!
