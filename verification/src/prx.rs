//! PRX (Primary Receiver) state machine.
//!
//! In exclusive mode the radio turns between RX and TX by itself. In
//! timeslot-managed mode every turn is started by software.

use crate::addresses::{EsbAddresses, MAX_PIPES};
use crate::config::EsbConfig;
use crate::error::Error;
use crate::header;
use crate::header::EsbHeader;
use crate::hw;
use crate::hw::{DmaBuffer, HwOp, RadioEvent, RadioOp, TimerOp};
use crate::mpsl_common::write_counter_schedule_packet;
use crate::mpsl_schedule::ScheduleHint;
use crate::payload::{PacketPool, PoolView, SlotState};
use crate::radio;
use crate::radio::{EsbRadio, RxResult, RxStatus};
use crate::state_machine::{IsrEvents, PrxEvent, StatePrx, TimeslotDiagAckContext};
use crate::suspend::{EsbSavedState, SavedProtocolState};
use crate::timer;
use crate::timer::EsbTimer;
use vstd::prelude::*;

verus! {

/// What the radio shows when its interrupt is handled.
#[derive(Debug, Clone, Copy, PartialEq, Eq, Structural)]
pub struct PrxSample {
    /// EVENTS_DISABLED is set.
    pub disabled: bool,
    /// Status of the last received packet.
    pub status: RxStatus,
}

/// Protocol state of a PRX.
pub struct PrxCore {
    /// Radio layer.
    pub radio: EsbRadio,
    /// Timer layer.
    pub timer: EsbTimer,
    /// Configuration, kept for re-initialization.
    pub config: EsbConfig,
    /// Addresses, kept so that each timeslot can re-initialize the radio.
    pub addresses: Option<EsbAddresses>,
    /// Protocol state.
    pub state: StatePrx,
    /// Enabled pipe bitmask.
    pub enabled_pipes: u8,
    /// Buffer that the radio receives into.
    pub rx_idx: Option<usize>,
    /// Received packet that is delivered when its ACK has gone out.
    pub pending_rx_idx: Option<usize>,
    /// ACK payload that the radio is sending.
    pub ack_tx_idx: Option<usize>,
    /// Last pipe processed (0xFF = none yet).
    pub last_pipe: u8,
    /// Schedule to advertise in diagnostic ACKs.
    pub diag_ack_context: Option<TimeslotDiagAckContext>,
    /// Diagnostic ACKs sent per pipe.
    pub diag_ack_counter: [u32; MAX_PIPES],
    /// Driven from a timeslot callback: every turn is started by software.
    pub timeslot_managed: bool,
}

/// PRX (Primary Receiver) state machine.
pub struct PrxStateMachine {
    /// Protocol state.
    pub core: PrxCore,
    /// Buffer of the diagnostic ACK.
    pub diag_ack: [u8; 256],
}

/// A PRX state machine with the pool that it works on and the operations that
/// it has asked for.
#[verifier::ext_equal]
pub struct PrxWorld {
    /// Protocol state.
    pub core: PrxCore,
    /// Contents of the diagnostic ACK buffer.
    pub diag: Seq<u8>,
    /// The packet pool.
    pub pool: PoolView,
    /// The operations so far.
    pub log: Seq<HwOp>,
}

/// The world of a machine, a pool and a log.
pub open spec fn prx_world(sm: PrxStateMachine, pool: PoolView, log: Seq<HwOp>) -> PrxWorld {
    PrxWorld { core: sm.core, diag: sm.diag_ack@, pool, log }
}

/// The hint that a diagnostic ACK carries.
pub open spec fn diag_hint(context: TimeslotDiagAckContext) -> ScheduleHint {
    ScheduleHint {
        version: crate::mpsl_schedule::SCHEDULE_HINT_VERSION,
        flags: 0,
        window_id: context.window_id,
        next_delay_us: context.next_delay_us,
        period_us: context.period_us,
        window_us: context.window_us,
    }
}

/// Write a diagnostic ACK: a counter and a schedule hint.
pub fn write_timeslot_diag_ack(buf: &mut [u8; 256], context: TimeslotDiagAckContext, counter: u32)
    ensures
        final(buf)@ == crate::mpsl_common::counter_schedule_packet(
            old(buf)@,
            0,
            counter,
            diag_hint(context),
        ),
{
    write_counter_schedule_packet(
        buf,
        0,
        counter,
        ScheduleHint::new(
            0,
            context.window_id,
            context.next_delay_us,
            context.period_us,
            context.window_us,
        ),
    );
}

impl PrxWorld {
    /// EVENTS_DISABLED is cleared where it was set.
    pub open spec fn checked(self, disabled: bool) -> PrxWorld {
        if disabled {
            PrxWorld {
                log: hw::radio(self.log, RadioOp::ClearEvent(RadioEvent::Disabled)),
                ..self
            }
        } else {
            self
        }
    }

    /// The radio listens into `dma`.
    pub open spec fn armed(self, dma: DmaBuffer) -> PrxWorld {
        PrxWorld {
            log: if self.core.timeslot_managed {
                radio::start_receiving_manual_log(self.log, self.core.enabled_pipes, dma)
            } else {
                radio::start_receiving_log(self.log, self.core.enabled_pipes, dma)
            },
            ..self
        }
    }

    /// The radio listens into `dma` again, without an ACK in between.
    pub open spec fn rearmed_no_ack(self, dma: DmaBuffer) -> PrxWorld {
        PrxWorld {
            log: if self.core.timeslot_managed {
                radio::start_receiving_manual_log(
                    radio::stop_log(self.log),
                    self.core.enabled_pipes,
                    dma,
                )
            } else {
                radio::complete_rx_no_ack_log(radio::stop_log(self.log), dma)
            },
            ..self
        }
    }

    /// The radio listens into `dma` after an ACK.
    pub open spec fn rearmed_after_ack(self, dma: DmaBuffer) -> PrxWorld {
        PrxWorld {
            log: if self.core.timeslot_managed {
                radio::start_receiving_manual_log(self.log, self.core.enabled_pipes, dma)
            } else {
                radio::complete_rx_ack_log(self.log, dma)
            },
            ..self
        }
    }

    /// An ACK without a queued payload goes out on `pipe` under software
    /// control: a diagnostic one where there is a schedule to advertise.
    pub open spec fn fallback_acked_manual(self, pipe: u8, advance: bool) -> PrxWorld {
        match self.core.diag_ack_context {
            None => PrxWorld {
                log: radio::transmit_ack_manual_log(self.log, pipe, DmaBuffer::FallbackAck),
                ..self
            },
            Some(context) => {
                let counters = if advance && pipe < 8 {
                    vstd::array::spec_array_update(
                        self.core.diag_ack_counter,
                        pipe as int,
                        crate::mpsl_schedule::bumped(self.core.diag_ack_counter@[pipe as int]),
                    )
                } else {
                    self.core.diag_ack_counter
                };
                let counter = if pipe < 8 {
                    counters@[pipe as int]
                } else {
                    0
                };
                PrxWorld {
                    core: PrxCore { diag_ack_counter: counters, ..self.core },
                    diag: crate::mpsl_common::counter_schedule_packet(
                        self.diag,
                        0,
                        counter,
                        diag_hint(context),
                    ),
                    log: radio::transmit_ack_manual_log(self.log, pipe, DmaBuffer::DiagAck),
                    ..self
                }
            },
        }
    }

    /// The ACK for a new packet on `pipe`: the payload that is queued for the
    /// pipe, else an empty or diagnostic one.
    pub open spec fn acked(self, pipe: u8) -> PrxWorld {
        match self.pool.queued_for(pipe) {
            Some(i) => PrxWorld {
                core: PrxCore { ack_tx_idx: Some(i), ..self.core },
                pool: self.pool.with_slot(i as int, SlotState::InDma),
                log: if self.core.timeslot_managed {
                    radio::transmit_ack_manual_log(self.log, pipe, DmaBuffer::Pool(i))
                } else {
                    radio::setup_ack_tx_log(self.log, pipe, DmaBuffer::Pool(i))
                },
                ..self
            },
            None => {
                let w = PrxWorld { core: PrxCore { ack_tx_idx: None, ..self.core }, ..self };
                if w.core.timeslot_managed {
                    w.fallback_acked_manual(pipe, true)
                } else {
                    PrxWorld {
                        log: radio::setup_ack_tx_log(w.log, pipe, DmaBuffer::FallbackAck),
                        ..w
                    }
                }
            },
        }
    }

    /// The ACK for a duplicate packet on `pipe`.
    pub open spec fn repeated_ack(self, pipe: u8) -> PrxWorld {
        if self.core.timeslot_managed {
            self.fallback_acked_manual(pipe, false)
        } else {
            PrxWorld {
                log: radio::setup_ack_tx_log(self.log, pipe, DmaBuffer::FallbackAck),
                ..self
            }
        }
    }

    /// The radio is stopped and the machine idle.
    pub open spec fn halted(self) -> PrxWorld {
        PrxWorld {
            core: PrxCore { state: StatePrx::Idle, ..self.core },
            log: radio::stop_log(self.log),
            ..self
        }
    }

    /// The ACK payload goes back to the pool.
    pub open spec fn released_ack_tx(self) -> PrxWorld {
        match self.core.ack_tx_idx {
            Some(i) => PrxWorld {
                core: PrxCore { ack_tx_idx: None, ..self.core },
                pool: self.pool.with_slot(i as int, SlotState::Free),
                ..self
            },
            None => self,
        }
    }

    /// A duplicate that asks for no ACK: listen again, into a fresh buffer
    /// where one is free.
    pub open spec fn dropped_no_ack(self, rx: usize) -> PrxWorld {
        match self.pool.free() {
            Some(i) => (PrxWorld {
                core: PrxCore { rx_idx: Some(i), ..self.core },
                pool: self.pool.with_slot(i as int, SlotState::InDma).with_slot(
                    rx as int,
                    SlotState::Free,
                ),
                ..self
            }).rearmed_no_ack(DmaBuffer::Pool(i)),
            None => self.rearmed_no_ack(DmaBuffer::Pool(rx)),
        }
    }

    /// A duplicate that asks for an ACK: its buffer is freed and the ACK repeated.
    pub open spec fn dropped_with_ack(self, rx: usize, pipe: u8) -> PrxWorld {
        let w = (PrxWorld {
            core: PrxCore { rx_idx: None, ..self.core },
            pool: self.pool.with_slot(rx as int, SlotState::Free),
            ..self
        }).repeated_ack(pipe);
        PrxWorld { core: PrxCore { state: StatePrx::TxRepeatedAck, ..w.core }, ..w }
    }

    /// A new packet: remembered for duplicate detection, and its header filled in.
    pub open spec fn recorded(self, rx: usize, status: RxStatus) -> PrxWorld {
        let h = self.pool.header(rx as int);
        PrxWorld {
            core: PrxCore {
                radio: self.core.radio.detecting(
                    status.pipe as int,
                    header::s1_pid(h.pid_no_ack),
                    status.crc,
                ),
                ..self.core
            },
            pool: self.pool.with_header(
                rx as int,
                EsbHeader { rssi: status.rssi, pipe: status.pipe, ..h },
            ),
            ..self
        }
    }

    /// A new packet that asks for no ACK is delivered, and the radio listens
    /// again where a buffer is free.
    pub open spec fn delivered_no_ack(self, rx: usize) -> PrxWorld {
        let w = PrxWorld {
            core: PrxCore { rx_idx: None, ..self.core },
            pool: self.pool.completed(rx as int),
            ..self
        };
        match w.pool.free() {
            Some(i) => (PrxWorld {
                core: PrxCore { rx_idx: Some(i), ..w.core },
                pool: w.pool.with_slot(i as int, SlotState::InDma),
                ..w
            }).rearmed_no_ack(DmaBuffer::Pool(i)),
            None => w.halted(),
        }
    }

    /// A new packet that asks for an ACK: the ACK goes out, and the packet
    /// waits for it.
    pub open spec fn answered(self, rx: usize, pipe: u8) -> PrxWorld {
        let w = self.acked(pipe);
        PrxWorld {
            core: PrxCore {
                pending_rx_idx: Some(rx),
                rx_idx: None,
                state: StatePrx::TxAck,
                ..w.core
            },
            ..w
        }
    }

    /// A packet has come in.
    pub open spec fn packet_received(self, status: RxStatus) -> (PrxWorld, PrxEvent, Option<usize>) {
        let w = PrxWorld { core: PrxCore { last_pipe: status.pipe, ..self.core }, ..self };
        let rx = w.core.rx_idx->0;
        let s1 = w.pool.header(rx as int).pid_no_ack;
        let dup = w.core.radio.is_duplicate(status.pipe as int, header::s1_pid(s1), status.crc);
        if !status.crc_ok {
            (
                PrxWorld { log: radio::restart_after_bad_crc_log(w.log), ..w },
                PrxEvent::BadCrc,
                None,
            )
        } else {
            let w = PrxWorld { log: radio::accept_packet_log(w.log), ..w };
            if dup && header::s1_no_ack(s1) {
                (w.dropped_no_ack(rx), PrxEvent::Duplicate, None)
            } else if dup {
                (w.dropped_with_ack(rx, status.pipe), PrxEvent::Duplicate, None)
            } else if header::s1_no_ack(s1) {
                (
                    w.recorded(rx, status).delivered_no_ack(rx),
                    PrxEvent::ReceivedNoAck,
                    Some(rx),
                )
            } else {
                (
                    w.recorded(rx, status).answered(rx, status.pipe),
                    PrxEvent::Received,
                    Some(rx),
                )
            }
        }
    }

    /// The packet whose ACK has gone out is delivered.
    pub open spec fn delivered_pending(self) -> PrxWorld {
        match self.core.pending_rx_idx {
            Some(i) => PrxWorld {
                core: PrxCore { pending_rx_idx: None, ..self.core },
                pool: self.pool.completed(i as int),
                ..self
            },
            None => self,
        }
    }

    /// An ACK has gone out: its payload is released, and the radio listens
    /// again where a buffer is free.
    pub open spec fn ack_done(self) -> PrxWorld {
        let w = self.released_ack_tx();
        match w.pool.free() {
            Some(i) => (PrxWorld {
                core: PrxCore { rx_idx: Some(i), state: StatePrx::Receiver, ..w.core },
                pool: w.pool.with_slot(i as int, SlotState::InDma),
                ..w
            }).rearmed_after_ack(DmaBuffer::Pool(i)),
            None => w.halted(),
        }
    }

    /// An idle machine starts to listen where a buffer is free.
    pub open spec fn listening(self) -> PrxWorld {
        if self.core.state != StatePrx::Idle {
            self
        } else {
            match self.pool.free() {
                Some(i) => (PrxWorld {
                    core: PrxCore { rx_idx: Some(i), state: StatePrx::Receiver, ..self.core },
                    pool: self.pool.with_slot(i as int, SlotState::InDma),
                    ..self
                }).armed(DmaBuffer::Pool(i)),
                None => self,
            }
        }
    }

    /// One RADIO interrupt.
    pub open spec fn handled(self, sample: PrxSample, timer: bool) -> (
        PrxWorld,
        PrxEvent,
        Option<usize>,
    ) {
        let w = self.checked(sample.disabled);
        match w.core.state {
            StatePrx::Idle => (w.listening(), PrxEvent::Nothing, None),
            _ => if !sample.disabled && !timer {
                (w, PrxEvent::Nothing, None)
            } else {
                match w.core.state {
                    StatePrx::Receiver => w.packet_received(sample.status),
                    StatePrx::TxAck => (
                        w.delivered_pending().ack_done(),
                        PrxEvent::Nothing,
                        None,
                    ),
                    _ => (w.ack_done(), PrxEvent::Nothing, None),
                }
            },
        }
    }

    /// Buffer `i` goes back to the pool, if there is one.
    pub open spec fn freed(self, i: Option<usize>) -> PrxWorld {
        match i {
            Some(i) => PrxWorld { pool: self.pool.with_slot(i as int, SlotState::Free), ..self },
            None => self,
        }
    }

    /// The machine is stopped and idle, and holds no buffer.
    pub open spec fn stopped(self, disabled: bool) -> PrxWorld {
        let w = (PrxWorld {
            log: timer::disarm_ack_timeout_log(
                timer::disarm_retransmit_log(radio::stop_log(self.log)),
            ),
            ..self
        }).checked(disabled);
        let w = w.freed(w.core.rx_idx).freed(w.core.pending_rx_idx).freed(w.core.ack_tx_idx);
        PrxWorld {
            core: PrxCore {
                rx_idx: None,
                pending_rx_idx: None,
                ack_tx_idx: None,
                state: StatePrx::Idle,
                ..w.core
            },
            ..w
        }
    }

    /// A timeslot starts.
    pub open spec fn slot_started(
        self,
        pid: [u8; MAX_PIPES],
        crc: [u16; MAX_PIPES],
        valid: [bool; MAX_PIPES],
    ) -> PrxWorld {
        (PrxWorld {
            core: PrxCore {
                radio: EsbRadio {
                    last_pid: pid,
                    last_crc: crc,
                    last_valid: valid,
                    ..self.core.radio
                },
                timeslot_managed: true,
                state: StatePrx::Idle,
                ..self.core
            },
            log: radio::init_log(
                radio::power_cycle_log(self.log),
                self.core.radio.fast_ramp_up,
                self.core.config,
                self.core.addresses->0,
            ),
            ..self
        }).listening()
    }

    /// A timeslot's radio signal comes.
    pub open spec fn slot_signalled(self, sample: PrxSample) -> (PrxWorld, PrxEvent, Option<usize>) {
        if self.core.state == StatePrx::Idle {
            (self, PrxEvent::Nothing, None)
        } else {
            self.handled(sample, false)
        }
    }

    /// A timeslot ends.
    pub open spec fn slot_stopped(self, disabled: bool) -> PrxWorld {
        let w = self.stopped(disabled);
        PrxWorld { core: PrxCore { timeslot_managed: false, ..w.core }, ..w }
    }

    /// The machine is suspended.
    pub open spec fn suspended(self, disabled: bool) -> PrxWorld {
        let w = self.stopped(disabled);
        PrxWorld { log: hw::timer(w.log, TimerOp::Stop), ..w }
    }

    /// What every step keeps: the buffers that the machine names are the
    /// radio's and distinct, and each state holds the buffers that it needs.
    pub open spec fn inv(self) -> bool {
        &&& self.core.wf(self.pool.slots.len() as int)
        &&& self.core.rx_idx matches Some(i) ==> self.pool.slots[i as int] == SlotState::InDma
        &&& self.core.pending_rx_idx matches Some(i) ==> self.pool.slots[i as int]
            == SlotState::InDma
        &&& self.core.ack_tx_idx matches Some(i) ==> self.pool.slots[i as int] == SlotState::InDma
        &&& self.core.rx_idx is Some <==> self.core.state == StatePrx::Receiver
        &&& self.core.pending_rx_idx is Some <==> self.core.state == StatePrx::TxAck
        &&& self.core.ack_tx_idx is Some ==> self.core.state == StatePrx::TxAck
        &&& self.core.pending_rx_idx is Some ==> self.core.pending_rx_idx
            != self.core.ack_tx_idx
        &&& self.pool.queue_sound()
    }
}

impl PrxCore {
    /// Indices name buffers, and a listening machine has one to listen into.
    pub open spec fn wf(self, n: int) -> bool {
        &&& self.rx_idx matches Some(i) ==> i < n
        &&& self.pending_rx_idx matches Some(i) ==> i < n
        &&& self.ack_tx_idx matches Some(i) ==> i < n
        &&& self.state == StatePrx::Receiver ==> self.rx_idx is Some
    }
}

/// A PRX as it is created.
pub open spec fn new_prx(
    radio: EsbRadio,
    timer: EsbTimer,
    config: EsbConfig,
    enabled_pipes: u8,
) -> PrxCore {
    PrxCore {
        radio,
        timer,
        config,
        addresses: None,
        state: StatePrx::Idle,
        enabled_pipes,
        rx_idx: None,
        pending_rx_idx: None,
        ack_tx_idx: None,
        last_pipe: 0xFF,
        diag_ack_context: None,
        diag_ack_counter: [0u32; MAX_PIPES],
        timeslot_managed: false,
    }
}

/// What a PRX saves.
pub open spec fn saved_prx(core: PrxCore) -> EsbSavedState {
    EsbSavedState {
        pid: core.radio.last_pid,
        last_crc: core.radio.last_crc,
        last_valid: core.radio.last_valid,
        tx_pipe: 0,
        attempts: 0,
        protocol_state: SavedProtocolState::Idle,
    }
}

/// A PRX after a saved state was restored.
pub open spec fn restored_prx(
    core: PrxCore,
    saved: EsbSavedState,
    addresses: EsbAddresses,
) -> PrxCore {
    PrxCore {
        radio: EsbRadio {
            last_pid: saved.pid,
            last_crc: saved.last_crc,
            last_valid: saved.last_valid,
            ..core.radio
        },
        enabled_pipes: crate::addresses::low_mask(addresses.pipes()),
        state: StatePrx::Idle,
        ..core
    }
}

impl PrxStateMachine {
    /// Create a new PRX state machine.
    pub fn new(radio: EsbRadio, timer: EsbTimer, config: &EsbConfig, enabled_pipes: u8) -> (sm: Self)
        ensures
            sm.core == new_prx(radio, timer, *config, enabled_pipes),
            sm.diag_ack@ == Seq::new(256, |i: int| 0u8),
    {
        PrxStateMachine {
            core: PrxCore {
                radio,
                timer,
                config: *config,
                addresses: None,
                state: StatePrx::Idle,
                enabled_pipes,
                rx_idx: None,
                pending_rx_idx: None,
                ack_tx_idx: None,
                last_pipe: 0xFF,
                diag_ack_context: None,
                diag_ack_counter: [0u32; MAX_PIPES],
                timeslot_managed: false,
            },
            diag_ack: [0u8; 256],
        }
    }

    /// Get current PRX state.
    pub fn state(&self) -> (s: StatePrx)
        ensures
            s == self.core.state,
    {
        self.core.state
    }

    /// Enable or disable timeslot-managed operation.
    pub fn set_timeslot_managed(&mut self, enabled: bool)
        ensures
            final(self).core == (PrxCore { timeslot_managed: enabled, ..old(self).core }),
            final(self).diag_ack == old(self).diag_ack,
    {
        self.core.timeslot_managed = enabled;
    }

    /// Returns whether timeslot-managed operation is enabled.
    pub fn is_timeslot_managed(&self) -> (r: bool)
        ensures
            r == self.core.timeslot_managed,
    {
        self.core.timeslot_managed
    }

    /// Collect the events of an interrupt, and clear EVENTS_DISABLED.
    pub fn check_events(&self, disabled: bool, timer_flag: bool, ops: &mut Vec<HwOp>) -> (evts:
        IsrEvents)
        ensures
            evts == (IsrEvents { disabled, timer: timer_flag }),
            final(ops)@ == (if disabled {
                hw::radio(old(ops)@, RadioOp::ClearEvent(RadioEvent::Disabled))
            } else {
                old(ops)@
            }),
    {
        if disabled {
            self.core.radio.clear_disabled_event(ops);
        }
        IsrEvents { disabled, timer: timer_flag }
    }

    /// Start receiving on the enabled pipes. A machine that is not idle goes on
    /// as it is.
    pub fn start_receiving<const N: usize, const SIZE: usize>(
        &mut self,
        pool: &mut PacketPool<N, SIZE>,
        ops: &mut Vec<HwOp>,
    ) -> (r: Result<(), Error>)
        requires
            old(pool).wf(),
        ensures
            final(pool).wf(),
            old(self).core.wf(N as int) ==> final(self).core.wf(N as int),
            r == (if old(self).core.state == StatePrx::Idle && old(pool)@.free() is None {
                Err(Error::OutOfMemory)
            } else {
                Ok(())
            }),
            prx_world(*final(self), final(pool)@, final(ops)@) == prx_world(
                *old(self),
                old(pool)@,
                old(ops)@,
            ).listening(),
    {
        if self.core.state != StatePrx::Idle {
            return Ok(());
        }
        match pool.alloc_dma_buffer() {
            Some(idx) => {
                self.core.rx_idx = Some(idx);
                self.arm_rx(DmaBuffer::Pool(idx), ops);
                self.core.state = StatePrx::Receiver;
                Ok(())
            },
            None => Err(Error::OutOfMemory),
        }
    }

    /// Store addresses for re-initialization at the start of each timeslot.
    pub fn set_addresses(&mut self, addresses: &EsbAddresses)
        ensures
            final(self).core == (PrxCore { addresses: Some(*addresses), ..old(self).core }),
            final(self).diag_ack == old(self).diag_ack,
    {
        self.core.addresses = Some(*addresses);
    }

    /// Update the enabled-pipe mask.
    pub fn set_enabled_pipes(&mut self, mask: u8)
        ensures
            final(self).core == (PrxCore { enabled_pipes: mask, ..old(self).core }),
            final(self).diag_ack == old(self).diag_ack,
    {
        self.core.enabled_pipes = mask;
    }

    /// Duplicate-detection PIDs, to carry over to the next timeslot.
    pub fn saved_pid(&self) -> (r: [u8; MAX_PIPES])
        ensures
            r == self.core.radio.last_pid,
    {
        self.core.radio.save_pid_state()
    }

    /// Duplicate-detection CRCs, to carry over to the next timeslot.
    pub fn saved_crc(&self) -> (r: [u16; MAX_PIPES])
        ensures
            r == self.core.radio.last_crc,
    {
        self.core.radio.save_crc_state()
    }

    /// Duplicate-detection flags, to carry over to the next timeslot.
    pub fn saved_valid(&self) -> (r: [bool; MAX_PIPES])
        ensures
            r == self.core.radio.last_valid,
    {
        self.core.radio.save_detection_valid_state()
    }

    /// The last pipe processed (0xFF if none yet).
    pub fn last_pipe(&self) -> (r: u8)
        ensures
            r == self.core.last_pipe,
    {
        self.core.last_pipe
    }

    /// Advertise a schedule in diagnostic ACKs.
    pub fn set_timeslot_diag_ack_context(&mut self, context: TimeslotDiagAckContext)
        ensures
            final(self).core == (PrxCore { diag_ack_context: Some(context), ..old(self).core }),
            final(self).diag_ack == old(self).diag_ack,
    {
        self.core.diag_ack_context = Some(context);
    }

    /// Power-cycle and configure the radio, with duplicate-detection state.
    fn reinit(
        &mut self,
        addresses: &EsbAddresses,
        pid: [u8; MAX_PIPES],
        crc: [u16; MAX_PIPES],
        valid: [bool; MAX_PIPES],
        ops: &mut Vec<HwOp>,
    )
        ensures
            final(self).core == (PrxCore {
                radio: EsbRadio {
                    last_pid: pid,
                    last_crc: crc,
                    last_valid: valid,
                    ..old(self).core.radio
                },
                ..old(self).core
            }),
            final(self).diag_ack == old(self).diag_ack,
            final(ops)@ == radio::init_log(
                radio::power_cycle_log(old(ops)@),
                old(self).core.radio.fast_ramp_up,
                old(self).core.config,
                *addresses,
            ),
    {
        self.core.radio.power_cycle(ops);
        self.core.radio.init(&self.core.config, addresses, ops);
        self.core.radio.restore_pid_state(pid);
        self.core.radio.restore_crc_state(crc);
        self.core.radio.restore_detection_valid_state(valid);
    }

    /// Timeslot start: power up and configure the radio, restore the
    /// duplicate-detection state of the last slot, and arm the first RX.
    pub fn ts_start_rx<const N: usize, const SIZE: usize>(
        &mut self,
        pool: &mut PacketPool<N, SIZE>,
        saved_pid: [u8; MAX_PIPES],
        saved_crc: [u16; MAX_PIPES],
        saved_valid: [bool; MAX_PIPES],
        ops: &mut Vec<HwOp>,
    ) -> (r: Result<(), Error>)
        requires
            old(pool).wf(),
            old(self).core.addresses is Some,
        ensures
            final(pool).wf(),
            old(self).core.wf(N as int) ==> final(self).core.wf(N as int),
            r == (if old(pool)@.free() is None {
                Err(Error::OutOfMemory)
            } else {
                Ok(())
            }),
            prx_world(*final(self), final(pool)@, final(ops)@) == prx_world(
                *old(self),
                old(pool)@,
                old(ops)@,
            ).slot_started(saved_pid, saved_crc, saved_valid),
    {
        if let Some(addresses) = self.core.addresses {
            self.reinit(&addresses, saved_pid, saved_crc, saved_valid, ops);
        }
        self.core.timeslot_managed = true;
        self.core.state = StatePrx::Idle;
        self.start_receiving(pool, ops)
    }

    /// Timeslot radio signal: one event of the state machine.
    pub fn ts_on_radio<const N: usize, const SIZE: usize>(
        &mut self,
        pool: &mut PacketPool<N, SIZE>,
        sample: PrxSample,
        ops: &mut Vec<HwOp>,
    ) -> (r: (PrxEvent, Option<usize>))
        requires
            old(pool).wf(),
            SIZE >= 4,
            old(self).core.wf(N as int),
        ensures
            final(pool).wf(),
            final(self).core.wf(N as int),
            (prx_world(*final(self), final(pool)@, final(ops)@), r.0, r.1) == prx_world(
                *old(self),
                old(pool)@,
                old(ops)@,
            ).slot_signalled(sample),
    {
        if self.core.state == StatePrx::Idle {
            return (PrxEvent::Nothing, None);
        }
        self.handle_radio_event(pool, sample, false, ops)
    }

    /// Timeslot end: stop the radio, release what is in flight, and leave
    /// timeslot-managed operation.
    pub fn ts_force_stop<const N: usize, const SIZE: usize>(
        &mut self,
        pool: &mut PacketPool<N, SIZE>,
        disabled: bool,
        ops: &mut Vec<HwOp>,
    )
        requires
            old(pool).wf(),
            old(self).core.wf(N as int),
        ensures
            final(pool).wf(),
            final(self).core.wf(N as int),
            prx_world(*final(self), final(pool)@, final(ops)@) == prx_world(
                *old(self),
                old(pool)@,
                old(ops)@,
            ).slot_stopped(disabled),
    {
        self.stop_receiving(pool, disabled, ops);
        self.core.timeslot_managed = false;
    }

    /// Drop the packets that nobody receives, so that a headless session
    /// cannot exhaust its pool.
    pub fn ts_discard_received<const N: usize, const SIZE: usize>(
        &self,
        pool: &mut PacketPool<N, SIZE>,
    )
        requires
            old(pool).wf(),
        ensures
            final(pool).wf(),
            final(pool)@ == old(pool)@.discarded(),
    {
        pool.discard_received();
    }

    /// Handle a RADIO interrupt.
    ///
    /// Returns what happened, and the buffer of a newly received packet.
    pub fn handle_radio_event<const N: usize, const SIZE: usize>(
        &mut self,
        pool: &mut PacketPool<N, SIZE>,
        sample: PrxSample,
        timer_flag: bool,
        ops: &mut Vec<HwOp>,
    ) -> (r: (PrxEvent, Option<usize>))
        requires
            old(pool).wf(),
            SIZE >= 4,
            old(self).core.wf(N as int),
        ensures
            final(pool).wf(),
            final(self).core.wf(N as int),
            (prx_world(*final(self), final(pool)@, final(ops)@), r.0, r.1) == prx_world(
                *old(self),
                old(pool)@,
                old(ops)@,
            ).handled(sample, timer_flag),
    {
        let evts = self.check_events(sample.disabled, timer_flag, ops);
        if evts.user_event() && self.core.state != StatePrx::Idle {
            return (PrxEvent::Nothing, None);
        }
        match self.core.state {
            StatePrx::Receiver => self.on_packet(pool, sample.status, ops),
            StatePrx::TxAck => {
                if let Some(idx) = self.core.pending_rx_idx {
                    pool.rx_complete(idx);
                    self.core.pending_rx_idx = None;
                }
                self.finish_ack(pool, ops);
                (PrxEvent::Nothing, None)
            },
            StatePrx::TxRepeatedAck => {
                self.finish_ack(pool, ops);
                (PrxEvent::Nothing, None)
            },
            StatePrx::Idle => {
                let _ = self.start_receiving(pool, ops);
                (PrxEvent::Nothing, None)
            },
        }
    }

    /// Judge a packet that has come in, and answer it.
    fn on_packet<const N: usize, const SIZE: usize>(
        &mut self,
        pool: &mut PacketPool<N, SIZE>,
        status: RxStatus,
        ops: &mut Vec<HwOp>,
    ) -> (r: (PrxEvent, Option<usize>))
        requires
            old(pool).wf(),
            SIZE >= 4,
            old(self).core.wf(N as int),
            old(self).core.state == StatePrx::Receiver,
        ensures
            final(pool).wf(),
            final(self).core.wf(N as int),
            (prx_world(*final(self), final(pool)@, final(ops)@), r.0, r.1) == prx_world(
                *old(self),
                old(pool)@,
                old(ops)@,
            ).packet_received(status),
    {
        self.core.last_pipe = status.pipe;
        let rx_idx: usize = self.core.rx_idx.unwrap();
        let mut header = pool.header(rx_idx);
        let pid: u8 = header.pid();
        let no_ack = header.no_ack();
        match self.core.radio.check_packet(status, pid, ops) {
            // The radio is already listening again, into the same buffer.
            RxResult::BadCrc => (PrxEvent::BadCrc, None),
            RxResult::Duplicate => {
                if no_ack {
                    match pool.alloc_dma_buffer() {
                        Some(new_idx) => {
                            pool.release_tx(rx_idx);
                            self.core.rx_idx = Some(new_idx);
                            self.restart_rx_no_ack(DmaBuffer::Pool(new_idx), ops);
                        },
                        None => {
                            self.restart_rx_no_ack(DmaBuffer::Pool(rx_idx), ops);
                        },
                    }
                } else {
                    // The radio is pointed at the ACK; the buffer is no longer used.
                    pool.release_tx(rx_idx);
                    self.core.rx_idx = None;
                    self.start_repeated_ack(status.pipe, ops);
                    self.core.state = StatePrx::TxRepeatedAck;
                }
                (PrxEvent::Duplicate, None)
            },
            RxResult::NewPacket => {
                self.core.radio.update_detection(status.pipe as usize, pid, status.crc);
                header.rssi = status.rssi;
                header.pipe = status.pipe;
                pool.set_header(rx_idx, header);
                if no_ack {
                    self.deliver_no_ack(pool, rx_idx, ops);
                    return (PrxEvent::ReceivedNoAck, Some(rx_idx));
                }
                self.start_ack_tx(pool, status.pipe, ops);
                self.core.pending_rx_idx = Some(rx_idx);
                self.core.rx_idx = None;
                self.core.state = StatePrx::TxAck;
                (PrxEvent::Received, Some(rx_idx))
            },
        }
    }

    /// Deliver a packet that asks for no ACK, and listen again.
    fn deliver_no_ack<const N: usize, const SIZE: usize>(
        &mut self,
        pool: &mut PacketPool<N, SIZE>,
        rx_idx: usize,
        ops: &mut Vec<HwOp>,
    )
        requires
            old(pool).wf(),
            old(self).core.wf(N as int),
            rx_idx < N,
        ensures
            final(pool).wf(),
            final(self).core.wf(N as int),
            prx_world(*final(self), final(pool)@, final(ops)@) == prx_world(
                *old(self),
                old(pool)@,
                old(ops)@,
            ).delivered_no_ack(rx_idx),
    {
        pool.rx_complete(rx_idx);
        self.core.rx_idx = None;
        match pool.alloc_dma_buffer() {
            Some(new_idx) => {
                self.core.rx_idx = Some(new_idx);
                self.restart_rx_no_ack(DmaBuffer::Pool(new_idx), ops);
            },
            None => {
                self.core.radio.stop(ops);
                self.core.state = StatePrx::Idle;
            },
        }
    }

    /// After an ACK has gone out: release its payload, and listen again.
    fn finish_ack<const N: usize, const SIZE: usize>(
        &mut self,
        pool: &mut PacketPool<N, SIZE>,
        ops: &mut Vec<HwOp>,
    )
        requires
            old(pool).wf(),
            old(self).core.wf(N as int),
        ensures
            final(pool).wf(),
            final(self).core.wf(N as int),
            prx_world(*final(self), final(pool)@, final(ops)@) == prx_world(
                *old(self),
                old(pool)@,
                old(ops)@,
            ).ack_done(),
    {
        self.release_ack_tx(pool);
        match pool.alloc_dma_buffer() {
            Some(idx) => {
                self.core.rx_idx = Some(idx);
                self.restart_rx_after_ack(DmaBuffer::Pool(idx), ops);
                self.core.state = StatePrx::Receiver;
            },
            None => {
                self.core.radio.stop(ops);
                self.core.state = StatePrx::Idle;
            },
        }
    }

    /// Arm RX to start listening.
    fn arm_rx(&self, dma: DmaBuffer, ops: &mut Vec<HwOp>)
        ensures
            final(ops)@ == (if self.core.timeslot_managed {
                radio::start_receiving_manual_log(old(ops)@, self.core.enabled_pipes, dma)
            } else {
                radio::start_receiving_log(old(ops)@, self.core.enabled_pipes, dma)
            }),
    {
        if self.core.timeslot_managed {
            self.core.radio.start_receiving_manual_ack(self.core.enabled_pipes, dma, ops);
            return ;
        }
        self.core.radio.start_receiving(self.core.enabled_pipes, dma, ops);
    }

    /// Restart RX after a packet that asks for no ACK.
    fn restart_rx_no_ack(&self, dma: DmaBuffer, ops: &mut Vec<HwOp>)
        ensures
            final(ops)@ == (if self.core.timeslot_managed {
                radio::start_receiving_manual_log(
                    radio::stop_log(old(ops)@),
                    self.core.enabled_pipes,
                    dma,
                )
            } else {
                radio::complete_rx_no_ack_log(radio::stop_log(old(ops)@), dma)
            }),
    {
        if self.core.timeslot_managed {
            self.core.radio.stop(ops);
            self.core.radio.start_receiving_manual_ack(self.core.enabled_pipes, dma, ops);
            return ;
        }
        self.core.radio.stop_prx_no_ack(ops);
        self.core.radio.complete_rx_no_ack(dma, ops);
    }

    /// Restart RX after an ACK has gone out.
    fn restart_rx_after_ack(&self, dma: DmaBuffer, ops: &mut Vec<HwOp>)
        ensures
            final(ops)@ == (if self.core.timeslot_managed {
                radio::start_receiving_manual_log(old(ops)@, self.core.enabled_pipes, dma)
            } else {
                radio::complete_rx_ack_log(old(ops)@, dma)
            }),
    {
        if self.core.timeslot_managed {
            self.core.radio.start_receiving_manual_ack(self.core.enabled_pipes, dma, ops);
            return ;
        }
        self.core.radio.complete_rx_ack(dma, ops);
    }

    /// Start the ACK for a new packet.
    fn start_ack_tx<const N: usize, const SIZE: usize>(
        &mut self,
        pool: &mut PacketPool<N, SIZE>,
        pipe: u8,
        ops: &mut Vec<HwOp>,
    )
        requires
            old(pool).wf(),
            SIZE >= 4,
            old(self).core.wf(N as int),
        ensures
            final(pool).wf(),
            final(self).core.wf(N as int),
            prx_world(*final(self), final(pool)@, final(ops)@) == prx_world(
                *old(self),
                old(pool)@,
                old(ops)@,
            ).acked(pipe),
    {
        if self.core.timeslot_managed {
            self.setup_ack_tx_manual(pool, pipe, ops);
            return ;
        }
        self.setup_ack_tx(pool, pipe, ops);
    }

    /// Start the ACK for a duplicate packet.
    fn start_repeated_ack(&mut self, pipe: u8, ops: &mut Vec<HwOp>)
        ensures
            ({
                let w = prx_world(*old(self), no_pool(), old(ops)@).repeated_ack(pipe);
                final(self).core == w.core && final(self).diag_ack@ == w.diag && final(ops)@
                    == w.log
            }),
    {
        if self.core.timeslot_managed {
            self.transmit_timeslot_fallback_ack(pipe, false, ops);
            return ;
        }
        self.core.radio.setup_ack_tx_fallback(pipe, ops);
    }

    /// Start the ACK for a new packet under software control.
    fn setup_ack_tx_manual<const N: usize, const SIZE: usize>(
        &mut self,
        pool: &mut PacketPool<N, SIZE>,
        pipe: u8,
        ops: &mut Vec<HwOp>,
    )
        requires
            old(pool).wf(),
            SIZE >= 4,
            old(self).core.wf(N as int),
            old(self).core.timeslot_managed,
        ensures
            final(pool).wf(),
            final(self).core.wf(N as int),
            prx_world(*final(self), final(pool)@, final(ops)@) == prx_world(
                *old(self),
                old(pool)@,
                old(ops)@,
            ).acked(pipe),
    {
        match pool.try_dequeue_tx_for_pipe(pipe) {
            Some(idx) => {
                self.core.ack_tx_idx = Some(idx);
                self.core.radio.transmit_ack_manual(pipe, DmaBuffer::Pool(idx), ops);
            },
            None => {
                self.core.ack_tx_idx = None;
                self.transmit_timeslot_fallback_ack(pipe, true, ops);
            },
        }
    }

    /// Start an ACK without a queued payload under software control.
    fn transmit_timeslot_fallback_ack(
        &mut self,
        pipe: u8,
        advance_counter: bool,
        ops: &mut Vec<HwOp>,
    )
        ensures
            ({
                let w = prx_world(*old(self), no_pool(), old(ops)@).fallback_acked_manual(
                    pipe,
                    advance_counter,
                );
                final(self).core == w.core && final(self).diag_ack@ == w.diag && final(ops)@
                    == w.log
            }),
    {
        match self.core.diag_ack_context {
            None => {
                self.core.radio.transmit_ack_manual_fallback(pipe, ops);
            },
            Some(context) => {
                let p: usize = pipe as usize;
                let counter: u32 = if p < MAX_PIPES {
                    if advance_counter {
                        let n: u32 = self.core.diag_ack_counter[p];
                        self.core.diag_ack_counter[p] = n.saturating_add(1);
                    }
                    self.core.diag_ack_counter[p]
                } else {
                    0
                };
                write_timeslot_diag_ack(&mut self.diag_ack, context, counter);
                self.core.radio.transmit_ack_manual(pipe, DmaBuffer::DiagAck, ops);
            },
        }
    }

    /// Start the ACK for a new packet while the radio turns to TX by itself.
    fn setup_ack_tx<const N: usize, const SIZE: usize>(
        &mut self,
        pool: &mut PacketPool<N, SIZE>,
        pipe: u8,
        ops: &mut Vec<HwOp>,
    )
        requires
            old(pool).wf(),
            SIZE >= 4,
            old(self).core.wf(N as int),
            !old(self).core.timeslot_managed,
        ensures
            final(pool).wf(),
            final(self).core.wf(N as int),
            prx_world(*final(self), final(pool)@, final(ops)@) == prx_world(
                *old(self),
                old(pool)@,
                old(ops)@,
            ).acked(pipe),
    {
        match pool.try_dequeue_tx_for_pipe(pipe) {
            Some(idx) => {
                self.core.ack_tx_idx = Some(idx);
                self.core.radio.setup_ack_tx(pipe, DmaBuffer::Pool(idx), ops);
            },
            None => {
                self.core.ack_tx_idx = None;
                self.core.radio.setup_ack_tx_fallback(pipe, ops);
            },
        }
    }

    /// Release the current ACK payload back to the pool.
    fn release_ack_tx<const N: usize, const SIZE: usize>(&mut self, pool: &mut PacketPool<N, SIZE>)
        requires
            old(pool).wf(),
            old(self).core.wf(N as int),
        ensures
            final(pool).wf(),
            final(self).core == (PrxCore { ack_tx_idx: None, ..old(self).core }),
            final(self).diag_ack == old(self).diag_ack,
            final(pool)@ == (match old(self).core.ack_tx_idx {
                Some(i) => old(pool)@.with_slot(i as int, SlotState::Free),
                None => old(pool)@,
            }),
    {
        if let Some(idx) = self.core.ack_tx_idx {
            pool.release_tx(idx);
            self.core.ack_tx_idx = None;
        }
    }

    /// Handle a TIMER interrupt: disarm what fired. A PRX uses no timer, so a
    /// stale event does not pend the RADIO interrupt.
    pub fn handle_timer_event(
        &self,
        retransmit_fired: bool,
        ack_timeout_fired: bool,
        ops: &mut Vec<HwOp>,
    )
        ensures
            final(ops)@ == crate::state_machine::timer_event_log(
                old(ops)@,
                retransmit_fired,
                ack_timeout_fired,
            ),
    {
        if retransmit_fired {
            self.core.timer.disarm_retransmit(ops);
        }
        if ack_timeout_fired {
            self.core.timer.disarm_ack_timeout(ops);
        }
    }

    /// Stop receiving and go idle. `disabled` is EVENTS_DISABLED after the stop.
    pub fn stop_receiving<const N: usize, const SIZE: usize>(
        &mut self,
        pool: &mut PacketPool<N, SIZE>,
        disabled: bool,
        ops: &mut Vec<HwOp>,
    )
        requires
            old(pool).wf(),
            old(self).core.wf(N as int),
        ensures
            final(pool).wf(),
            final(self).core.wf(N as int),
            prx_world(*final(self), final(pool)@, final(ops)@) == prx_world(
                *old(self),
                old(pool)@,
                old(ops)@,
            ).stopped(disabled),
    {
        self.core.radio.stop(ops);
        self.core.timer.disarm_retransmit(ops);
        self.core.timer.disarm_ack_timeout(ops);
        let _ = self.check_events(disabled, false, ops);
        if let Some(idx) = self.core.rx_idx {
            pool.release_tx(idx);
            self.core.rx_idx = None;
        }
        if let Some(idx) = self.core.pending_rx_idx {
            pool.release_tx(idx);
            self.core.pending_rx_idx = None;
        }
        if let Some(idx) = self.core.ack_tx_idx {
            pool.release_tx(idx);
            self.core.ack_tx_idx = None;
        }
        self.core.state = StatePrx::Idle;
    }

    /// Save the protocol state and stop the hardware.
    pub fn do_suspend<const N: usize, const SIZE: usize>(
        &mut self,
        pool: &mut PacketPool<N, SIZE>,
        disabled: bool,
        ops: &mut Vec<HwOp>,
    ) -> (saved: EsbSavedState)
        requires
            old(pool).wf(),
            old(self).core.wf(N as int),
        ensures
            final(pool).wf(),
            final(self).core.wf(N as int),
            saved == saved_prx(old(self).core),
            prx_world(*final(self), final(pool)@, final(ops)@) == prx_world(
                *old(self),
                old(pool)@,
                old(ops)@,
            ).suspended(disabled),
    {
        self.stop_receiving(pool, disabled, ops);
        self.core.timer.stop(ops);
        EsbSavedState {
            pid: self.core.radio.save_pid_state(),
            last_crc: self.core.radio.save_crc_state(),
            last_valid: self.core.radio.save_detection_valid_state(),
            tx_pipe: 0,
            attempts: 0,
            protocol_state: SavedProtocolState::Idle,
        }
    }

    /// Re-initialize and restore from saved state.
    pub fn do_restore(
        &mut self,
        state: &EsbSavedState,
        addresses: &EsbAddresses,
        ops: &mut Vec<HwOp>,
    )
        ensures
            final(self).core == restored_prx(old(self).core, *state, *addresses),
            final(self).diag_ack == old(self).diag_ack,
            final(ops)@ == radio::init_log(
                radio::power_cycle_log(old(ops)@),
                old(self).core.radio.fast_ramp_up,
                old(self).core.config,
                *addresses,
            ),
    {
        self.reinit(addresses, state.pid, state.last_crc, state.last_valid, ops);
        self.core.enabled_pipes = addresses.enabled_mask();
        self.core.state = StatePrx::Idle;
    }
}

/// A pool without buffers.
pub open spec fn no_pool() -> PoolView {
    PoolView { slots: Seq::empty(), bufs: Seq::empty(), rx: Seq::empty() }
}

} // verus!
