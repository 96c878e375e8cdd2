//! PTX (Primary Transmitter) state machine.
//!
//! All steps are driven from one context, the RADIO interrupt; the TIMER
//! interrupt only sets a flag and pends it.

use crate::addresses::{EsbAddresses, MAX_PIPES};
use crate::config::{EsbConfig, RAMP_UP_US};
use crate::error::Error;
use crate::header;
use crate::header::EsbHeader;
use crate::hw;
use crate::hw::{DmaBuffer, HwOp, RadioEvent, RadioOp, TimerOp};
use crate::payload::{PacketPool, PoolView, SlotState};
use crate::radio;
use crate::radio::EsbRadio;
use crate::state_machine::{IsrEvents, PtxEvent, StatePtx};
use crate::suspend::{EsbSavedState, SavedProtocolState};
use crate::timer;
use crate::timer::EsbTimer;
use vstd::prelude::*;

verus! {

/// What the radio shows when its interrupt is handled.
#[derive(Debug, Clone, Copy, PartialEq, Eq, Structural)]
pub struct PtxSample {
    /// EVENTS_DISABLED is set.
    pub disabled: bool,
    /// CRCSTATUS: the last received packet's CRC matched.
    pub crc_ok: bool,
}

/// PTX (Primary Transmitter) state machine.
pub struct PtxStateMachine {
    /// Radio layer.
    pub radio: EsbRadio,
    /// Timer layer.
    pub timer: EsbTimer,
    /// Configuration, kept for re-initialization.
    pub config: EsbConfig,
    /// Addresses, kept so that each timeslot can re-initialize the radio.
    pub addresses: Option<EsbAddresses>,
    /// Protocol state.
    pub state: StatePtx,
    /// Retransmit attempt counter for the current packet.
    pub attempts: u8,
    /// Default TX pipe.
    pub tx_pipe: u8,
    /// Pipe used by the packet currently in flight.
    pub active_tx_pipe: u8,
    /// Retransmit delay in us (from config, minus ramp-up).
    pub retransmit_delay_us: u16,
    /// ACK timeout in us (from config, plus ramp-up).
    pub ack_timeout_us: u16,
    /// Maximum retransmit attempts.
    pub max_attempts: u8,
    /// 2-bit packet identifier (advanced per new packet).
    pub pid: u8,
    /// Current TX packet (owned by the radio while transmitting).
    pub tx_idx: Option<usize>,
    /// Current ACK RX buffer (owned by the radio while waiting for the ACK).
    pub ack_rx_idx: Option<usize>,
    /// Last pipe a TX was sent on (0xFF = none yet).
    pub last_pipe: u8,
    /// Driven from a timeslot callback rather than from the RADIO interrupt.
    pub timeslot_managed: bool,
}

/// A PTX state machine with the pool that it works on and the operations that
/// it has asked for.
#[verifier::ext_equal]
pub struct PtxWorld {
    /// The state machine.
    pub sm: PtxStateMachine,
    /// The packet pool.
    pub pool: PoolView,
    /// The operations so far.
    pub log: Seq<HwOp>,
}

impl PtxWorld {
    /// EVENTS_DISABLED is cleared where it was set.
    pub open spec fn checked(self, disabled: bool) -> PtxWorld {
        if disabled {
            PtxWorld {
                log: hw::radio(self.log, RadioOp::ClearEvent(RadioEvent::Disabled)),
                ..self
            }
        } else {
            self
        }
    }

    /// The TX buffer goes back to the pool.
    pub open spec fn released_tx(self) -> PtxWorld {
        match self.sm.tx_idx {
            Some(i) => PtxWorld {
                sm: PtxStateMachine { tx_idx: None, ..self.sm },
                pool: self.pool.with_slot(i as int, SlotState::Free),
                ..self
            },
            None => self,
        }
    }

    /// The ACK buffer goes back to the pool.
    pub open spec fn released_ack_rx(self) -> PtxWorld {
        match self.sm.ack_rx_idx {
            Some(i) => PtxWorld {
                sm: PtxStateMachine { ack_rx_idx: None, ..self.sm },
                pool: self.pool.with_slot(i as int, SlotState::Free),
                ..self
            },
            None => self,
        }
    }

    /// An ACK with a payload goes to the application, an empty one back to the pool.
    pub open spec fn delivered_ack(self) -> PtxWorld {
        match self.sm.ack_rx_idx {
            Some(i) => if self.pool.header(i as int).length > 0 {
                PtxWorld {
                    sm: PtxStateMachine { ack_rx_idx: None, ..self.sm },
                    pool: self.pool.completed(i as int),
                    ..self
                }
            } else {
                self.released_ack_rx()
            },
            None => self,
        }
    }

    /// Nothing is sent, and the radio raises no interrupt.
    pub open spec fn idled(self) -> PtxWorld {
        PtxWorld {
            sm: PtxStateMachine { state: StatePtx::Idle, ..self.sm },
            log: hw::radio(self.log, RadioOp::DisableDisabledInterrupt),
            ..self
        }
    }

    /// The packet in flight is transmitted again.
    pub open spec fn resent(self, i: usize) -> PtxWorld {
        PtxWorld {
            sm: PtxStateMachine { state: StatePtx::Tx, ..self.sm },
            log: radio::transmit_log(self.log, self.sm.active_tx_pipe, DmaBuffer::Pool(i), true),
            ..self
        }
    }

    /// The queued packet `i` is given the current PID and transmitted on the
    /// pipe that its header names.
    pub open spec fn sent(self, i: usize) -> PtxWorld {
        let h = self.pool.header(i as int);
        let no_ack = header::s1_no_ack(h.pid_no_ack);
        PtxWorld {
            sm: PtxStateMachine {
                active_tx_pipe: h.pipe,
                tx_idx: Some(i),
                state: if no_ack {
                    StatePtx::TxNoAck
                } else {
                    StatePtx::Tx
                },
                ..self.sm
            },
            pool: self.pool.with_slot(i as int, SlotState::InDma).with_header(
                i as int,
                EsbHeader { pid_no_ack: header::s1_with_pid(h.pid_no_ack, self.sm.pid), ..h },
            ),
            log: radio::transmit_log(self.log, h.pipe, DmaBuffer::Pool(i), !no_ack),
        }
    }

    /// The packet that still waits, else the next queued one, is transmitted.
    pub open spec fn sent_next(self) -> PtxWorld {
        match self.sm.tx_idx {
            Some(i) => self.resent(i),
            None => match self.pool.queued() {
                Some(i) => self.sent(i),
                None => self.idled(),
            },
        }
    }

    /// The packet in flight is transmitted again, if there is one.
    pub open spec fn retransmitted(self) -> PtxWorld {
        match self.sm.tx_idx {
            Some(i) => self.resent(i),
            None => self.idled(),
        }
    }

    /// The current packet is done with: its buffer is freed, the PID moves on,
    /// and the next packet goes out unless that is suppressed.
    pub open spec fn next_packet(self, suppress: bool) -> PtxWorld {
        let w = self.released_tx();
        let w = PtxWorld {
            sm: PtxStateMachine { pid: ((w.sm.pid + 1) % 4) as u8, ..w.sm },
            ..w
        };
        if suppress {
            w.idled()
        } else {
            w.sent_next()
        }
    }

    /// An ACK-requesting packet has gone out: turn to the ACK, or stop where no
    /// buffer is free for it.
    pub open spec fn turned_to_ack(self) -> PtxWorld {
        match self.pool.free() {
            Some(i) => PtxWorld {
                sm: PtxStateMachine { ack_rx_idx: Some(i), state: StatePtx::WaitAck, ..self.sm },
                pool: self.pool.with_slot(i as int, SlotState::InDma),
                log: timer::arm_ack_timeout_log(
                    timer::arm_retransmit_log(
                        radio::prepare_for_ack_log(self.log, DmaBuffer::Pool(i)),
                        self.sm.retransmit_delay_us,
                    ),
                    self.sm.ack_timeout_us,
                ),
            },
            None => PtxWorld {
                sm: PtxStateMachine { state: StatePtx::Idle, ..self.sm },
                log: radio::stop_log(self.log),
                ..self
            },
        }
    }

    /// The packet was acknowledged.
    pub open spec fn acked(self, suppress: bool) -> PtxWorld {
        let w = PtxWorld {
            log: radio::stop_log(
                timer::disarm_retransmit_log(timer::disarm_ack_timeout_log(self.log)),
            ),
            ..self
        };
        let w = w.delivered_ack();
        (PtxWorld { sm: PtxStateMachine { attempts: 0, ..w.sm }, ..w }).next_packet(suppress)
    }

    /// The packet was not acknowledged: wait for the retransmit timer, or give
    /// the packet up after the last attempt.
    pub open spec fn missed_ack(self, suppress: bool) -> (PtxWorld, PtxEvent) {
        let w = (PtxWorld {
            log: radio::stop_log(timer::disarm_ack_timeout_log(self.log)),
            ..self
        }).released_ack_rx();
        if w.sm.attempts + 1 >= w.sm.max_attempts {
            (
                (PtxWorld { sm: PtxStateMachine { attempts: 0, ..w.sm }, ..w }).next_packet(
                    suppress,
                ),
                PtxEvent::MaxAttempts,
            )
        } else {
            (
                PtxWorld {
                    sm: PtxStateMachine {
                        attempts: (w.sm.attempts + 1) as u8,
                        state: StatePtx::WaitRetransmit,
                        ..w.sm
                    },
                    ..w
                },
                PtxEvent::Nothing,
            )
        }
    }

    /// One RADIO interrupt.
    pub open spec fn handled(self, sample: PtxSample, timer: bool, suppress: bool) -> (
        PtxWorld,
        PtxEvent,
    ) {
        let w = self.checked(sample.disabled);
        match w.sm.state {
            StatePtx::Idle => (
                if suppress {
                    w
                } else {
                    w.sent_next()
                },
                PtxEvent::Nothing,
            ),
            _ => if !sample.disabled && !timer {
                (w, PtxEvent::Nothing)
            } else {
                match w.sm.state {
                    StatePtx::TxNoAck => (
                        (PtxWorld { log: radio::finish_tx_no_ack_log(w.log), ..w }).next_packet(
                            suppress,
                        ),
                        PtxEvent::Nothing,
                    ),
                    StatePtx::Tx => (w.turned_to_ack(), PtxEvent::Nothing),
                    StatePtx::WaitAck => if sample.disabled && sample.crc_ok {
                        (w.acked(suppress), PtxEvent::Nothing)
                    } else {
                        w.missed_ack(suppress)
                    },
                    _ => (w.retransmitted(), PtxEvent::Nothing),
                }
            },
        }
    }

    /// The pipe of a packet that just went out is remembered.
    pub open spec fn noted_pipe(self) -> PtxWorld {
        if self.sm.state == StatePtx::Tx || self.sm.state == StatePtx::TxNoAck {
            PtxWorld {
                sm: PtxStateMachine { last_pipe: self.sm.active_tx_pipe, ..self.sm },
                ..self
            }
        } else {
            self
        }
    }

    /// The radio is powered up anew with the given duplicate-detection state.
    pub open spec fn reinitialized(
        self,
        addresses: EsbAddresses,
        pid: [u8; MAX_PIPES],
        crc: [u16; MAX_PIPES],
        valid: [bool; MAX_PIPES],
    ) -> PtxWorld {
        PtxWorld {
            sm: PtxStateMachine {
                radio: EsbRadio {
                    last_pid: pid,
                    last_crc: crc,
                    last_valid: valid,
                    ..self.sm.radio
                },
                ..self.sm
            },
            log: radio::init_log(
                radio::power_cycle_log(self.log),
                self.sm.radio.fast_ramp_up,
                self.sm.config,
                addresses,
            ),
            ..self
        }
    }

    /// Everything in flight is given up and the machine is idle, with the
    /// hardware stopped.
    pub open spec fn suspended(self) -> PtxWorld {
        let w = if self.sm.state == StatePtx::Idle {
            self
        } else {
            self.released_tx().released_ack_rx()
        };
        PtxWorld {
            sm: PtxStateMachine {
                state: StatePtx::Idle,
                attempts: 0,
                tx_idx: None,
                ack_rx_idx: None,
                ..w.sm
            },
            log: timer::disarm_ack_timeout_log(
                timer::disarm_retransmit_log(
                    hw::timer(radio::stop_log(w.log), TimerOp::Stop),
                ),
            ),
            ..w
        }
    }

    /// What every step keeps: the buffers that the machine names are the
    /// radio's, they are two, a packet is in flight in every state but idle,
    /// an ACK buffer is held exactly while an ACK is awaited, and the attempts
    /// stay below the limit.
    pub open spec fn inv(self) -> bool {
        &&& self.sm.wf(self.pool.slots.len() as int)
        &&& self.sm.tx_idx matches Some(i) ==> self.pool.slots[i as int] == SlotState::InDma
        &&& self.sm.ack_rx_idx matches Some(i) ==> self.pool.slots[i as int] == SlotState::InDma
        &&& self.sm.tx_idx is Some ==> self.sm.tx_idx != self.sm.ack_rx_idx
        &&& self.sm.state != StatePtx::Idle ==> self.sm.tx_idx is Some
        &&& self.sm.state == StatePtx::WaitAck <==> self.sm.ack_rx_idx is Some
        &&& self.pool.queue_sound()
    }
}

/// The world of a machine, a pool and a log.
pub open spec fn ptx_world(sm: PtxStateMachine, pool: PoolView, log: Seq<HwOp>) -> PtxWorld {
    PtxWorld { sm, pool, log }
}

impl PtxStateMachine {
    /// Indices name buffers, the PID has two bits, and the attempts are below
    /// the limit.
    pub open spec fn wf(self, n: int) -> bool {
        &&& self.tx_idx matches Some(i) ==> i < n
        &&& self.ack_rx_idx matches Some(i) ==> i < n
        &&& self.pid < 4
        &&& self.attempts == 0 || self.attempts < self.max_attempts
    }

    /// Create a new PTX state machine.
    pub fn new(radio: EsbRadio, timer: EsbTimer, config: &EsbConfig, tx_pipe: u8) -> (sm: Self)
        ensures
            sm == new_ptx(radio, timer, *config, tx_pipe),
    {
        PtxStateMachine {
            radio,
            timer,
            config: *config,
            addresses: None,
            state: StatePtx::Idle,
            attempts: 0,
            tx_pipe,
            active_tx_pipe: tx_pipe,
            // The radio re-enables from DISABLED.
            retransmit_delay_us: config.retransmit.delay_us.saturating_sub(RAMP_UP_US),
            // The radio ramps up to RX.
            ack_timeout_us: config.ack_timeout_us.saturating_add(RAMP_UP_US),
            max_attempts: config.retransmit.count,
            pid: 0,
            tx_idx: None,
            ack_rx_idx: None,
            last_pipe: 0xFF,
            timeslot_managed: false,
        }
    }

    /// Get current PTX state.
    pub fn state(&self) -> (s: StatePtx)
        ensures
            s == self.state,
    {
        self.state
    }

    /// Enable or disable timeslot-managed operation.
    pub fn set_timeslot_managed(&mut self, enabled: bool)
        ensures
            *final(self) == (PtxStateMachine { timeslot_managed: enabled, ..*old(self) }),
    {
        self.timeslot_managed = enabled;
    }

    /// Returns whether timeslot-managed operation is enabled.
    pub fn is_timeslot_managed(&self) -> (r: bool)
        ensures
            r == self.timeslot_managed,
    {
        self.timeslot_managed
    }

    /// Store addresses for re-initialization at the start of each timeslot.
    pub fn set_addresses(&mut self, addresses: &EsbAddresses)
        ensures
            *final(self) == (PtxStateMachine { addresses: Some(*addresses), ..*old(self) }),
    {
        self.addresses = Some(*addresses);
    }

    /// Update the default TX pipe.
    pub fn set_tx_pipe(&mut self, pipe: u8)
        ensures
            *final(self) == (PtxStateMachine { tx_pipe: pipe, ..*old(self) }),
    {
        self.tx_pipe = pipe;
    }

    /// Duplicate-detection PIDs, to carry over to the next timeslot.
    pub fn saved_pid(&self) -> (r: [u8; MAX_PIPES])
        ensures
            r == self.radio.last_pid,
    {
        self.radio.save_pid_state()
    }

    /// Duplicate-detection CRCs, to carry over to the next timeslot.
    pub fn saved_crc(&self) -> (r: [u16; MAX_PIPES])
        ensures
            r == self.radio.last_crc,
    {
        self.radio.save_crc_state()
    }

    /// Duplicate-detection flags, to carry over to the next timeslot.
    pub fn saved_valid(&self) -> (r: [bool; MAX_PIPES])
        ensures
            r == self.radio.last_valid,
    {
        self.radio.save_detection_valid_state()
    }

    /// The last pipe a TX was sent on (0xFF if none yet).
    pub fn last_pipe(&self) -> (r: u8)
        ensures
            r == self.last_pipe,
    {
        self.last_pipe
    }

    /// The current PID (2-bit packet identifier).
    pub fn pid(&self) -> (r: u8)
        ensures
            r == self.pid,
    {
        self.pid
    }

    /// The current retransmit attempt count for this packet.
    pub fn attempts(&self) -> (r: u8)
        ensures
            r == self.attempts,
    {
        self.attempts
    }

    /// Power-cycle and configure the radio, with duplicate-detection state.
    fn reinit(
        &mut self,
        addresses: &EsbAddresses,
        pid: [u8; MAX_PIPES],
        crc: [u16; MAX_PIPES],
        valid: [bool; MAX_PIPES],
        ops: &mut Vec<HwOp>,
    )
        ensures
            *final(self) == (PtxStateMachine {
                radio: EsbRadio {
                    last_pid: pid,
                    last_crc: crc,
                    last_valid: valid,
                    ..old(self).radio
                },
                ..*old(self)
            }),
            final(ops)@ == radio::init_log(
                radio::power_cycle_log(old(ops)@),
                old(self).radio.fast_ramp_up,
                old(self).config,
                *addresses,
            ),
    {
        self.radio.power_cycle(ops);
        self.radio.init(&self.config, addresses, ops);
        self.radio.restore_pid_state(pid);
        self.radio.restore_crc_state(crc);
        self.radio.restore_detection_valid_state(valid);
    }

    /// Remember the pipe of a packet that just went out.
    fn note_pipe(&mut self)
        ensures
            *final(self) == (if old(self).state == StatePtx::Tx || old(self).state
                == StatePtx::TxNoAck {
                PtxStateMachine { last_pipe: old(self).active_tx_pipe, ..*old(self) }
            } else {
                *old(self)
            }),
    {
        if self.state == StatePtx::Tx || self.state == StatePtx::TxNoAck {
            self.last_pipe = self.active_tx_pipe;
        }
    }

    /// Timeslot start: power up and configure the radio, restore the
    /// duplicate-detection state of the last slot, and arm the first TX.
    pub fn ts_start_tx<const N: usize, const SIZE: usize>(
        &mut self,
        pool: &mut PacketPool<N, SIZE>,
        saved_pid: [u8; MAX_PIPES],
        saved_crc: [u16; MAX_PIPES],
        saved_valid: [bool; MAX_PIPES],
        ops: &mut Vec<HwOp>,
    ) -> (r: Result<(), Error>)
        requires
            old(pool).wf(),
            SIZE >= 4,
            old(self).wf(N as int),
            old(self).addresses is Some,
        ensures
            final(pool).wf(),
            final(self).wf(N as int),
            r is Ok,
            ptx_world(*final(self), final(pool)@, final(ops)@) == ptx_world(
                *old(self),
                old(pool)@,
                old(ops)@,
            ).slot_started(saved_pid, saved_crc, saved_valid),
    {
        if let Some(addresses) = self.addresses {
            self.reinit(&addresses, saved_pid, saved_crc, saved_valid, ops);
        }
        self.timeslot_managed = true;
        self.state = StatePtx::Idle;
        self.attempts = 0;
        self.tx_idx = None;
        self.ack_rx_idx = None;
        self.send_next(pool, ops);
        self.note_pipe();
        Ok(())
    }

    /// Timeslot radio signal: one event of the state machine. `timer_flag` is
    /// set when the slot's ACK timeout fired before this event.
    pub fn ts_on_radio<const N: usize, const SIZE: usize>(
        &mut self,
        pool: &mut PacketPool<N, SIZE>,
        sample: PtxSample,
        timer_flag: bool,
        ops: &mut Vec<HwOp>,
    ) -> (event: PtxEvent)
        requires
            old(pool).wf(),
            SIZE >= 4,
            old(self).wf(N as int),
        ensures
            final(pool).wf(),
            final(self).wf(N as int),
            (ptx_world(*final(self), final(pool)@, final(ops)@), event) == ptx_world(
                *old(self),
                old(pool)@,
                old(ops)@,
            ).slot_signalled(sample, timer_flag),
    {
        if self.state == StatePtx::Idle && !timer_flag {
            return PtxEvent::Nothing;
        }
        let event = self.handle_radio_event(pool, sample, timer_flag, false, ops);
        self.note_pipe();
        event
    }

    /// Timeslot end: stop the radio, release what is in flight, and leave
    /// timeslot-managed operation.
    pub fn ts_force_stop<const N: usize, const SIZE: usize>(
        &mut self,
        pool: &mut PacketPool<N, SIZE>,
        ops: &mut Vec<HwOp>,
    )
        requires
            old(pool).wf(),
            old(self).wf(N as int),
        ensures
            final(pool).wf(),
            final(self).wf(N as int),
            ptx_world(*final(self), final(pool)@, final(ops)@) == ptx_world(
                *old(self),
                old(pool)@,
                old(ops)@,
            ).slot_stopped(),
    {
        self.radio.stop(ops);
        self.release_tx(pool);
        self.release_ack_rx(pool);
        self.state = StatePtx::Idle;
        self.attempts = 0;
        self.timeslot_managed = false;
    }

    /// Collect the events of an interrupt, and clear EVENTS_DISABLED.
    pub fn check_events(&self, disabled: bool, timer_flag: bool, ops: &mut Vec<HwOp>) -> (evts:
        IsrEvents)
        ensures
            evts == (IsrEvents { disabled, timer: timer_flag }),
            final(ops)@ == (if disabled {
                hw::radio(old(ops)@, RadioOp::ClearEvent(RadioEvent::Disabled))
            } else {
                old(ops)@
            }),
    {
        if disabled {
            self.radio.clear_disabled_event(ops);
        }
        IsrEvents { disabled, timer: timer_flag }
    }

    /// Handle a RADIO interrupt.
    ///
    /// `timer_flag` is set when the TIMER interrupt pended this one. With
    /// `suppress_next_tx` no new packet is started.
    pub fn handle_radio_event<const N: usize, const SIZE: usize>(
        &mut self,
        pool: &mut PacketPool<N, SIZE>,
        sample: PtxSample,
        timer_flag: bool,
        suppress_next_tx: bool,
        ops: &mut Vec<HwOp>,
    ) -> (event: PtxEvent)
        requires
            old(pool).wf(),
            SIZE >= 4,
            old(self).wf(N as int),
        ensures
            final(pool).wf(),
            final(self).wf(N as int),
            (ptx_world(*final(self), final(pool)@, final(ops)@), event) == ptx_world(
                *old(self),
                old(pool)@,
                old(ops)@,
            ).handled(sample, timer_flag, suppress_next_tx),
    {
        let evts = self.check_events(sample.disabled, timer_flag, ops);
        if evts.user_event() && self.state != StatePtx::Idle {
            return PtxEvent::Nothing;
        }
        match self.state {
            StatePtx::Idle => {
                if !suppress_next_tx {
                    self.send_next(pool, ops);
                }
                PtxEvent::Nothing
            },
            StatePtx::TxNoAck => {
                self.radio.finish_tx_no_ack(ops);
                self.finish_packet(pool, suppress_next_tx, ops);
                PtxEvent::Nothing
            },
            StatePtx::Tx => {
                match pool.alloc_dma_buffer() {
                    Some(idx) => {
                        self.radio.prepare_for_ack(DmaBuffer::Pool(idx), ops);
                        self.ack_rx_idx = Some(idx);
                        self.state = StatePtx::WaitAck;
                    },
                    None => {
                        self.radio.stop(ops);
                        // The packet stays; send_next() will resend it.
                        self.state = StatePtx::Idle;
                        return PtxEvent::Nothing;
                    },
                }
                self.timer.arm_retransmit(self.retransmit_delay_us, ops);
                self.timer.arm_ack_timeout(self.ack_timeout_us, ops);
                PtxEvent::Nothing
            },
            StatePtx::WaitAck => {
                self.timer.disarm_ack_timeout(ops);
                if evts.disabled && sample.crc_ok {
                    self.timer.disarm_retransmit(ops);
                    self.radio.stop(ops);
                    self.deliver_ack(pool);
                    self.attempts = 0;
                    self.finish_packet(pool, suppress_next_tx, ops);
                    return PtxEvent::Nothing;
                }
                // A bad CRC or a timeout. The retransmit timer still counts
                // down and triggers the WaitRetransmit state.
                self.radio.stop(ops);
                self.release_ack_rx(pool);
                if self.attempts + 1 >= self.max_attempts {
                    self.attempts = 0;
                    self.finish_packet(pool, suppress_next_tx, ops);
                    return PtxEvent::MaxAttempts;
                }
                self.attempts = self.attempts + 1;
                self.state = StatePtx::WaitRetransmit;
                PtxEvent::Nothing
            },
            StatePtx::WaitRetransmit => {
                self.retransmit(ops);
                PtxEvent::Nothing
            },
        }
    }

    /// Transition to idle without dequeuing the next packet.
    fn go_idle(&mut self, ops: &mut Vec<HwOp>)
        ensures
            *final(self) == (PtxStateMachine { state: StatePtx::Idle, ..*old(self) }),
            final(ops)@ == hw::radio(old(ops)@, RadioOp::DisableDisabledInterrupt),
    {
        self.radio.disable_disabled_interrupt(ops);
        self.state = StatePtx::Idle;
    }

    /// Release the current packet, advance the PID, and send the next one.
    fn finish_packet<const N: usize, const SIZE: usize>(
        &mut self,
        pool: &mut PacketPool<N, SIZE>,
        suppress_next_tx: bool,
        ops: &mut Vec<HwOp>,
    )
        requires
            old(pool).wf(),
            SIZE >= 4,
            old(self).wf(N as int),
        ensures
            final(pool).wf(),
            final(self).wf(N as int),
            ptx_world(*final(self), final(pool)@, final(ops)@) == ptx_world(
                *old(self),
                old(pool)@,
                old(ops)@,
            ).next_packet(suppress_next_tx),
    {
        self.release_tx(pool);
        self.advance_pid();
        if suppress_next_tx {
            self.go_idle(ops);
        } else {
            self.send_next(pool, ops);
        }
    }

    /// Send the next queued packet, or go idle if the queue is empty. A packet
    /// that still waits for lack of an ACK buffer is sent again instead.
    fn send_next<const N: usize, const SIZE: usize>(
        &mut self,
        pool: &mut PacketPool<N, SIZE>,
        ops: &mut Vec<HwOp>,
    )
        requires
            old(pool).wf(),
            SIZE >= 4,
            old(self).wf(N as int),
        ensures
            final(pool).wf(),
            final(self).wf(N as int),
            ptx_world(*final(self), final(pool)@, final(ops)@) == ptx_world(
                *old(self),
                old(pool)@,
                old(ops)@,
            ).sent_next(),
    {
        if let Some(idx) = self.tx_idx {
            self.radio.transmit(self.active_tx_pipe, DmaBuffer::Pool(idx), true, ops);
            self.state = StatePtx::Tx;
            return ;
        }
        match pool.try_dequeue_tx() {
            Some(idx) => {
                let mut header = pool.header(idx);
                let no_ack = header.no_ack();
                self.active_tx_pipe = header.pipe;
                header.set_pid(self.pid);
                pool.set_header(idx, header);
                self.tx_idx = Some(idx);
                self.radio.transmit(self.active_tx_pipe, DmaBuffer::Pool(idx), !no_ack, ops);
                self.state = if no_ack {
                    StatePtx::TxNoAck
                } else {
                    StatePtx::Tx
                };
            },
            None => {
                self.go_idle(ops);
            },
        }
    }

    /// Advance the PID after a packet is fully processed.
    fn advance_pid(&mut self)
        requires
            old(self).pid < 4,
        ensures
            *final(self) == (PtxStateMachine {
                pid: ((old(self).pid + 1) % 4) as u8,
                ..*old(self)
            }),
    {
        self.pid = (self.pid + 1) % 4;
    }

    /// Retransmit the current packet.
    fn retransmit(&mut self, ops: &mut Vec<HwOp>)
        ensures
            *final(self) == (PtxStateMachine {
                state: if old(self).tx_idx is Some {
                    StatePtx::Tx
                } else {
                    StatePtx::Idle
                },
                ..*old(self)
            }),
            final(ops)@ == (match old(self).tx_idx {
                Some(i) => radio::transmit_log(
                    old(ops)@,
                    old(self).active_tx_pipe,
                    DmaBuffer::Pool(i),
                    true,
                ),
                None => hw::radio(old(ops)@, RadioOp::DisableDisabledInterrupt),
            }),
    {
        match self.tx_idx {
            Some(idx) => {
                self.radio.transmit(self.active_tx_pipe, DmaBuffer::Pool(idx), true, ops);
                self.state = StatePtx::Tx;
            },
            None => {
                self.go_idle(ops);
            },
        }
    }

    /// Hand an ACK with a payload to the application; release an empty one.
    fn deliver_ack<const N: usize, const SIZE: usize>(&mut self, pool: &mut PacketPool<N, SIZE>)
        requires
            old(pool).wf(),
            SIZE >= 4,
            old(self).wf(N as int),
        ensures
            final(pool).wf(),
            *final(self) == (PtxStateMachine { ack_rx_idx: None, ..*old(self) }),
            final(pool)@ == (match old(self).ack_rx_idx {
                Some(i) => if old(pool)@.header(i as int).length > 0 {
                    old(pool)@.completed(i as int)
                } else {
                    old(pool)@.with_slot(i as int, SlotState::Free)
                },
                None => old(pool)@,
            }),
    {
        if let Some(idx) = self.ack_rx_idx {
            let header = pool.header(idx);
            if header.length > 0 {
                pool.rx_complete(idx);
                self.ack_rx_idx = None;
            } else {
                self.release_ack_rx(pool);
            }
        }
    }

    /// Release the current TX buffer back to the pool.
    fn release_tx<const N: usize, const SIZE: usize>(&mut self, pool: &mut PacketPool<N, SIZE>)
        requires
            old(pool).wf(),
            old(self).wf(N as int),
        ensures
            final(pool).wf(),
            *final(self) == (PtxStateMachine { tx_idx: None, ..*old(self) }),
            final(pool)@ == (match old(self).tx_idx {
                Some(i) => old(pool)@.with_slot(i as int, SlotState::Free),
                None => old(pool)@,
            }),
    {
        if let Some(idx) = self.tx_idx {
            pool.release_tx(idx);
            self.tx_idx = None;
        }
    }

    /// Release the current ACK RX buffer back to the pool.
    fn release_ack_rx<const N: usize, const SIZE: usize>(&mut self, pool: &mut PacketPool<N, SIZE>)
        requires
            old(pool).wf(),
            old(self).wf(N as int),
        ensures
            final(pool).wf(),
            *final(self) == (PtxStateMachine { ack_rx_idx: None, ..*old(self) }),
            final(pool)@ == (match old(self).ack_rx_idx {
                Some(i) => old(pool)@.with_slot(i as int, SlotState::Free),
                None => old(pool)@,
            }),
    {
        if let Some(idx) = self.ack_rx_idx {
            pool.release_rx(idx);
            self.ack_rx_idx = None;
        }
    }

    /// Handle a TIMER interrupt: disarm what fired, and pend the RADIO interrupt.
    pub fn handle_timer_event(
        &self,
        retransmit_fired: bool,
        ack_timeout_fired: bool,
        ops: &mut Vec<HwOp>,
    )
        ensures
            final(ops)@ == crate::state_machine::timer_event_log(
                old(ops)@,
                retransmit_fired,
                ack_timeout_fired,
            ).push(HwOp::PendRadio),
    {
        if retransmit_fired {
            self.timer.disarm_retransmit(ops);
        }
        if ack_timeout_fired {
            self.timer.disarm_ack_timeout(ops);
        }
        ops.push(HwOp::PendRadio);
    }

    /// Trigger a send from application context.
    pub fn trigger_send(&self, ops: &mut Vec<HwOp>)
        ensures
            final(ops)@ == old(ops)@.push(HwOp::PendRadio),
    {
        ops.push(HwOp::PendRadio);
    }

    /// Save the protocol state and stop the hardware.
    pub fn do_suspend<const N: usize, const SIZE: usize>(
        &mut self,
        pool: &mut PacketPool<N, SIZE>,
        ops: &mut Vec<HwOp>,
    ) -> (saved: EsbSavedState)
        requires
            old(pool).wf(),
            old(self).wf(N as int),
        ensures
            final(pool).wf(),
            final(self).wf(N as int),
            saved == saved_ptx(*old(self)),
            ptx_world(*final(self), final(pool)@, final(ops)@) == ptx_world(
                *old(self),
                old(pool)@,
                old(ops)@,
            ).suspended(),
    {
        let protocol_state = if self.state == StatePtx::Idle {
            SavedProtocolState::Idle
        } else {
            let attempt: u8 = self.attempts;
            self.release_tx(pool);
            self.release_ack_rx(pool);
            SavedProtocolState::ForcedIdle { dropped_attempt: attempt }
        };
        self.radio.stop(ops);
        self.timer.stop(ops);
        self.timer.disarm_retransmit(ops);
        self.timer.disarm_ack_timeout(ops);
        let saved = EsbSavedState {
            pid: self.radio.save_pid_state(),
            last_crc: self.radio.save_crc_state(),
            last_valid: self.radio.save_detection_valid_state(),
            tx_pipe: self.tx_pipe,
            attempts: self.attempts,
            protocol_state,
        };
        self.state = StatePtx::Idle;
        self.attempts = 0;
        self.tx_idx = None;
        self.ack_rx_idx = None;
        saved
    }

    /// Re-initialize and restore from saved state.
    pub fn do_restore(
        &mut self,
        state: &EsbSavedState,
        addresses: &EsbAddresses,
        ops: &mut Vec<HwOp>,
    )
        ensures
            *final(self) == restored_ptx(*old(self), *state),
            final(ops)@ == radio::init_log(
                radio::power_cycle_log(old(ops)@),
                old(self).radio.fast_ramp_up,
                old(self).config,
                *addresses,
            ),
    {
        self.reinit(addresses, state.pid, state.last_crc, state.last_valid, ops);
        self.tx_pipe = state.tx_pipe;
        self.active_tx_pipe = state.tx_pipe;
        self.state = StatePtx::Idle;
    }
}

impl PtxWorld {
    /// A timeslot starts.
    pub open spec fn slot_started(
        self,
        pid: [u8; MAX_PIPES],
        crc: [u16; MAX_PIPES],
        valid: [bool; MAX_PIPES],
    ) -> PtxWorld {
        let w = self.reinitialized(self.sm.addresses->0, pid, crc, valid);
        (PtxWorld {
            sm: PtxStateMachine {
                timeslot_managed: true,
                state: StatePtx::Idle,
                attempts: 0,
                tx_idx: None,
                ack_rx_idx: None,
                ..w.sm
            },
            ..w
        }).sent_next().noted_pipe()
    }

    /// A timeslot's radio signal comes.
    pub open spec fn slot_signalled(self, sample: PtxSample, timer: bool) -> (PtxWorld, PtxEvent) {
        if self.sm.state == StatePtx::Idle && !timer {
            (self, PtxEvent::Nothing)
        } else {
            let (w, event) = self.handled(sample, timer, false);
            (w.noted_pipe(), event)
        }
    }

    /// A timeslot ends.
    pub open spec fn slot_stopped(self) -> PtxWorld {
        let w = (PtxWorld {
            log: radio::stop_log(self.log),
            ..self
        }).released_tx().released_ack_rx();
        PtxWorld {
            sm: PtxStateMachine {
                state: StatePtx::Idle,
                attempts: 0,
                timeslot_managed: false,
                ..w.sm
            },
            ..w
        }
    }
}

/// A PTX state machine as it is created.
pub open spec fn new_ptx(
    radio: EsbRadio,
    timer: EsbTimer,
    config: EsbConfig,
    tx_pipe: u8,
) -> PtxStateMachine {
    PtxStateMachine {
        radio,
        timer,
        config,
        addresses: None,
        state: StatePtx::Idle,
        attempts: 0,
        tx_pipe,
        active_tx_pipe: tx_pipe,
        retransmit_delay_us: if config.retransmit.delay_us >= RAMP_UP_US {
            (config.retransmit.delay_us - RAMP_UP_US) as u16
        } else {
            0
        },
        ack_timeout_us: if config.ack_timeout_us + RAMP_UP_US <= u16::MAX {
            (config.ack_timeout_us + RAMP_UP_US) as u16
        } else {
            u16::MAX
        },
        max_attempts: config.retransmit.count,
        pid: 0,
        tx_idx: None,
        ack_rx_idx: None,
        last_pipe: 0xFF,
        timeslot_managed: false,
    }
}

/// A PTX state machine after a saved state was restored.
pub open spec fn restored_ptx(sm: PtxStateMachine, saved: EsbSavedState) -> PtxStateMachine {
    PtxStateMachine {
        radio: EsbRadio {
            last_pid: saved.pid,
            last_crc: saved.last_crc,
            last_valid: saved.last_valid,
            ..sm.radio
        },
        tx_pipe: saved.tx_pipe,
        active_tx_pipe: saved.tx_pipe,
        state: StatePtx::Idle,
        ..sm
    }
}

/// What a PTX state machine saves.
pub open spec fn saved_ptx(sm: PtxStateMachine) -> EsbSavedState {
    EsbSavedState {
        pid: sm.radio.last_pid,
        last_crc: sm.radio.last_crc,
        last_valid: sm.radio.last_valid,
        tx_pipe: sm.tx_pipe,
        attempts: sm.attempts,
        protocol_state: if sm.state == StatePtx::Idle {
            SavedProtocolState::Idle
        } else {
            SavedProtocolState::ForcedIdle { dropped_attempt: sm.attempts }
        },
    }
}

} // verus!
