//! States and events of the ESB state machines.
//!
//! The machines are event processors: they receive event flags and sampled
//! register values and return what is to be done.

pub use crate::prx::{write_timeslot_diag_ack, PrxStateMachine};
pub use crate::ptx::PtxStateMachine;

use crate::hw::HwOp;
use crate::timer;
use vstd::prelude::*;

verus! {

/// PTX state machine states.
#[derive(Debug, Clone, Copy, PartialEq, Eq, Structural)]
pub enum StatePtx {
    /// Radio idle: waiting for a TX queue entry.
    Idle,
    /// Transmitting a packet (ACK requested).
    Tx,
    /// Transmitting a packet for which no ACK is expected.
    TxNoAck,
    /// Waiting for the ACK after TX.
    WaitAck,
    /// Waiting for the retransmit timeout.
    WaitRetransmit,
}

impl Default for StatePtx {
    fn default() -> (s: Self)
        ensures
            s == StatePtx::Idle,
    {
        StatePtx::Idle
    }
}

/// PRX state machine states.
#[derive(Debug, Clone, Copy, PartialEq, Eq, Structural)]
pub enum StatePrx {
    /// Radio idle: not listening.
    Idle,
    /// Listening for incoming packets.
    Receiver,
    /// Transmitting the ACK for a new packet.
    TxAck,
    /// Transmitting the ACK for a duplicate packet.
    TxRepeatedAck,
}

impl Default for StatePrx {
    fn default() -> (s: Self)
        ensures
            s == StatePrx::Idle,
    {
        StatePrx::Idle
    }
}

/// Events checked at the start of each interrupt.
#[derive(Debug, Clone, Copy, PartialEq, Eq, Structural)]
pub struct IsrEvents {
    /// EVENTS_DISABLED fired.
    pub disabled: bool,
    /// The TIMER interrupt set the flag and pended the RADIO interrupt.
    pub timer: bool,
}

impl IsrEvents {
    /// Neither disabled nor timer: triggered by the application.
    pub fn user_event(self) -> (r: bool)
        ensures
            r == (!self.disabled && !self.timer),
    {
        !self.disabled && !self.timer
    }
}

/// Result of PTX event handling.
#[derive(Debug, Clone, Copy, PartialEq, Eq, Structural)]
pub enum PtxEvent {
    /// The state machine progressed normally.
    Nothing,
    /// Max retransmit attempts reached: the packet was dropped.
    MaxAttempts,
}

/// Result of PRX event handling.
#[derive(Debug, Clone, Copy, PartialEq, Eq, Structural)]
pub enum PrxEvent {
    /// No special event.
    Nothing,
    /// New valid packet received.
    Received,
    /// Duplicate packet: acknowledged, but no new data.
    Duplicate,
    /// Packet that asks for no ACK received and queued.
    ReceivedNoAck,
    /// CRC check failed: the radio was restarted.
    BadCrc,
}

/// What a diagnostic ACK tells about the schedule of a timeslot PRX.
#[derive(Debug, Clone, Copy, PartialEq, Eq, Structural)]
pub struct TimeslotDiagAckContext {
    /// Sequence number of the window.
    pub window_id: u32,
    /// Microseconds to the next window.
    pub next_delay_us: u32,
    /// Microseconds between windows.
    pub period_us: u32,
    /// Microseconds a window stays open.
    pub window_us: u32,
}

/// Disarming the timeouts that fired.
pub open spec fn timer_event_log(log: Seq<HwOp>, retransmit: bool, ack: bool) -> Seq<HwOp> {
    let log = if retransmit {
        timer::disarm_retransmit_log(log)
    } else {
        log
    };
    if ack {
        timer::disarm_ack_timeout_log(log)
    } else {
        log
    }
}

/// A timeout that fired is disarmed, and one that did not is left as it is.
pub proof fn law_fired_timeouts_are_disarmed(
    t: timer::TimerRegs,
    log: Seq<HwOp>,
    retransmit: bool,
    ack: bool,
)
    ensures
        ({
            let before = timer::timer_after(t, log);
            let after = timer::timer_after(t, timer_event_log(log, retransmit, ack));
            &&& retransmit ==> after.retransmit is None && !after.running
            &&& !retransmit ==> after.retransmit == before.retransmit && after.running
                == before.running
            &&& ack ==> after.ack_timeout is None
            &&& !ack ==> after.ack_timeout == before.ack_timeout
        }),
{
    broadcast use timer::lemma_timer_push_auto;

}

} // verus!
