//! ESB timing on a TIMER peripheral that counts microseconds.
//!
//! - CC\[0\]: retransmit timeout (absolute: clear and start)
//! - CC\[1\]: ACK timeout (relative: capture and add)
//! - CC\[2\]: reading the counter

use crate::hw;
use crate::hw::{HwOp, TimerOp};
use vstd::prelude::*;

verus! {

/// ESB timer driver: 32 bits wide, one tick per microsecond.
#[derive(Debug, Clone, Copy, PartialEq, Eq, Structural)]
pub struct EsbTimer {}

/// Configuring the timer.
pub open spec fn timer_init_log(log: Seq<HwOp>) -> Seq<HwOp> {
    let log = hw::timer(log, TimerOp::ClearInterrupts);
    let log = hw::timer(log, TimerOp::Stop);
    let log = hw::timer(log, TimerOp::BitMode32);
    hw::timer(log, TimerOp::Prescaler(4))
}

/// Arming the retransmit timeout.
pub open spec fn arm_retransmit_log(log: Seq<HwOp>, micros: u16) -> Seq<HwOp> {
    let log = hw::timer(log, TimerOp::Compare { channel: 0, value: micros as u32 });
    let log = hw::timer(log, TimerOp::ClearCompare(0));
    let log = hw::timer(log, TimerOp::EnableCompare(0));
    let log = hw::timer(log, TimerOp::Clear);
    hw::timer(log, TimerOp::Start)
}

/// Disarming the retransmit timeout.
pub open spec fn disarm_retransmit_log(log: Seq<HwOp>) -> Seq<HwOp> {
    let log = hw::timer(log, TimerOp::DisableCompare(0));
    let log = hw::timer(log, TimerOp::ClearCompare(0));
    hw::timer(log, TimerOp::Stop)
}

/// Arming the ACK timeout.
pub open spec fn arm_ack_timeout_log(log: Seq<HwOp>, micros: u16) -> Seq<HwOp> {
    let log = hw::timer(log, TimerOp::CompareAfter { channel: 1, micros: micros as u32 });
    let log = hw::timer(log, TimerOp::ClearCompare(1));
    hw::timer(log, TimerOp::EnableCompare(1))
}

/// Disarming the ACK timeout.
pub open spec fn disarm_ack_timeout_log(log: Seq<HwOp>) -> Seq<HwOp> {
    let log = hw::timer(log, TimerOp::DisableCompare(1));
    hw::timer(log, TimerOp::ClearCompare(1))
}

impl EsbTimer {
    /// Create a new ESB timer: 32-bit mode, 16 MHz / 2^4 = 1 MHz.
    pub fn new(ops: &mut Vec<HwOp>) -> (t: Self)
        ensures
            final(ops)@ == timer_init_log(old(ops)@),
    {
        ops.push(HwOp::Timer(TimerOp::ClearInterrupts));
        ops.push(HwOp::Timer(TimerOp::Stop));
        ops.push(HwOp::Timer(TimerOp::BitMode32));
        ops.push(HwOp::Timer(TimerOp::Prescaler(4)));
        EsbTimer {  }
    }

    /// Arm the retransmit timer: count from 0 to `micros`, then interrupt.
    pub fn arm_retransmit(&self, micros: u16, ops: &mut Vec<HwOp>)
        ensures
            final(ops)@ == arm_retransmit_log(old(ops)@, micros),
    {
        ops.push(HwOp::Timer(TimerOp::Compare { channel: 0, value: micros as u32 }));
        ops.push(HwOp::Timer(TimerOp::ClearCompare(0)));
        ops.push(HwOp::Timer(TimerOp::EnableCompare(0)));
        ops.push(HwOp::Timer(TimerOp::Clear));
        ops.push(HwOp::Timer(TimerOp::Start));
    }

    /// Disarm the retransmit timer and stop the counter.
    pub fn disarm_retransmit(&self, ops: &mut Vec<HwOp>)
        ensures
            final(ops)@ == disarm_retransmit_log(old(ops)@),
    {
        ops.push(HwOp::Timer(TimerOp::DisableCompare(0)));
        ops.push(HwOp::Timer(TimerOp::ClearCompare(0)));
        ops.push(HwOp::Timer(TimerOp::Stop));
    }

    /// Arm the ACK timeout, `micros` from the current counter position.
    pub fn arm_ack_timeout(&self, micros: u16, ops: &mut Vec<HwOp>)
        ensures
            final(ops)@ == arm_ack_timeout_log(old(ops)@, micros),
    {
        ops.push(HwOp::Timer(TimerOp::CompareAfter { channel: 1, micros: micros as u32 }));
        ops.push(HwOp::Timer(TimerOp::ClearCompare(1)));
        ops.push(HwOp::Timer(TimerOp::EnableCompare(1)));
    }

    /// Disarm the ACK timeout.
    pub fn disarm_ack_timeout(&self, ops: &mut Vec<HwOp>)
        ensures
            final(ops)@ == disarm_ack_timeout_log(old(ops)@),
    {
        ops.push(HwOp::Timer(TimerOp::DisableCompare(1)));
        ops.push(HwOp::Timer(TimerOp::ClearCompare(1)));
    }

    /// Stop the counter.
    pub fn stop(&self, ops: &mut Vec<HwOp>)
        ensures
            final(ops)@ == hw::timer(old(ops)@, TimerOp::Stop),
    {
        ops.push(HwOp::Timer(TimerOp::Stop));
    }
}

/// The compare value of a timeout `micros` after the captured counter value: the
/// counter starts over from zero behind its largest value.
pub fn compare_after(captured: u32, micros: u32) -> (value: u32)
    ensures
        value == (captured + micros) % 0x1_0000_0000,
{
    captured.wrapping_add(micros)
}

/// What the protocol's timer is set up to do, as far as the protocol uses it.
pub struct TimerRegs {
    /// Counter width is 32 bits.
    pub wide: bool,
    /// Counter ticks every `16 MHz / 2^prescaler`.
    pub prescaler: u8,
    /// The counter runs.
    pub running: bool,
    /// The retransmit deadline, where it is armed.
    pub retransmit: Option<u32>,
    /// The ACK deadline (from the moment of arming), where it is armed.
    pub ack_timeout: Option<u32>,
    /// Contents of CC[0].
    pub cc0: u32,
    /// Contents of CC[1], from the moment of capture.
    pub cc1: u32,
}

/// The timer after one operation.
pub open spec fn timer_step(t: TimerRegs, op: HwOp) -> TimerRegs {
    match op {
        HwOp::Timer(TimerOp::ClearInterrupts) => TimerRegs {
            retransmit: None,
            ack_timeout: None,
            ..t
        },
        HwOp::Timer(TimerOp::Stop) => TimerRegs { running: false, ..t },
        HwOp::Timer(TimerOp::Start) => TimerRegs { running: true, ..t },
        HwOp::Timer(TimerOp::BitMode32) => TimerRegs { wide: true, ..t },
        HwOp::Timer(TimerOp::Prescaler(p)) => TimerRegs { prescaler: p, ..t },
        HwOp::Timer(TimerOp::Compare { channel, value }) => if channel == 0 {
            TimerRegs { cc0: value, ..t }
        } else {
            t
        },
        HwOp::Timer(TimerOp::CompareAfter { channel, micros }) => if channel == 1 {
            TimerRegs { cc1: micros, ..t }
        } else {
            t
        },
        HwOp::Timer(TimerOp::EnableCompare(n)) => if n == 0 {
            TimerRegs { retransmit: Some(t.cc0), ..t }
        } else if n == 1 {
            TimerRegs { ack_timeout: Some(t.cc1), ..t }
        } else {
            t
        },
        HwOp::Timer(TimerOp::DisableCompare(n)) => if n == 0 {
            TimerRegs { retransmit: None, ..t }
        } else if n == 1 {
            TimerRegs { ack_timeout: None, ..t }
        } else {
            t
        },
        _ => t,
    }
}

/// The timer after the operations of a log, oldest first.
#[verifier::opaque]
pub open spec fn timer_after(t: TimerRegs, log: Seq<HwOp>) -> TimerRegs
    decreases log.len(),
{
    if log.len() == 0 {
        t
    } else {
        timer_step(timer_after(t, log.drop_last()), log.last())
    }
}

/// One more operation on a log is one more step of the timer.
pub proof fn lemma_timer_push(t: TimerRegs, log: Seq<HwOp>, op: HwOp)
    ensures
        timer_after(t, log.push(op)) == timer_step(timer_after(t, log), op),
{
    reveal(timer_after);
    assert(log.push(op).drop_last() =~= log);
}

/// Configuring the timer makes it a stopped 32-bit counter of microseconds
/// with nothing armed.
pub proof fn law_timer_init(t: TimerRegs, log: Seq<HwOp>)
    ensures
        ({
            let after = timer_after(t, timer_init_log(log));
            after.wide && after.prescaler == 4 && !after.running && after.retransmit is None
                && after.ack_timeout is None
        }),
{
    broadcast use lemma_timer_push_auto;

}

/// Arming both timeouts leaves the counter running with both deadlines set;
/// disarming one leaves the other.
pub proof fn law_timeouts_armed(t: TimerRegs, log: Seq<HwOp>, retransmit: u16, ack: u16)
    ensures
        ({
            let both = arm_ack_timeout_log(arm_retransmit_log(log, retransmit), ack);
            let armed = timer_after(t, both);
            let no_ack = timer_after(t, disarm_ack_timeout_log(both));
            let none = timer_after(t, disarm_retransmit_log(disarm_ack_timeout_log(both)));
            &&& armed.running && armed.retransmit == Some(retransmit as u32) && armed.ack_timeout
                == Some(ack as u32)
            &&& no_ack.running && no_ack.retransmit == Some(retransmit as u32)
                && no_ack.ack_timeout is None
            &&& !none.running && none.retransmit is None && none.ack_timeout is None
        }),
{
    broadcast use lemma_timer_push_auto;

}

/// `lemma_timer_push`, for every log.
pub broadcast proof fn lemma_timer_push_auto(t: TimerRegs, log: Seq<HwOp>, op: HwOp)
    ensures
        #[trigger] timer_after(t, log.push(op)) == timer_step(timer_after(t, log), op),
{
    lemma_timer_push(t, log, op);
}

} // verus!
