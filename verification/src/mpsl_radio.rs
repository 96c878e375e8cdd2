//! RADIO handoff at the end of a timeslot.
//!
//! Disabling the radio is a request followed by a bounded wait. The request and
//! what comes after the wait are decided here; the wait itself polls a register.

use crate::hw;
use crate::hw::{FenceOrder, HwOp, RadioEvent, RadioOp};
use crate::radio_model::{no_shorts, radio_after, Activity, RadioRegs};
use vstd::prelude::*;

verus! {

/// How often EVENTS_DISABLED is polled again before the wait is given up.
pub const RADIO_DISABLE_SPIN_LIMIT: u32 = 100_000;

/// Result of asking the radio to reach DISABLED within a bounded spin window.
#[derive(Debug, Clone, Copy, PartialEq, Eq, Structural)]
pub enum RadioDisableResult {
    /// The radio is disabled.
    Disabled,
    /// The radio did not get there in time.
    TimedOut,
}

impl RadioDisableResult {
    /// Whether the wait was given up.
    pub fn timed_out(self) -> (r: bool)
        ensures
            r == (self == RadioDisableResult::TimedOut),
    {
        matches!(self, RadioDisableResult::TimedOut)
    }
}

/// Recovery policy used when handing the radio back at the end of a timeslot.
#[derive(Debug, Clone, Copy, PartialEq, Eq, Structural)]
pub enum RadioRecoveryPolicy {
    /// Force a power cycle after the bounded disable attempt.
    ForceResetAfterBoundedDisable,
}

/// Result of quiescing the radio before other protocols get control of it.
#[derive(Debug, Clone, Copy, PartialEq, Eq, Structural)]
pub enum RadioQuiesceResult {
    /// The radio was disabled.
    Disabled,
    /// The radio did not get there in time and was reset.
    TimedOutForcedReset,
}

impl RadioQuiesceResult {
    /// Whether the wait was given up.
    pub fn timed_out(self) -> (r: bool)
        ensures
            r == (self == RadioQuiesceResult::TimedOutForcedReset),
    {
        matches!(self, RadioQuiesceResult::TimedOutForcedReset)
    }
}

/// Asking the radio to disable.
pub open spec fn request_disable_log(log: Seq<HwOp>, clear_rxen: bool, clear_txen: bool) -> Seq<
    HwOp,
> {
    let log = hw::radio(log, RadioOp::ShortReadyStart(false));
    let log = hw::radio(log, RadioOp::ShortEndDisable(false));
    let log = if clear_rxen {
        hw::radio(log, RadioOp::ShortDisabledRxen(false))
    } else {
        log
    };
    let log = if clear_txen {
        hw::radio(log, RadioOp::ShortDisabledTxen(false))
    } else {
        log
    };
    let log = hw::radio(log, RadioOp::DisableDisabledInterrupt);
    let log = hw::radio(log, RadioOp::ClearEvent(RadioEvent::Disabled));
    hw::radio(log, RadioOp::Disable)
}

/// After the wait for the radio to disable.
pub open spec fn disable_waited_log(log: Seq<HwOp>) -> Seq<HwOp> {
    let log = hw::radio(log, RadioOp::ClearEvent(RadioEvent::Disabled));
    hw::radio(log, RadioOp::Fence(FenceOrder::Acquire))
}

/// Resetting what a timeslot left in the radio.
pub open spec fn quiesce_log(log: Seq<HwOp>) -> Seq<HwOp> {
    let log = hw::radio(log, RadioOp::ClearEvent(RadioEvent::Address));
    let log = hw::radio(log, RadioOp::ClearEvent(RadioEvent::Payload));
    let log = hw::radio(log, RadioOp::ClearEvent(RadioEvent::End));
    let log = hw::radio(log, RadioOp::ClearEvent(RadioEvent::Ready));
    let log = hw::radio(log, RadioOp::ClearEvent(RadioEvent::Disabled));
    let log = crate::radio::power_cycle_log(log);
    let log = log.push(HwOp::UnpendRadio);
    hw::radio(log, RadioOp::Fence(FenceOrder::Acquire))
}

/// Ask the radio to disable, before the bounded wait.
pub fn request_disable(clear_rxen: bool, clear_txen: bool, ops: &mut Vec<HwOp>)
    ensures
        final(ops)@ == request_disable_log(old(ops)@, clear_rxen, clear_txen),
{
    ops.push(HwOp::Radio(RadioOp::ShortReadyStart(false)));
    ops.push(HwOp::Radio(RadioOp::ShortEndDisable(false)));
    if clear_rxen {
        ops.push(HwOp::Radio(RadioOp::ShortDisabledRxen(false)));
    }
    if clear_txen {
        ops.push(HwOp::Radio(RadioOp::ShortDisabledTxen(false)));
    }
    ops.push(HwOp::Radio(RadioOp::DisableDisabledInterrupt));
    ops.push(HwOp::Radio(RadioOp::ClearEvent(RadioEvent::Disabled)));
    ops.push(HwOp::Radio(RadioOp::Disable));
}

/// Finish disabling the radio, after the bounded wait ended with `disabled`.
pub fn disable_radio_bounded(disabled: bool, ops: &mut Vec<HwOp>) -> (r: RadioDisableResult)
    ensures
        r == (if disabled {
            RadioDisableResult::Disabled
        } else {
            RadioDisableResult::TimedOut
        }),
        final(ops)@ == disable_waited_log(old(ops)@),
{
    ops.push(HwOp::Radio(RadioOp::ClearEvent(RadioEvent::Disabled)));
    ops.push(HwOp::Radio(RadioOp::Fence(FenceOrder::Acquire)));
    if disabled {
        RadioDisableResult::Disabled
    } else {
        RadioDisableResult::TimedOut
    }
}

/// Reset what the timeslot left in the radio, after it was asked to disable.
pub fn quiesce_radio_before_timeslot_end(
    policy: RadioRecoveryPolicy,
    disabled: RadioDisableResult,
    ops: &mut Vec<HwOp>,
) -> (r: RadioQuiesceResult)
    ensures
        r == (match disabled {
            RadioDisableResult::Disabled => RadioQuiesceResult::Disabled,
            RadioDisableResult::TimedOut => RadioQuiesceResult::TimedOutForcedReset,
        }),
        final(ops)@ == quiesce_log(old(ops)@),
{
    ops.push(HwOp::Radio(RadioOp::ClearEvent(RadioEvent::Address)));
    ops.push(HwOp::Radio(RadioOp::ClearEvent(RadioEvent::Payload)));
    ops.push(HwOp::Radio(RadioOp::ClearEvent(RadioEvent::End)));
    ops.push(HwOp::Radio(RadioOp::ClearEvent(RadioEvent::Ready)));
    ops.push(HwOp::Radio(RadioOp::ClearEvent(RadioEvent::Disabled)));
    match policy {
        RadioRecoveryPolicy::ForceResetAfterBoundedDisable => {
            ops.push(HwOp::Radio(RadioOp::Power(false)));
            ops.push(HwOp::Radio(RadioOp::Power(true)));
        },
    }
    ops.push(HwOp::UnpendRadio);
    ops.push(HwOp::Radio(RadioOp::Fence(FenceOrder::Acquire)));
    if disabled.timed_out() {
        RadioQuiesceResult::TimedOutForcedReset
    } else {
        RadioQuiesceResult::Disabled
    }
}

/// Once the radio has been asked to disable, its end raises no interrupt, nothing
/// starts or disables it by itself, and what DISABLED starts is cut off as asked. What
/// it is tuned to and what it does stay as they are.
pub proof fn law_request_disable(r: RadioRegs, log: Seq<HwOp>, clear_rxen: bool, clear_txen: bool)
    ensures
        ({
            let before = radio_after(r, log);
            let after = radio_after(r, request_disable_log(log, clear_rxen, clear_txen));
            &&& !after.interrupt
            &&& !after.stale_disabled
            &&& !after.shorts.ready_start
            &&& !after.shorts.end_disable
            &&& after.disabled_rxen == (before.disabled_rxen && !clear_rxen)
            &&& after.disabled_txen == (before.disabled_txen && !clear_txen)
            &&& after.activity == before.activity
            &&& after.tx_address == before.tx_address
            &&& after.rx_addresses == before.rx_addresses
            &&& after.packet == before.packet
        }),
        request_disable_log(log, clear_rxen, clear_txen).last() == HwOp::Radio(RadioOp::Disable),
{
    broadcast use crate::radio_model::lemma_radio_push;

}

/// A radio that is handed back does nothing, raises nothing and will start nothing:
/// whatever the timeslot left in it is gone, its pending interrupt too.
pub proof fn law_handed_back_radio_is_silent(r: RadioRegs, log: Seq<HwOp>)
    ensures
        ({
            let after = radio_after(r, quiesce_log(log));
            &&& after.activity == Activity::Disabled
            &&& !after.interrupt
            &&& !after.disabled_rxen
            &&& !after.disabled_txen
            &&& after.shorts == no_shorts()
            &&& after.packet is None
            &&& !after.stale_disabled
        }),
        quiesce_log(log).subrange(log.len() as int, quiesce_log(log).len() as int).contains(
            HwOp::UnpendRadio,
        ),
{
    broadcast use crate::radio_model::lemma_radio_push;

    let all = quiesce_log(log);
    let tail = all.subrange(log.len() as int, all.len() as int);
    assert(tail[tail.len() - 2] == HwOp::UnpendRadio);
}

/// A wait that has ended leaves no event behind that could end the next one.
pub proof fn law_wait_leaves_no_event(r: RadioRegs, log: Seq<HwOp>)
    ensures
        !radio_after(r, disable_waited_log(log)).stale_disabled,
        radio_after(r, disable_waited_log(log)).activity == radio_after(r, log).activity,
{
    broadcast use crate::radio_model::lemma_radio_push;

}

} // verus!
