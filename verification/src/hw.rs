//! Peripheral operations, as values.
//!
//! The protocol code does not touch a register. It appends operations to a
//! log, and whoever owns the peripherals performs them in order. What the code
//! needs to read from a peripheral is sampled beforehand and handed in.

use crate::config::Bitrate;
use crate::mpsl_radio::RadioRecoveryPolicy;
use vstd::prelude::*;

verus! {

/// A buffer that the radio's DMA can be pointed at.
///
/// The pointer goes to the DMA fields of the buffer (`EsbHeader::DMA_OFFSET`),
/// except for the fallback ACK, which consists of nothing else.
#[derive(Debug, Clone, Copy, PartialEq, Eq, Structural)]
pub enum DmaBuffer {
    /// The packet pool's buffer with this index.
    Pool(usize),
    /// The two zero bytes of an empty ACK.
    FallbackAck,
    /// The diagnostic ACK of a timeslot PRX.
    DiagAck,
    /// The transmit buffer of a timeslot session.
    SlotTx,
    /// The receive buffer of a timeslot session.
    SlotRx,
    /// The ACK buffer of a timeslot session.
    SlotAck,
}

/// Memory ordering of a fence between DMA and CPU accesses.
#[derive(Debug, Clone, Copy, PartialEq, Eq, Structural)]
pub enum FenceOrder {
    /// What the radio wrote is visible afterwards.
    Acquire,
    /// What was written is visible to the radio afterwards.
    Release,
    /// Both.
    SeqCst,
}

/// Event registers of the radio.
#[derive(Debug, Clone, Copy, PartialEq, Eq, Structural)]
pub enum RadioEvent {
    /// EVENTS_ADDRESS.
    Address,
    /// EVENTS_DISABLED.
    Disabled,
    /// EVENTS_READY.
    Ready,
    /// EVENTS_END.
    End,
    /// EVENTS_PAYLOAD.
    Payload,
}

/// The shortcuts that stand while the protocol runs.
#[derive(Debug, Clone, Copy, PartialEq, Eq, Structural)]
pub struct RadioShorts {
    /// READY starts the transfer.
    pub ready_start: bool,
    /// END disables the radio.
    pub end_disable: bool,
    /// ADDRESS starts the RSSI sample.
    pub address_rssistart: bool,
    /// DISABLED stops the RSSI sample.
    pub disabled_rssistop: bool,
}

/// Operations on the RADIO peripheral.
#[derive(Debug, Clone, Copy, PartialEq, Eq, Structural)]
pub enum RadioOp {
    /// Disable every interrupt (INTENCLR).
    ClearInterrupts,
    /// MODE: one of the proprietary bitrates.
    Mode(Bitrate),
    /// SHORTS: these shortcuts, and no others.
    Shorts(RadioShorts),
    /// SHORTS: change whether DISABLED starts RX.
    ShortDisabledRxen(bool),
    /// SHORTS: change whether DISABLED starts TX.
    ShortDisabledTxen(bool),
    /// SHORTS: change whether READY starts the transfer.
    ShortReadyStart(bool),
    /// SHORTS: change whether END disables the radio.
    ShortEndDisable(bool),
    /// MODECNF0: fast ramp-up.
    FastRampUp,
    /// TXPOWER.
    TxPower(u8),
    /// PCNF0: widths of the LENGTH and S1 fields in bits.
    Pcnf0 { length_bits: u8, s1_bits: u8 },
    /// PCNF1: lengths in bytes, and the bit order on air.
    Pcnf1 { max_len: u8, base_len: u8, static_len: u8, big_endian: bool },
    /// CRCINIT.
    CrcInit(u32),
    /// CRCPOLY.
    CrcPoly(u32),
    /// CRCCNF: CRC length in bytes, and whether the address is left out of it.
    CrcCnf { len: u8, skip_address: bool },
    /// BASE0.
    Base0(u32),
    /// BASE1.
    Base1(u32),
    /// PREFIX0.
    Prefix0(u32),
    /// PREFIX1.
    Prefix1(u32),
    /// FREQUENCY: offset from 2400 MHz.
    Frequency(u8),
    /// Enable the DISABLED interrupt.
    EnableDisabledInterrupt,
    /// Disable the DISABLED interrupt.
    DisableDisabledInterrupt,
    /// TXADDRESS: the pipe to transmit on.
    TxAddress(u8),
    /// RXADDRESSES: mask of the pipes to receive on.
    RxAddresses(u32),
    /// PACKETPTR.
    PacketPtr(DmaBuffer),
    /// Clear an event register.
    ClearEvent(RadioEvent),
    /// Fence between DMA and CPU accesses.
    Fence(FenceOrder),
    /// TASKS_TXEN.
    Txen,
    /// TASKS_RXEN.
    Rxen,
    /// TASKS_DISABLE.
    Disable,
    /// Wait until EVENTS_DISABLED is set.
    WaitDisabled,
    /// Check, in debug builds, that the radio has not ramped up yet.
    ExpectNotReady,
    /// POWER.
    Power(bool),
}

/// Operations on a TIMER peripheral.
#[derive(Debug, Clone, Copy, PartialEq, Eq, Structural)]
pub enum TimerOp {
    /// Disable every interrupt (INTENCLR).
    ClearInterrupts,
    /// TASKS_STOP.
    Stop,
    /// TASKS_START.
    Start,
    /// TASKS_CLEAR.
    Clear,
    /// BITMODE: 32 bits.
    BitMode32,
    /// PRESCALER.
    Prescaler(u8),
    /// CC[n] = value.
    Compare { channel: u8, value: u32 },
    /// Capture the counter into CC[n] and add to it.
    CompareAfter { channel: u8, micros: u32 },
    /// Clear EVENTS_COMPARE[n].
    ClearCompare(u8),
    /// Enable the COMPARE[n] interrupt.
    EnableCompare(u8),
    /// Disable the COMPARE[n] interrupt.
    DisableCompare(u8),
}

/// One step for the owner of the peripherals.
#[derive(Debug, Clone, Copy, PartialEq, Eq, Structural)]
pub enum HwOp {
    /// On the RADIO.
    Radio(RadioOp),
    /// On the protocol's own TIMER.
    Timer(TimerOp),
    /// Pend the RADIO interrupt.
    PendRadio,
    /// Unpend the RADIO interrupt.
    UnpendRadio,
    /// Mask the RADIO interrupt.
    MaskRadio,
    /// Unmask the RADIO interrupt.
    UnmaskRadio,
    /// Unmask the TIMER interrupt.
    UnmaskTimer,
    /// Wake the task that waits for the driver to become suspendable.
    WakeSuspend,
    /// On TIMER0, which a timeslot borrows.
    Timer0(TimerOp),
    /// Disable the radio within a bounded time, and report whether it did.
    DisableRadio { clear_rxen: bool, clear_txen: bool },
    /// Bring the radio to rest before a timeslot ends, and report whether it was.
    QuiesceRadio(RadioRecoveryPolicy),
    /// Wake the task that waits for a timeslot session.
    WakeSession,
}

/// A log with a RADIO operation appended.
#[verifier::inline]
pub open spec fn radio(log: Seq<HwOp>, op: RadioOp) -> Seq<HwOp> {
    log.push(HwOp::Radio(op))
}

/// A log with a TIMER0 operation appended.
#[verifier::inline]
pub open spec fn timer0(log: Seq<HwOp>, op: TimerOp) -> Seq<HwOp> {
    log.push(HwOp::Timer0(op))
}

/// A log with a TIMER operation appended.
#[verifier::inline]
pub open spec fn timer(log: Seq<HwOp>, op: TimerOp) -> Seq<HwOp> {
    log.push(HwOp::Timer(op))
}

} // verus!
