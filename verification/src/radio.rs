//! RADIO operations of the ESB protocol, and PRX duplicate detection.

use crate::addresses::{EsbAddresses, MAX_PIPES};
use crate::config::EsbConfig;
use crate::hw;
use crate::hw::{DmaBuffer, FenceOrder, HwOp, RadioEvent, RadioOp, RadioShorts};
use vstd::prelude::*;

verus! {

/// Result of checking a received PRX packet.
#[derive(Debug, Clone, Copy, PartialEq, Eq, Structural)]
pub enum RxResult {
    /// New valid packet.
    NewPacket,
    /// Duplicate packet (same CRC + PID as the last packet on this pipe).
    Duplicate,
    /// CRC check failed: the radio was restarted.
    BadCrc,
}

/// What the radio reports of a received packet.
#[derive(Debug, Clone, Copy, PartialEq, Eq, Structural)]
pub struct RxStatus {
    /// CRCSTATUS: the CRC matched.
    pub crc_ok: bool,
    /// RXMATCH: the pipe that received.
    pub pipe: u8,
    /// RXCRC: the CRC of the packet.
    pub crc: u16,
    /// RSSISAMPLE.
    pub rssi: u8,
}

/// RADIO layer for ESB: emits operations and tracks, per pipe, the CRC and PID
/// of the last packet for duplicate detection (PRX).
#[derive(Debug, Clone, Copy)]
pub struct EsbRadio {
    /// Ramp up in the fast mode.
    pub fast_ramp_up: bool,
    /// Last received CRC per pipe.
    pub last_crc: [u16; MAX_PIPES],
    /// Last received PID per pipe.
    pub last_pid: [u8; MAX_PIPES],
    /// Whether a packet has been received on the pipe.
    pub last_valid: [bool; MAX_PIPES],
}

/// Clearing the events of a transfer.
pub open spec fn clear_events_log(log: Seq<HwOp>) -> Seq<HwOp> {
    let log = hw::radio(log, RadioOp::ClearEvent(RadioEvent::Address));
    let log = hw::radio(log, RadioOp::ClearEvent(RadioEvent::Disabled));
    let log = hw::radio(log, RadioOp::ClearEvent(RadioEvent::Ready));
    let log = hw::radio(log, RadioOp::ClearEvent(RadioEvent::End));
    hw::radio(log, RadioOp::ClearEvent(RadioEvent::Payload))
}

/// Configuring what the radio does by itself.
pub open spec fn mode_log(log: Seq<HwOp>, fast_ramp_up: bool, config: EsbConfig) -> Seq<HwOp> {
    let log = hw::radio(log, RadioOp::ClearInterrupts);
    let log = hw::radio(log, RadioOp::Mode(config.bitrate));
    let log = hw::radio(
        log,
        RadioOp::Shorts(
            RadioShorts {
                ready_start: true,
                end_disable: true,
                address_rssistart: true,
                disabled_rssistop: true,
            },
        ),
    );
    let log = if fast_ramp_up {
        hw::radio(log, RadioOp::FastRampUp)
    } else {
        log
    };
    hw::radio(log, RadioOp::TxPower(config.tx_power.register()))
}

/// Configuring the format of packets, the addresses and the channel.
pub open spec fn format_log(
    log: Seq<HwOp>,
    config: EsbConfig,
    addresses: EsbAddresses,
) -> Seq<HwOp> {
    let log = hw::radio(log, RadioOp::Pcnf0 { length_bits: 8, s1_bits: 3 });
    let log = hw::radio(
        log,
        RadioOp::Pcnf1 {
            max_len: config.payload_length,
            base_len: 4,
            static_len: 0,
            big_endian: true,
        },
    );
    let log = hw::radio(log, RadioOp::CrcInit(config.crc.init as u32));
    let log = hw::radio(log, RadioOp::CrcPoly(config.crc.polynomial()));
    let log = hw::radio(
        log,
        RadioOp::CrcCnf { len: config.crc.length, skip_address: false },
    );
    let log = hw::radio(log, RadioOp::Base0(addresses.base0_word()));
    let log = hw::radio(log, RadioOp::Base1(addresses.base1_word()));
    let log = hw::radio(log, RadioOp::Prefix0(addresses.prefix0_word()));
    let log = hw::radio(log, RadioOp::Prefix1(addresses.prefix1_word()));
    hw::radio(log, RadioOp::Frequency(config.channel.0))
}

/// Configuring the radio.
pub open spec fn init_log(
    log: Seq<HwOp>,
    fast_ramp_up: bool,
    config: EsbConfig,
    addresses: EsbAddresses,
) -> Seq<HwOp> {
    format_log(mode_log(log, fast_ramp_up, config), config, addresses)
}

/// Stopping the radio.
pub open spec fn stop_log(log: Seq<HwOp>) -> Seq<HwOp> {
    let log = hw::radio(log, RadioOp::ShortDisabledRxen(false));
    let log = hw::radio(log, RadioOp::ShortDisabledTxen(false));
    let log = hw::radio(log, RadioOp::DisableDisabledInterrupt);
    let log = hw::radio(log, RadioOp::Disable);
    let log = hw::radio(log, RadioOp::WaitDisabled);
    let log = hw::radio(log, RadioOp::ClearEvent(RadioEvent::Disabled));
    hw::radio(log, RadioOp::Fence(FenceOrder::Acquire))
}

/// The RXADDRESSES mask of a single pipe.
pub open spec fn pipe_mask(pipe: u8) -> u32 {
    1u32 << (pipe % 32)
}

/// Starting a transmission.
pub open spec fn transmit_log(log: Seq<HwOp>, pipe: u8, dma: DmaBuffer, ack: bool) -> Seq<HwOp> {
    let log = if ack {
        hw::radio(log, RadioOp::ShortDisabledRxen(true))
    } else {
        log
    };
    let log = hw::radio(log, RadioOp::EnableDisabledInterrupt);
    let log = hw::radio(log, RadioOp::TxAddress(pipe));
    let log = hw::radio(log, RadioOp::RxAddresses(pipe_mask(pipe)));
    let log = hw::radio(log, RadioOp::PacketPtr(dma));
    let log = clear_events_log(log);
    let log = hw::radio(log, RadioOp::Fence(FenceOrder::Release));
    hw::radio(log, RadioOp::Txen)
}

/// Finishing a transmission that asked for no ACK.
pub open spec fn finish_tx_no_ack_log(log: Seq<HwOp>) -> Seq<HwOp> {
    let log = hw::radio(log, RadioOp::Fence(FenceOrder::SeqCst));
    hw::radio(log, RadioOp::DisableDisabledInterrupt)
}

/// Turning to the ACK after a transmission.
pub open spec fn prepare_for_ack_log(log: Seq<HwOp>, dma: DmaBuffer) -> Seq<HwOp> {
    let log = hw::radio(log, RadioOp::ClearEvent(RadioEvent::Ready));
    let log = hw::radio(log, RadioOp::Fence(FenceOrder::Release));
    let log = hw::radio(log, RadioOp::PacketPtr(dma));
    let log = hw::radio(log, RadioOp::ExpectNotReady);
    hw::radio(log, RadioOp::ShortDisabledRxen(false))
}

/// Starting to receive, with the turn to the ACK made by the radio itself.
pub open spec fn start_receiving_log(log: Seq<HwOp>, pipes: u8, dma: DmaBuffer) -> Seq<HwOp> {
    let log = hw::radio(log, RadioOp::ShortDisabledTxen(true));
    let log = hw::radio(log, RadioOp::EnableDisabledInterrupt);
    let log = hw::radio(log, RadioOp::RxAddresses(pipes as u32));
    let log = hw::radio(log, RadioOp::PacketPtr(dma));
    let log = clear_events_log(log);
    let log = hw::radio(log, RadioOp::Fence(FenceOrder::Release));
    hw::radio(log, RadioOp::Rxen)
}

/// Starting to receive, with the turn to the ACK left to software.
pub open spec fn start_receiving_manual_log(log: Seq<HwOp>, pipes: u8, dma: DmaBuffer) -> Seq<
    HwOp,
> {
    let log = hw::radio(log, RadioOp::ShortDisabledTxen(false));
    let log = hw::radio(log, RadioOp::ShortDisabledRxen(false));
    let log = hw::radio(log, RadioOp::EnableDisabledInterrupt);
    let log = hw::radio(log, RadioOp::RxAddresses(pipes as u32));
    let log = hw::radio(log, RadioOp::PacketPtr(dma));
    let log = clear_events_log(log);
    let log = hw::radio(log, RadioOp::Fence(FenceOrder::Release));
    hw::radio(log, RadioOp::Rxen)
}

/// Restarting reception after a packet with a bad CRC, without an ACK.
pub open spec fn restart_after_bad_crc_log(log: Seq<HwOp>) -> Seq<HwOp> {
    let log = stop_log(log);
    let log = hw::radio(log, RadioOp::ShortDisabledTxen(true));
    let log = hw::radio(log, RadioOp::EnableDisabledInterrupt);
    let log = hw::radio(log, RadioOp::Fence(FenceOrder::Release));
    hw::radio(log, RadioOp::Rxen)
}

/// Accepting a packet whose CRC matched.
pub open spec fn accept_packet_log(log: Seq<HwOp>) -> Seq<HwOp> {
    let log = hw::radio(log, RadioOp::Fence(FenceOrder::Acquire));
    hw::radio(log, RadioOp::ClearEvent(RadioEvent::Ready))
}

/// Setting up an ACK while the radio turns to TX by itself.
pub open spec fn setup_ack_tx_log(log: Seq<HwOp>, pipe: u8, dma: DmaBuffer) -> Seq<HwOp> {
    let log = hw::radio(log, RadioOp::TxAddress(pipe));
    let log = hw::radio(log, RadioOp::Fence(FenceOrder::Release));
    let log = hw::radio(log, RadioOp::PacketPtr(dma));
    let log = hw::radio(log, RadioOp::ExpectNotReady);
    let log = hw::radio(log, RadioOp::ShortDisabledTxen(false));
    hw::radio(log, RadioOp::ShortDisabledRxen(true))
}

/// Sending an ACK under software control.
pub open spec fn transmit_ack_manual_log(log: Seq<HwOp>, pipe: u8, dma: DmaBuffer) -> Seq<HwOp> {
    let log = hw::radio(log, RadioOp::ShortDisabledTxen(false));
    let log = hw::radio(log, RadioOp::ShortDisabledRxen(false));
    let log = hw::radio(log, RadioOp::EnableDisabledInterrupt);
    let log = hw::radio(log, RadioOp::TxAddress(pipe));
    let log = hw::radio(log, RadioOp::PacketPtr(dma));
    let log = clear_events_log(log);
    let log = hw::radio(log, RadioOp::Fence(FenceOrder::Release));
    hw::radio(log, RadioOp::Txen)
}

/// Returning to reception after an ACK that the radio turns from by itself.
pub open spec fn complete_rx_ack_log(log: Seq<HwOp>, dma: DmaBuffer) -> Seq<HwOp> {
    let log = hw::radio(log, RadioOp::Fence(FenceOrder::SeqCst));
    let log = hw::radio(log, RadioOp::PacketPtr(dma));
    let log = hw::radio(log, RadioOp::ShortDisabledRxen(false));
    hw::radio(log, RadioOp::ShortDisabledTxen(true))
}

/// Returning to reception after a packet that asked for no ACK.
pub open spec fn complete_rx_no_ack_log(log: Seq<HwOp>, dma: DmaBuffer) -> Seq<HwOp> {
    let log = hw::radio(log, RadioOp::PacketPtr(dma));
    let log = hw::radio(log, RadioOp::ShortDisabledTxen(true));
    let log = hw::radio(log, RadioOp::EnableDisabledInterrupt);
    let log = hw::radio(log, RadioOp::Fence(FenceOrder::Release));
    hw::radio(log, RadioOp::Rxen)
}

/// Power-cycling the radio.
pub open spec fn power_cycle_log(log: Seq<HwOp>) -> Seq<HwOp> {
    let log = hw::radio(log, RadioOp::Power(false));
    hw::radio(log, RadioOp::Power(true))
}

impl EsbRadio {
    /// A radio layer that has received nothing.
    pub open spec fn fresh(fast_ramp_up: bool) -> EsbRadio {
        EsbRadio {
            fast_ramp_up,
            last_crc: [0u16; MAX_PIPES],
            last_pid: [0u8; MAX_PIPES],
            last_valid: [false; MAX_PIPES],
        }
    }

    /// A packet with this PID and CRC is a copy of the last one on its pipe.
    pub open spec fn is_duplicate(self, pipe: int, pid: u8, crc: u16) -> bool {
        0 <= pipe < 8 && self.last_valid@[pipe] && self.last_crc@[pipe] == crc
            && self.last_pid@[pipe] == pid
    }

    /// The layer after a packet with this PID and CRC was accepted on `pipe`.
    pub open spec fn detecting(self, pipe: int, pid: u8, crc: u16) -> EsbRadio {
        if 0 <= pipe < 8 {
            EsbRadio {
                last_crc: vstd::array::spec_array_update(self.last_crc, pipe, crc),
                last_pid: vstd::array::spec_array_update(self.last_pid, pipe, pid),
                last_valid: vstd::array::spec_array_update(self.last_valid, pipe, true),
                ..self
            }
        } else {
            self
        }
    }

    /// Create a new radio layer.
    pub fn new(fast_ramp_up: bool) -> (r: Self)
        ensures
            r == EsbRadio::fresh(fast_ramp_up),
    {
        EsbRadio {
            fast_ramp_up,
            last_crc: [0u16; MAX_PIPES],
            last_pid: [0u8; MAX_PIPES],
            last_valid: [false; MAX_PIPES],
        }
    }

    /// Full register initialization for ESB mode.
    pub fn init(&self, config: &EsbConfig, addresses: &EsbAddresses, ops: &mut Vec<HwOp>)
        ensures
            final(ops)@ == init_log(old(ops)@, self.fast_ramp_up, *config, *addresses),
    {
        ops.push(HwOp::Radio(RadioOp::ClearInterrupts));
        ops.push(HwOp::Radio(RadioOp::Mode(config.bitrate)));
        ops.push(
            HwOp::Radio(
                RadioOp::Shorts(
                    RadioShorts {
                        ready_start: true,
                        end_disable: true,
                        address_rssistart: true,
                        disabled_rssistop: true,
                    },
                ),
            ),
        );
        if self.fast_ramp_up {
            ops.push(HwOp::Radio(RadioOp::FastRampUp));
        }
        ops.push(HwOp::Radio(RadioOp::TxPower(config.tx_power.to_pac())));
        // S1: bits 2:1 = PID, bit 0 = NO_ACK.
        ops.push(HwOp::Radio(RadioOp::Pcnf0 { length_bits: 8, s1_bits: 3 }));
        ops.push(
            HwOp::Radio(
                RadioOp::Pcnf1 {
                    max_len: config.payload_length,
                    base_len: 4,
                    static_len: 0,
                    big_endian: true,
                },
            ),
        );
        ops.push(HwOp::Radio(RadioOp::CrcInit(config.crc.init as u32)));
        ops.push(HwOp::Radio(RadioOp::CrcPoly(config.crc.poly_register())));
        ops.push(
            HwOp::Radio(RadioOp::CrcCnf { len: config.crc.length, skip_address: false }),
        );
        ops.push(HwOp::Radio(RadioOp::Base0(addresses.base0_reg())));
        ops.push(HwOp::Radio(RadioOp::Base1(addresses.base1_reg())));
        ops.push(HwOp::Radio(RadioOp::Prefix0(addresses.prefix0_reg())));
        ops.push(HwOp::Radio(RadioOp::Prefix1(addresses.prefix1_reg())));
        ops.push(HwOp::Radio(RadioOp::Frequency(config.channel.0)));
    }

    /// Clear EVENTS_DISABLED to prevent a retrigger.
    pub fn clear_disabled_event(&self, ops: &mut Vec<HwOp>)
        ensures
            final(ops)@ == hw::radio(old(ops)@, RadioOp::ClearEvent(RadioEvent::Disabled)),
    {
        ops.push(HwOp::Radio(RadioOp::ClearEvent(RadioEvent::Disabled)));
    }

    /// Disable the DISABLED interrupt.
    pub fn disable_disabled_interrupt(&self, ops: &mut Vec<HwOp>)
        ensures
            final(ops)@ == hw::radio(old(ops)@, RadioOp::DisableDisabledInterrupt),
    {
        ops.push(HwOp::Radio(RadioOp::DisableDisabledInterrupt));
    }

    /// Clear the events of a transfer, before a task is triggered: a shortcut
    /// of an event that is already set fires at once.
    fn clear_events(&self, ops: &mut Vec<HwOp>)
        ensures
            final(ops)@ == clear_events_log(old(ops)@),
    {
        ops.push(HwOp::Radio(RadioOp::ClearEvent(RadioEvent::Address)));
        ops.push(HwOp::Radio(RadioOp::ClearEvent(RadioEvent::Disabled)));
        ops.push(HwOp::Radio(RadioOp::ClearEvent(RadioEvent::Ready)));
        ops.push(HwOp::Radio(RadioOp::ClearEvent(RadioEvent::End)));
        ops.push(HwOp::Radio(RadioOp::ClearEvent(RadioEvent::Payload)));
    }

    /// Stop the radio: no turn to RX or TX, disable, and wait until it is.
    pub fn stop(&self, ops: &mut Vec<HwOp>)
        ensures
            final(ops)@ == stop_log(old(ops)@),
    {
        ops.push(HwOp::Radio(RadioOp::ShortDisabledRxen(false)));
        ops.push(HwOp::Radio(RadioOp::ShortDisabledTxen(false)));
        ops.push(HwOp::Radio(RadioOp::DisableDisabledInterrupt));
        ops.push(HwOp::Radio(RadioOp::Disable));
        ops.push(HwOp::Radio(RadioOp::WaitDisabled));
        ops.push(HwOp::Radio(RadioOp::ClearEvent(RadioEvent::Disabled)));
        ops.push(HwOp::Radio(RadioOp::Fence(FenceOrder::Acquire)));
    }

    /// Start a transmission on `pipe`. With `ack` the radio turns to RX by
    /// itself after it; without, it stays disabled.
    pub fn transmit(&self, pipe: u8, dma: DmaBuffer, ack: bool, ops: &mut Vec<HwOp>)
        ensures
            final(ops)@ == transmit_log(old(ops)@, pipe, dma, ack),
    {
        if ack {
            ops.push(HwOp::Radio(RadioOp::ShortDisabledRxen(true)));
        }
        ops.push(HwOp::Radio(RadioOp::EnableDisabledInterrupt));
        ops.push(HwOp::Radio(RadioOp::TxAddress(pipe)));
        ops.push(HwOp::Radio(RadioOp::RxAddresses(1u32 << (pipe % 32))));
        ops.push(HwOp::Radio(RadioOp::PacketPtr(dma)));
        self.clear_events(ops);
        ops.push(HwOp::Radio(RadioOp::Fence(FenceOrder::Release)));
        ops.push(HwOp::Radio(RadioOp::Txen));
    }

    /// Finish a transmission for which no ACK was requested.
    pub fn finish_tx_no_ack(&self, ops: &mut Vec<HwOp>)
        ensures
            final(ops)@ == finish_tx_no_ack_log(old(ops)@),
    {
        ops.push(HwOp::Radio(RadioOp::Fence(FenceOrder::SeqCst)));
        self.disable_disabled_interrupt(ops);
    }

    /// Set up the buffer for the ACK right after a transmission, before the
    /// radio has ramped up to RX.
    pub fn prepare_for_ack(&self, dma: DmaBuffer, ops: &mut Vec<HwOp>)
        ensures
            final(ops)@ == prepare_for_ack_log(old(ops)@, dma),
    {
        ops.push(HwOp::Radio(RadioOp::ClearEvent(RadioEvent::Ready)));
        ops.push(HwOp::Radio(RadioOp::Fence(FenceOrder::Release)));
        ops.push(HwOp::Radio(RadioOp::PacketPtr(dma)));
        ops.push(HwOp::Radio(RadioOp::ExpectNotReady));
        ops.push(HwOp::Radio(RadioOp::ShortDisabledRxen(false)));
    }

    /// Start listening on `enabled_pipes`. After a packet the radio turns to
    /// TX by itself for the ACK.
    pub fn start_receiving(&self, enabled_pipes: u8, dma: DmaBuffer, ops: &mut Vec<HwOp>)
        ensures
            final(ops)@ == start_receiving_log(old(ops)@, enabled_pipes, dma),
    {
        ops.push(HwOp::Radio(RadioOp::ShortDisabledTxen(true)));
        ops.push(HwOp::Radio(RadioOp::EnableDisabledInterrupt));
        ops.push(HwOp::Radio(RadioOp::RxAddresses(enabled_pipes as u32)));
        ops.push(HwOp::Radio(RadioOp::PacketPtr(dma)));
        self.clear_events(ops);
        ops.push(HwOp::Radio(RadioOp::Fence(FenceOrder::Release)));
        ops.push(HwOp::Radio(RadioOp::Rxen));
    }

    /// Start listening on `enabled_pipes`. After a packet the radio stays
    /// disabled until the ACK is started.
    pub fn start_receiving_manual_ack(
        &self,
        enabled_pipes: u8,
        dma: DmaBuffer,
        ops: &mut Vec<HwOp>,
    )
        ensures
            final(ops)@ == start_receiving_manual_log(old(ops)@, enabled_pipes, dma),
    {
        ops.push(HwOp::Radio(RadioOp::ShortDisabledTxen(false)));
        ops.push(HwOp::Radio(RadioOp::ShortDisabledRxen(false)));
        ops.push(HwOp::Radio(RadioOp::EnableDisabledInterrupt));
        ops.push(HwOp::Radio(RadioOp::RxAddresses(enabled_pipes as u32)));
        ops.push(HwOp::Radio(RadioOp::PacketPtr(dma)));
        self.clear_events(ops);
        ops.push(HwOp::Radio(RadioOp::Fence(FenceOrder::Release)));
        ops.push(HwOp::Radio(RadioOp::Rxen));
    }

    /// Check a received packet whose header holds PID `pid`.
    ///
    /// On a CRC failure the radio is restarted with the same buffer.
    pub fn check_packet(&self, status: RxStatus, pid: u8, ops: &mut Vec<HwOp>) -> (r: RxResult)
        ensures
            r == (if !status.crc_ok {
                RxResult::BadCrc
            } else if self.is_duplicate(status.pipe as int, pid, status.crc) {
                RxResult::Duplicate
            } else {
                RxResult::NewPacket
            }),
            final(ops)@ == (if status.crc_ok {
                accept_packet_log(old(ops)@)
            } else {
                restart_after_bad_crc_log(old(ops)@)
            }),
    {
        if !status.crc_ok {
            self.stop(ops);
            ops.push(HwOp::Radio(RadioOp::ShortDisabledTxen(true)));
            ops.push(HwOp::Radio(RadioOp::EnableDisabledInterrupt));
            ops.push(HwOp::Radio(RadioOp::Fence(FenceOrder::Release)));
            ops.push(HwOp::Radio(RadioOp::Rxen));
            return RxResult::BadCrc;
        }
        ops.push(HwOp::Radio(RadioOp::Fence(FenceOrder::Acquire)));
        ops.push(HwOp::Radio(RadioOp::ClearEvent(RadioEvent::Ready)));
        if self.check_duplicate(status.pipe as usize, pid, status.crc) {
            RxResult::Duplicate
        } else {
            RxResult::NewPacket
        }
    }

    /// Whether a packet repeats the last one on its pipe.
    pub fn check_duplicate(&self, pipe: usize, pid: u8, crc: u16) -> (dup: bool)
        ensures
            dup == self.is_duplicate(pipe as int, pid, crc),
    {
        pipe < MAX_PIPES && self.last_valid[pipe] && self.last_crc[pipe] == crc
            && self.last_pid[pipe] == pid
    }

    /// Remember an accepted packet for duplicate detection.
    pub fn update_detection(&mut self, pipe: usize, pid: u8, crc: u16)
        ensures
            *final(self) == old(self).detecting(pipe as int, pid, crc),
    {
        if pipe < MAX_PIPES {
            self.last_crc[pipe] = crc;
            self.last_pid[pipe] = pid;
            self.last_valid[pipe] = true;
        }
    }

    /// Set up an ACK on `pipe` while the radio ramps up to TX by itself.
    pub fn setup_ack_tx(&self, pipe: u8, ack_dma: DmaBuffer, ops: &mut Vec<HwOp>)
        ensures
            final(ops)@ == setup_ack_tx_log(old(ops)@, pipe, ack_dma),
    {
        ops.push(HwOp::Radio(RadioOp::TxAddress(pipe)));
        ops.push(HwOp::Radio(RadioOp::Fence(FenceOrder::Release)));
        ops.push(HwOp::Radio(RadioOp::PacketPtr(ack_dma)));
        ops.push(HwOp::Radio(RadioOp::ExpectNotReady));
        ops.push(HwOp::Radio(RadioOp::ShortDisabledTxen(false)));
        ops.push(HwOp::Radio(RadioOp::ShortDisabledRxen(true)));
    }

    /// Set up an empty ACK.
    pub fn setup_ack_tx_fallback(&self, pipe: u8, ops: &mut Vec<HwOp>)
        ensures
            final(ops)@ == setup_ack_tx_log(old(ops)@, pipe, DmaBuffer::FallbackAck),
    {
        self.setup_ack_tx(pipe, DmaBuffer::FallbackAck, ops);
    }

    /// Start an ACK on `pipe` under software control.
    pub fn transmit_ack_manual(&self, pipe: u8, ack_dma: DmaBuffer, ops: &mut Vec<HwOp>)
        ensures
            final(ops)@ == transmit_ack_manual_log(old(ops)@, pipe, ack_dma),
    {
        ops.push(HwOp::Radio(RadioOp::ShortDisabledTxen(false)));
        ops.push(HwOp::Radio(RadioOp::ShortDisabledRxen(false)));
        ops.push(HwOp::Radio(RadioOp::EnableDisabledInterrupt));
        ops.push(HwOp::Radio(RadioOp::TxAddress(pipe)));
        ops.push(HwOp::Radio(RadioOp::PacketPtr(ack_dma)));
        self.clear_events(ops);
        ops.push(HwOp::Radio(RadioOp::Fence(FenceOrder::Release)));
        ops.push(HwOp::Radio(RadioOp::Txen));
    }

    /// Start an empty ACK under software control.
    pub fn transmit_ack_manual_fallback(&self, pipe: u8, ops: &mut Vec<HwOp>)
        ensures
            final(ops)@ == transmit_ack_manual_log(old(ops)@, pipe, DmaBuffer::FallbackAck),
    {
        self.transmit_ack_manual(pipe, DmaBuffer::FallbackAck, ops);
    }

    /// Stop the radio before an ACK that was not asked for goes out.
    pub fn stop_prx_no_ack(&self, ops: &mut Vec<HwOp>)
        ensures
            final(ops)@ == stop_log(old(ops)@),
    {
        self.stop(ops);
    }

    /// After an ACK: set up the next receive buffer.
    pub fn complete_rx_ack(&self, rx_dma: DmaBuffer, ops: &mut Vec<HwOp>)
        ensures
            final(ops)@ == complete_rx_ack_log(old(ops)@, rx_dma),
    {
        ops.push(HwOp::Radio(RadioOp::Fence(FenceOrder::SeqCst)));
        ops.push(HwOp::Radio(RadioOp::PacketPtr(rx_dma)));
        ops.push(HwOp::Radio(RadioOp::ShortDisabledRxen(false)));
        ops.push(HwOp::Radio(RadioOp::ShortDisabledTxen(true)));
    }

    /// After a packet that asked for no ACK: restart reception.
    pub fn complete_rx_no_ack(&self, rx_dma: DmaBuffer, ops: &mut Vec<HwOp>)
        ensures
            final(ops)@ == complete_rx_no_ack_log(old(ops)@, rx_dma),
    {
        ops.push(HwOp::Radio(RadioOp::PacketPtr(rx_dma)));
        ops.push(HwOp::Radio(RadioOp::ShortDisabledTxen(true)));
        ops.push(HwOp::Radio(RadioOp::EnableDisabledInterrupt));
        ops.push(HwOp::Radio(RadioOp::Fence(FenceOrder::Release)));
        ops.push(HwOp::Radio(RadioOp::Rxen));
    }

    /// Forget every packet.
    pub fn reset_detection_state(&mut self)
        ensures
            *final(self) == EsbRadio::fresh(old(self).fast_ramp_up),
    {
        self.last_crc = [0u16; MAX_PIPES];
        self.last_pid = [0u8; MAX_PIPES];
        self.last_valid = [false; MAX_PIPES];
    }

    /// Per-pipe PIDs, for suspend.
    pub fn save_pid_state(&self) -> (pid: [u8; MAX_PIPES])
        ensures
            pid == self.last_pid,
    {
        self.last_pid
    }

    /// Per-pipe CRCs, for suspend.
    pub fn save_crc_state(&self) -> (crc: [u16; MAX_PIPES])
        ensures
            crc == self.last_crc,
    {
        self.last_crc
    }

    /// Which pipes have received, for suspend.
    pub fn save_detection_valid_state(&self) -> (valid: [bool; MAX_PIPES])
        ensures
            valid == self.last_valid,
    {
        self.last_valid
    }

    /// Restore per-pipe PIDs after resume.
    pub fn restore_pid_state(&mut self, pid: [u8; MAX_PIPES])
        ensures
            *final(self) == (EsbRadio { last_pid: pid, ..*old(self) }),
    {
        self.last_pid = pid;
    }

    /// Restore per-pipe CRCs after resume.
    pub fn restore_crc_state(&mut self, crc: [u16; MAX_PIPES])
        ensures
            *final(self) == (EsbRadio { last_crc: crc, ..*old(self) }),
    {
        self.last_crc = crc;
    }

    /// Restore which pipes have received after resume.
    pub fn restore_detection_valid_state(&mut self, valid: [bool; MAX_PIPES])
        ensures
            *final(self) == (EsbRadio { last_valid: valid, ..*old(self) }),
    {
        self.last_valid = valid;
    }

    /// Power-cycle the peripheral, which resets all of its registers.
    pub fn power_cycle(&self, ops: &mut Vec<HwOp>)
        ensures
            final(ops)@ == power_cycle_log(old(ops)@),
    {
        ops.push(HwOp::Radio(RadioOp::Power(false)));
        ops.push(HwOp::Radio(RadioOp::Power(true)));
    }
}

} // verus!
