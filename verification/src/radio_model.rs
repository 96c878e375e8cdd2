//! What the radio does with the operations of a log.
//!
//! The model covers the registers that the protocol relies on. The laws say
//! what a whole operation of the driver amounts to.

use crate::addresses::EsbAddresses;
use crate::config::{Bitrate, EsbConfig};
use crate::hw::{DmaBuffer, HwOp, RadioEvent, RadioOp, RadioShorts};
use crate::radio;
use crate::radio::EsbRadio;
use vstd::prelude::*;

verus! {

/// What the radio is doing.
pub enum Activity {
    /// Disabled.
    Disabled,
    /// Transmitting, or ramping up to it.
    Tx,
    /// Receiving, or ramping up to it.
    Rx,
}

/// The radio's registers, as far as the protocol relies on them.
pub struct RadioRegs {
    /// What the radio is doing.
    pub activity: Activity,
    /// The DISABLED interrupt is enabled.
    pub interrupt: bool,
    /// DISABLED starts RX.
    pub disabled_rxen: bool,
    /// DISABLED starts TX.
    pub disabled_txen: bool,
    /// The standing shortcuts.
    pub shorts: RadioShorts,
    /// TXADDRESS.
    pub tx_address: u8,
    /// RXADDRESSES.
    pub rx_addresses: u32,
    /// PACKETPTR.
    pub packet: Option<DmaBuffer>,
    /// EVENTS_DISABLED may still be set from before.
    pub stale_disabled: bool,
    /// Fast ramp-up.
    pub fast: bool,
    /// MODE.
    pub mode: Bitrate,
    /// TXPOWER.
    pub tx_power: u8,
    /// PCNF0: LENGTH and S1 widths.
    pub field_bits: (u8, u8),
    /// PCNF1: MAXLEN, BALEN, STATLEN, big-endian bit order.
    pub lengths: (u8, u8, u8, bool),
    /// CRCINIT, CRCPOLY, CRC length, address left out.
    pub crc: (u32, u32, u8, bool),
    /// BASE0, BASE1, PREFIX0, PREFIX1.
    pub address: (u32, u32, u32, u32),
    /// FREQUENCY.
    pub frequency: u8,
}

/// No shortcut stands.
pub open spec fn no_shorts() -> RadioShorts {
    RadioShorts {
        ready_start: false,
        end_disable: false,
        address_rssistart: false,
        disabled_rssistop: false,
    }
}

/// The radio after one operation.
pub open spec fn radio_step(r: RadioRegs, op: HwOp) -> RadioRegs {
    match op {
        HwOp::Radio(op) => match op {
            RadioOp::ClearInterrupts => RadioRegs { interrupt: false, ..r },
            RadioOp::Mode(b) => RadioRegs { mode: b, ..r },
            RadioOp::Shorts(shorts) => RadioRegs {
                shorts,
                disabled_rxen: false,
                disabled_txen: false,
                ..r
            },
            RadioOp::ShortDisabledRxen(on) => RadioRegs { disabled_rxen: on, ..r },
            RadioOp::ShortDisabledTxen(on) => RadioRegs { disabled_txen: on, ..r },
            RadioOp::ShortReadyStart(on) => RadioRegs {
                shorts: RadioShorts { ready_start: on, ..r.shorts },
                ..r
            },
            RadioOp::ShortEndDisable(on) => RadioRegs {
                shorts: RadioShorts { end_disable: on, ..r.shorts },
                ..r
            },
            RadioOp::FastRampUp => RadioRegs { fast: true, ..r },
            RadioOp::TxPower(p) => RadioRegs { tx_power: p, ..r },
            RadioOp::Pcnf0 { length_bits, s1_bits } => RadioRegs {
                field_bits: (length_bits, s1_bits),
                ..r
            },
            RadioOp::Pcnf1 { max_len, base_len, static_len, big_endian } => RadioRegs {
                lengths: (max_len, base_len, static_len, big_endian),
                ..r
            },
            RadioOp::CrcInit(v) => RadioRegs { crc: (v, r.crc.1, r.crc.2, r.crc.3), ..r },
            RadioOp::CrcPoly(v) => RadioRegs { crc: (r.crc.0, v, r.crc.2, r.crc.3), ..r },
            RadioOp::CrcCnf { len, skip_address } => RadioRegs {
                crc: (r.crc.0, r.crc.1, len, skip_address),
                ..r
            },
            RadioOp::Base0(v) => RadioRegs {
                address: (v, r.address.1, r.address.2, r.address.3),
                ..r
            },
            RadioOp::Base1(v) => RadioRegs {
                address: (r.address.0, v, r.address.2, r.address.3),
                ..r
            },
            RadioOp::Prefix0(v) => RadioRegs {
                address: (r.address.0, r.address.1, v, r.address.3),
                ..r
            },
            RadioOp::Prefix1(v) => RadioRegs {
                address: (r.address.0, r.address.1, r.address.2, v),
                ..r
            },
            RadioOp::Frequency(f) => RadioRegs { frequency: f, ..r },
            RadioOp::EnableDisabledInterrupt => RadioRegs { interrupt: true, ..r },
            RadioOp::DisableDisabledInterrupt => RadioRegs { interrupt: false, ..r },
            RadioOp::TxAddress(p) => RadioRegs { tx_address: p, ..r },
            RadioOp::RxAddresses(m) => RadioRegs { rx_addresses: m, ..r },
            RadioOp::PacketPtr(b) => RadioRegs { packet: Some(b), ..r },
            RadioOp::ClearEvent(RadioEvent::Disabled) => RadioRegs { stale_disabled: false, ..r },
            RadioOp::Txen => RadioRegs { activity: Activity::Tx, ..r },
            RadioOp::Rxen => RadioRegs { activity: Activity::Rx, ..r },
            RadioOp::WaitDisabled => RadioRegs {
                activity: Activity::Disabled,
                stale_disabled: true,
                ..r
            },
            RadioOp::Power(on) => RadioRegs {
                activity: Activity::Disabled,
                interrupt: false,
                disabled_rxen: false,
                disabled_txen: false,
                shorts: no_shorts(),
                packet: None,
                stale_disabled: false,
                fast: false,
                ..r
            },
            _ => r,
        },
        _ => r,
    }
}

/// The radio after the operations of a log, oldest first.
#[verifier::opaque]
pub open spec fn radio_after(r: RadioRegs, log: Seq<HwOp>) -> RadioRegs
    decreases log.len(),
{
    if log.len() == 0 {
        r
    } else {
        radio_step(radio_after(r, log.drop_last()), log.last())
    }
}

/// One more operation on a log is one more step of the radio.
pub broadcast proof fn lemma_radio_push(r: RadioRegs, log: Seq<HwOp>, op: HwOp)
    ensures
        #[trigger] radio_after(r, log.push(op)) == radio_step(radio_after(r, log), op),
{
    reveal(radio_after);
    assert(log.push(op).drop_last() =~= log);
}

/// What stopping the radio changes.
pub proof fn lemma_stop(r: RadioRegs, log: Seq<HwOp>)
    ensures
        radio_after(r, radio::stop_log(log)) == (RadioRegs {
            activity: Activity::Disabled,
            interrupt: false,
            disabled_rxen: false,
            disabled_txen: false,
            stale_disabled: false,
            ..radio_after(r, log)
        }),
{
    broadcast use lemma_radio_push;

}

/// What a transmission changes.
pub proof fn lemma_transmit(r: RadioRegs, log: Seq<HwOp>, pipe: u8, dma: DmaBuffer, ack: bool)
    ensures
        radio_after(r, radio::transmit_log(log, pipe, dma, ack)) == (RadioRegs {
            activity: Activity::Tx,
            interrupt: true,
            disabled_rxen: ack || radio_after(r, log).disabled_rxen,
            tx_address: pipe,
            rx_addresses: radio::pipe_mask(pipe),
            packet: Some(dma),
            stale_disabled: false,
            ..radio_after(r, log)
        }),
{
    broadcast use lemma_radio_push;

}

/// What the end of a transmission without an ACK changes.
pub proof fn lemma_finish_tx_no_ack(r: RadioRegs, log: Seq<HwOp>)
    ensures
        radio_after(r, radio::finish_tx_no_ack_log(log)) == (RadioRegs {
            interrupt: false,
            ..radio_after(r, log)
        }),
{
    broadcast use lemma_radio_push;

}

/// What turning to the ACK changes.
pub proof fn lemma_prepare_for_ack(r: RadioRegs, log: Seq<HwOp>, dma: DmaBuffer)
    ensures
        radio_after(r, radio::prepare_for_ack_log(log, dma)) == (RadioRegs {
            disabled_rxen: false,
            packet: Some(dma),
            ..radio_after(r, log)
        }),
{
    broadcast use lemma_radio_push;

}

/// What starting to receive changes.
pub proof fn lemma_start_receiving(r: RadioRegs, log: Seq<HwOp>, pipes: u8, dma: DmaBuffer)
    ensures
        radio_after(r, radio::start_receiving_log(log, pipes, dma)) == (RadioRegs {
            activity: Activity::Rx,
            interrupt: true,
            disabled_txen: true,
            rx_addresses: pipes as u32,
            packet: Some(dma),
            stale_disabled: false,
            ..radio_after(r, log)
        }),
{
    broadcast use lemma_radio_push;

}

/// What starting to receive changes, with the turn to the ACK left to software.
pub proof fn lemma_start_receiving_manual(
    r: RadioRegs,
    log: Seq<HwOp>,
    pipes: u8,
    dma: DmaBuffer,
)
    ensures
        radio_after(r, radio::start_receiving_manual_log(log, pipes, dma)) == (RadioRegs {
            activity: Activity::Rx,
            interrupt: true,
            disabled_rxen: false,
            disabled_txen: false,
            rx_addresses: pipes as u32,
            packet: Some(dma),
            stale_disabled: false,
            ..radio_after(r, log)
        }),
{
    broadcast use lemma_radio_push;

}

/// What restarting after a bad CRC changes.
pub proof fn lemma_restart_after_bad_crc(r: RadioRegs, log: Seq<HwOp>)
    ensures
        radio_after(r, radio::restart_after_bad_crc_log(log)) == (RadioRegs {
            activity: Activity::Rx,
            interrupt: true,
            disabled_rxen: false,
            disabled_txen: true,
            stale_disabled: false,
            ..radio_after(r, log)
        }),
{
    lemma_stop(r, log);
    broadcast use lemma_radio_push;

}

/// What accepting a packet changes: nothing that the protocol relies on.
pub proof fn lemma_accept_packet(r: RadioRegs, log: Seq<HwOp>)
    ensures
        radio_after(r, radio::accept_packet_log(log)) == radio_after(r, log),
{
    broadcast use lemma_radio_push;

}

/// What setting up an ACK changes.
pub proof fn lemma_setup_ack_tx(r: RadioRegs, log: Seq<HwOp>, pipe: u8, dma: DmaBuffer)
    ensures
        radio_after(r, radio::setup_ack_tx_log(log, pipe, dma)) == (RadioRegs {
            disabled_rxen: true,
            disabled_txen: false,
            tx_address: pipe,
            packet: Some(dma),
            ..radio_after(r, log)
        }),
{
    broadcast use lemma_radio_push;

}

/// What sending an ACK under software control changes.
pub proof fn lemma_transmit_ack_manual(r: RadioRegs, log: Seq<HwOp>, pipe: u8, dma: DmaBuffer)
    ensures
        radio_after(r, radio::transmit_ack_manual_log(log, pipe, dma)) == (RadioRegs {
            activity: Activity::Tx,
            interrupt: true,
            disabled_rxen: false,
            disabled_txen: false,
            tx_address: pipe,
            packet: Some(dma),
            stale_disabled: false,
            ..radio_after(r, log)
        }),
{
    broadcast use lemma_radio_push;

}

/// What returning to reception changes after an ACK.
pub proof fn lemma_complete_rx_ack(r: RadioRegs, log: Seq<HwOp>, dma: DmaBuffer)
    ensures
        radio_after(r, radio::complete_rx_ack_log(log, dma)) == (RadioRegs {
            disabled_rxen: false,
            disabled_txen: true,
            packet: Some(dma),
            ..radio_after(r, log)
        }),
{
    broadcast use lemma_radio_push;

}

/// What returning to reception changes without an ACK.
pub proof fn lemma_complete_rx_no_ack(r: RadioRegs, log: Seq<HwOp>, dma: DmaBuffer)
    ensures
        radio_after(r, radio::complete_rx_no_ack_log(log, dma)) == (RadioRegs {
            activity: Activity::Rx,
            interrupt: true,
            disabled_txen: true,
            packet: Some(dma),
            ..radio_after(r, log)
        }),
{
    broadcast use lemma_radio_push;

}

/// Configuring a freshly powered radio's mode.
proof fn lemma_mode(r: RadioRegs, log: Seq<HwOp>, fast: bool, config: EsbConfig)
    ensures
        ({
            let after = radio_after(
                r,
                radio::mode_log(radio::power_cycle_log(log), fast, config),
            );
            &&& after.mode == config.bitrate
            &&& after.tx_power == config.tx_power.register()
            &&& after.fast == fast
            &&& after.shorts == (RadioShorts {
                ready_start: true,
                end_disable: true,
                address_rssistart: true,
                disabled_rssistop: true,
            })
            &&& !after.disabled_rxen && !after.disabled_txen
            &&& !after.interrupt && after.activity is Disabled
        }),
{
    broadcast use lemma_radio_push;

}

/// Configuring the packet format of a radio leaves the rest as it is.
proof fn lemma_format(r: RadioRegs, log: Seq<HwOp>, config: EsbConfig, addresses: EsbAddresses)
    ensures
        radio_after(r, radio::format_log(log, config, addresses)) == (RadioRegs {
            field_bits: (8u8, 3u8),
            lengths: (config.payload_length, 4u8, 0u8, true),
            crc: (config.crc.init as u32, config.crc.polynomial(), config.crc.length, false),
            address: (
                addresses.base0_word(),
                addresses.base1_word(),
                addresses.prefix0_word(),
                addresses.prefix1_word(),
            ),
            frequency: config.channel.0,
            ..radio_after(r, log)
        }),
{
    broadcast use lemma_radio_push;

}

/// Configuring a freshly powered radio sets every protocol register from the
/// configuration and the addresses: 8-bit LENGTH and 3-bit S1 field, 4-byte
/// base address, big-endian bit order, the configured CRC over address and packet, the
/// four standing shortcuts, and no automatic turn between RX and TX.
pub proof fn law_init_programs_registers(
    r: RadioRegs,
    log: Seq<HwOp>,
    fast: bool,
    config: EsbConfig,
    addresses: EsbAddresses,
)
    ensures
        ({
            let after = radio_after(r, radio::init_log(radio::power_cycle_log(log), fast, config, addresses));
            &&& after.mode == config.bitrate
            &&& after.tx_power == config.tx_power.register()
            &&& after.field_bits == (8u8, 3u8)
            &&& after.lengths == (config.payload_length, 4u8, 0u8, true)
            &&& after.crc == (
                config.crc.init as u32,
                config.crc.polynomial(),
                config.crc.length,
                false,
            )
            &&& after.address == (
                addresses.base0_word(),
                addresses.base1_word(),
                addresses.prefix0_word(),
                addresses.prefix1_word(),
            )
            &&& after.frequency == config.channel.0
            &&& after.fast == fast
            &&& after.shorts == (RadioShorts {
                ready_start: true,
                end_disable: true,
                address_rssistart: true,
                disabled_rssistop: true,
            })
            &&& !after.disabled_rxen && !after.disabled_txen
            &&& !after.interrupt && after.activity is Disabled
        }),
{
    lemma_mode(r, log, fast, config);
    lemma_format(
        r,
        radio::mode_log(radio::power_cycle_log(log), fast, config),
        config,
        addresses,
    );
}

/// A stopped radio is disabled, raises no interrupt, and does not start again
/// by itself.
pub proof fn law_stop_quiesces(r: RadioRegs, log: Seq<HwOp>)
    ensures
        ({
            let after = radio_after(r, radio::stop_log(log));
            after.activity is Disabled && !after.interrupt && !after.disabled_rxen
                && !after.disabled_txen && !after.stale_disabled
        }),
{
    broadcast use lemma_radio_push;

}

/// A transmission goes out on its pipe from its buffer, its end interrupts,
/// and the radio turns to RX on that pipe alone exactly when an ACK is wanted.
pub proof fn law_transmit(r: RadioRegs, log: Seq<HwOp>, pipe: u8, dma: DmaBuffer, ack: bool)
    requires
        !radio_after(r, log).disabled_rxen,
    ensures
        ({
            let after = radio_after(r, radio::transmit_log(log, pipe, dma, ack));
            &&& after.activity is Tx
            &&& after.interrupt && !after.stale_disabled
            &&& after.tx_address == pipe
            &&& after.rx_addresses == radio::pipe_mask(pipe)
            &&& after.packet == Some(dma)
            &&& after.disabled_rxen == ack
        }),
{
    broadcast use lemma_radio_push;

}

/// After the turn to the ACK the radio receives into the ACK buffer and will
/// not turn to RX a second time.
pub proof fn law_prepare_for_ack(r: RadioRegs, log: Seq<HwOp>, dma: DmaBuffer)
    ensures
        ({
            let after = radio_after(r, radio::prepare_for_ack_log(log, dma));
            after.packet == Some(dma) && !after.disabled_rxen
        }),
{
    broadcast use lemma_radio_push;

}

/// Starting reception points the radio at the buffer, listens on the pipes that
/// were asked for, interrupts, and arms the turn to the ACK.
pub proof fn law_receive(r: RadioRegs, log: Seq<HwOp>, pipes: u8, dma: DmaBuffer)
    ensures
        ({
            let after = radio_after(r, radio::start_receiving_log(log, pipes, dma));
            after.activity is Rx && after.interrupt && after.rx_addresses == pipes && after.packet
                == Some(dma) && after.disabled_txen
        }),
{
    broadcast use lemma_radio_push;

}

/// With the turn to the ACK left to software, reception starts in the same way
/// and the radio turns to nothing by itself.
pub proof fn law_receive_manual(r: RadioRegs, log: Seq<HwOp>, pipes: u8, dma: DmaBuffer)
    ensures
        ({
            let after = radio_after(r, radio::start_receiving_manual_log(log, pipes, dma));
            after.activity is Rx && after.interrupt && after.rx_addresses == pipes && after.packet
                == Some(dma) && !after.disabled_txen && !after.disabled_rxen
        }),
{
    broadcast use lemma_radio_push;

}

/// A packet with a bad CRC restarts reception into the same buffer on the same
/// pipes, and no ACK goes out for it.
pub proof fn law_bad_crc_restarts(r: RadioRegs, log: Seq<HwOp>)
    ensures
        ({
            let before = radio_after(r, log);
            let after = radio_after(r, radio::restart_after_bad_crc_log(log));
            &&& after.activity is Rx && after.interrupt && after.disabled_txen
                && !after.disabled_rxen
            &&& after.packet == before.packet && after.rx_addresses == before.rx_addresses
        }),
{
    broadcast use lemma_radio_push;

}

/// An ACK goes out on the pipe that it answers, from its buffer, and exactly
/// one of the two automatic turns is armed afterwards: from TX back to RX. Under
/// software control none is.
pub proof fn law_ack(r: RadioRegs, log: Seq<HwOp>, pipe: u8, dma: DmaBuffer)
    ensures
        ({
            let auto = radio_after(r, radio::setup_ack_tx_log(log, pipe, dma));
            let manual = radio_after(r, radio::transmit_ack_manual_log(log, pipe, dma));
            &&& auto.tx_address == pipe && manual.tx_address == pipe
            &&& auto.packet == Some(dma) && manual.packet == Some(dma)
            &&& auto.disabled_rxen && !auto.disabled_txen
            &&& !manual.disabled_rxen && !manual.disabled_txen && manual.activity is Tx
                && manual.interrupt
        }),
{
    broadcast use lemma_radio_push;

}

/// Both ways back to reception point the radio at the new buffer and arm the
/// turn to the next ACK.
pub proof fn law_back_to_reception(r: RadioRegs, log: Seq<HwOp>, dma: DmaBuffer)
    ensures
        ({
            let after_ack = radio_after(r, radio::complete_rx_ack_log(log, dma));
            let after_no_ack = radio_after(r, radio::complete_rx_no_ack_log(radio::stop_log(log), dma));
            &&& after_ack.packet == Some(dma) && after_no_ack.packet == Some(dma)
            &&& after_ack.disabled_txen && !after_ack.disabled_rxen
            &&& after_no_ack.disabled_txen && !after_no_ack.disabled_rxen
                && after_no_ack.activity is Rx && after_no_ack.interrupt
        }),
{
    broadcast use lemma_radio_push;

}

/// A packet that was just accepted on a pipe is a duplicate when it comes
/// again, a packet with another PID or CRC is not, and the other pipes judge
/// as before.
pub proof fn law_duplicate_detection(
    radio: EsbRadio,
    pipe: int,
    pid: u8,
    crc: u16,
    other_pipe: int,
    other_pid: u8,
    other_crc: u16,
)
    requires
        0 <= pipe < 8,
    ensures
        radio.detecting(pipe, pid, crc).is_duplicate(pipe, pid, crc),
        radio.detecting(pipe, pid, crc).is_duplicate(pipe, other_pid, other_crc) ==> other_pid
            == pid && other_crc == crc,
        other_pipe != pipe ==> radio.detecting(pipe, pid, crc).is_duplicate(
            other_pipe,
            other_pid,
            other_crc,
        ) == radio.is_duplicate(other_pipe, other_pid, other_crc),
{
}

/// A radio layer that has received nothing takes no packet for a duplicate.
pub proof fn law_first_packet_is_new(fast: bool, pipe: int, pid: u8, crc: u16)
    ensures
        !EsbRadio::fresh(fast).is_duplicate(pipe, pid, crc),
{
}

} // verus!
