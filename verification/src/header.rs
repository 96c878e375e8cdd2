//! ESB packet header layout for DMA.
//!
//! The hardware DMA header is 2 bytes (length + PID/NO_ACK). The software
//! header adds 2 bytes (RSSI + pipe) before it, giving 4 bytes in all.
//!
//! The radio's S1 field is 3 bits wide. The lower 3 bits of `pid_no_ack` map
//! to it: bit 0 is the NO_ACK flag, bits 2:1 are the packet identifier (PID).

use vstd::prelude::*;

verus! {

/// ESB on-air packet header as stored at the start of a packet buffer.
///
/// ```text
/// byte 0: rssi       software only, filled after RX
/// byte 1: pipe       software only
/// byte 2: length     radio LENGTH field
/// byte 3: pid_no_ack radio S1 field (3 bits used)
/// ```
#[derive(Debug, Clone, Copy, PartialEq, Eq, Structural)]
pub struct EsbHeader {
    /// RSSI value (filled after receive).
    pub rssi: u8,
    /// Pipe number (identifies which pipe received).
    pub pipe: u8,
    /// Payload length.
    pub length: u8,
    /// PID (bits 2:1) and NO_ACK flag (bit 0). Upper 5 bits unused on air.
    pub pid_no_ack: u8,
}

/// The packet identifier inside an S1 byte: bits 2:1.
pub open spec fn s1_pid(s1: u8) -> u8 {
    (s1 >> 1) & 0x03
}

/// The NO_ACK flag inside an S1 byte: bit 0.
pub open spec fn s1_no_ack(s1: u8) -> bool {
    s1 & 0x01 != 0
}

/// An S1 byte with its packet identifier replaced.
pub open spec fn s1_with_pid(s1: u8, pid: u8) -> u8 {
    (s1 & !0x06u8) | ((pid & 0x03) << 1)
}

/// An S1 byte with its NO_ACK flag replaced.
pub open spec fn s1_with_no_ack(s1: u8, no_ack: bool) -> u8 {
    if no_ack {
        s1 | 0x01
    } else {
        s1 & !0x01u8
    }
}

impl Default for EsbHeader {
    fn default() -> (h: Self)
        ensures
            h == (EsbHeader { rssi: 0, pipe: 0, length: 0, pid_no_ack: 0 }),
    {
        EsbHeader { rssi: 0, pipe: 0, length: 0, pid_no_ack: 0 }
    }
}

impl EsbHeader {
    /// Offset from the start of a buffer to the DMA fields (length, pid_no_ack).
    pub const DMA_OFFSET: usize = 2;

    /// Offset from the start of a buffer to the payload (after the 4-byte header).
    pub const PAYLOAD_OFFSET: usize = 4;

    /// Maximum ESB payload length.
    pub const MAX_PAYLOAD: u8 = 252;

    /// Extract PID (2-bit packet identifier, bits 2:1).
    pub fn pid(&self) -> (pid: u8)
        ensures
            pid == s1_pid(self.pid_no_ack),
            pid < 4,
    {
        let s1: u8 = self.pid_no_ack;
        assert((s1 >> 1) & 0x03 < 4) by (bit_vector);
        (s1 >> 1) & 0x03
    }

    /// Set PID value (only the lower 2 bits are used, stored in bits 2:1).
    pub fn set_pid(&mut self, pid: u8)
        ensures
            *final(self) == (EsbHeader {
                pid_no_ack: s1_with_pid(old(self).pid_no_ack, pid),
                ..*old(self)
            }),
    {
        self.pid_no_ack = (self.pid_no_ack & !0x06u8) | ((pid & 0x03) << 1);
    }

    /// Check if the NO_ACK flag is set (bit 0 = 1 means no ACK requested).
    pub fn no_ack(&self) -> (no_ack: bool)
        ensures
            no_ack == s1_no_ack(self.pid_no_ack),
    {
        self.pid_no_ack & 0x01 != 0
    }

    /// Set the NO_ACK flag (bit 0).
    pub fn set_no_ack(&mut self, no_ack: bool)
        ensures
            *final(self) == (EsbHeader {
                pid_no_ack: s1_with_no_ack(old(self).pid_no_ack, no_ack),
                ..*old(self)
            }),
    {
        if no_ack {
            self.pid_no_ack = self.pid_no_ack | 0x01;
        } else {
            self.pid_no_ack = self.pid_no_ack & !0x01u8;
        }
    }

    /// Read the header at the start of a packet buffer.
    pub fn read(buf: &[u8]) -> (h: Self)
        requires
            buf@.len() >= 4,
        ensures
            h == header_at(buf@),
    {
        EsbHeader { rssi: buf[0], pipe: buf[1], length: buf[2], pid_no_ack: buf[3] }
    }

    /// Write the header over the start of a packet buffer.
    pub fn write(self, buf: &mut [u8])
        requires
            old(buf)@.len() >= 4,
        ensures
            final(buf)@ == with_header(old(buf)@, self),
    {
        buf[0] = self.rssi;
        buf[1] = self.pipe;
        buf[2] = self.length;
        buf[3] = self.pid_no_ack;
    }
}

/// The header that the first four bytes of a packet buffer stand for.
pub open spec fn header_at(buf: Seq<u8>) -> EsbHeader {
    EsbHeader { rssi: buf[0], pipe: buf[1], length: buf[2], pid_no_ack: buf[3] }
}

/// A packet buffer with its header replaced.
pub open spec fn with_header(buf: Seq<u8>, h: EsbHeader) -> Seq<u8> {
    buf.update(0, h.rssi).update(1, h.pipe).update(2, h.length).update(3, h.pid_no_ack)
}

/// A PID that was set reads back as its lower two bits, whatever stood there
/// before, and the NO_ACK flag and the five unused bits stay as they were.
pub proof fn law_pid_round_trip(s1: u8, pid: u8)
    ensures
        s1_pid(s1_with_pid(s1, pid)) == pid % 4,
        s1_no_ack(s1_with_pid(s1, pid)) == s1_no_ack(s1),
        s1_with_pid(s1, pid) & 0xf8 == s1 & 0xf8,
{
    assert((((s1 & !0x06u8) | ((pid & 0x03) << 1)) >> 1) & 0x03 == pid % 4) by (bit_vector);
    assert(((s1 & !0x06u8) | ((pid & 0x03) << 1)) & 0x01 == s1 & 0x01) by (bit_vector);
    assert(((s1 & !0x06u8) | ((pid & 0x03) << 1)) & 0xf8 == s1 & 0xf8) by (bit_vector);
}

/// A NO_ACK flag that was set reads back, and the PID stays as it was.
pub proof fn law_no_ack_round_trip(s1: u8, no_ack: bool)
    ensures
        s1_no_ack(s1_with_no_ack(s1, no_ack)) == no_ack,
        s1_pid(s1_with_no_ack(s1, no_ack)) == s1_pid(s1),
        s1_with_no_ack(s1, no_ack) & 0xf8 == s1 & 0xf8,
{
    assert((s1 | 0x01) & 0x01 != 0 && ((s1 | 0x01) >> 1) & 0x03 == (s1 >> 1) & 0x03 && (s1 | 0x01)
        & 0xf8 == s1 & 0xf8) by (bit_vector);
    assert((s1 & !0x01u8) & 0x01 == 0 && ((s1 & !0x01u8) >> 1) & 0x03 == (s1 >> 1) & 0x03 && (s1
        & !0x01u8) & 0xf8 == s1 & 0xf8) by (bit_vector);
}

/// Only the low three bits of an S1 byte that was built from zero are ever
/// set: PID in bits 2:1, NO_ACK in bit 0.
pub proof fn law_s1_layout(pid: u8, no_ack: bool)
    requires
        pid < 4,
    ensures
        s1_with_no_ack(s1_with_pid(0, pid), no_ack) == 2 * pid + (if no_ack { 1int } else { 0int }),
{
    assert(pid < 4 ==> ((0u8 & !0x06u8) | ((pid & 0x03) << 1)) | 0x01 == 2 * pid + 1)
        by (bit_vector);
    assert(pid < 4 ==> ((0u8 & !0x06u8) | ((pid & 0x03) << 1)) & !0x01u8 == 2 * pid)
        by (bit_vector);
}

/// A header written into a packet buffer reads back, and the payload behind it
/// is untouched.
pub proof fn law_header_round_trip(buf: Seq<u8>, h: EsbHeader)
    requires
        buf.len() >= 4,
    ensures
        header_at(with_header(buf, h)) == h,
        with_header(buf, h).len() == buf.len(),
        with_header(buf, h).skip(4) == buf.skip(4),
{
}

} // verus!
