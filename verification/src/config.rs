//! ESB configuration types.

use crate::error::Error;
use vstd::prelude::*;

verus! {

/// TX output power.
#[derive(Debug, Clone, Copy, PartialEq, Eq, Structural)]
pub enum TxPower {
    /// -40 dBm.
    Neg40dBm,
    /// -20 dBm.
    Neg20dBm,
    /// -16 dBm.
    Neg16dBm,
    /// -12 dBm.
    Neg12dBm,
    /// -8 dBm.
    Neg8dBm,
    /// -4 dBm.
    Neg4dBm,
    /// 0 dBm (default).
    ZeroDbm,
    /// +2 dBm.
    Pos2dBm,
    /// +3 dBm.
    Pos3dBm,
    /// +4 dBm.
    Pos4dBm,
    /// +5 dBm.
    Pos5dBm,
    /// +6 dBm.
    Pos6dBm,
    /// +7 dBm.
    Pos7dBm,
    /// +8 dBm.
    Pos8dBm,
}

impl Default for TxPower {
    fn default() -> (p: Self)
        ensures
            p == TxPower::ZeroDbm,
    {
        TxPower::ZeroDbm
    }
}

impl TxPower {
    /// The output power in dBm.
    pub open spec fn dbm(self) -> int {
        match self {
            TxPower::Neg40dBm => -40,
            TxPower::Neg20dBm => -20,
            TxPower::Neg16dBm => -16,
            TxPower::Neg12dBm => -12,
            TxPower::Neg8dBm => -8,
            TxPower::Neg4dBm => -4,
            TxPower::ZeroDbm => 0,
            TxPower::Pos2dBm => 2,
            TxPower::Pos3dBm => 3,
            TxPower::Pos4dBm => 4,
            TxPower::Pos5dBm => 5,
            TxPower::Pos6dBm => 6,
            TxPower::Pos7dBm => 7,
            TxPower::Pos8dBm => 8,
        }
    }

    /// Value of the radio's TXPOWER register: dBm in two's complement.
    pub open spec fn register(self) -> u8 {
        (self.dbm() % 256) as u8
    }

    /// Convert to the radio's TXPOWER register value.
    pub fn to_pac(self) -> (v: u8)
        ensures
            v == self.register(),
    {
        match self {
            TxPower::Neg40dBm => 0xd8,
            TxPower::Neg20dBm => 0xec,
            TxPower::Neg16dBm => 0xf0,
            TxPower::Neg12dBm => 0xf4,
            TxPower::Neg8dBm => 0xf8,
            TxPower::Neg4dBm => 0xfc,
            TxPower::ZeroDbm => 0x00,
            TxPower::Pos2dBm => 0x02,
            TxPower::Pos3dBm => 0x03,
            TxPower::Pos4dBm => 0x04,
            TxPower::Pos5dBm => 0x05,
            TxPower::Pos6dBm => 0x06,
            TxPower::Pos7dBm => 0x07,
            TxPower::Pos8dBm => 0x08,
        }
    }
}

/// Radio ramp-up time in microseconds (normal mode).
pub const RAMP_UP_US: u16 = 140;

/// Radio ramp-up time in microseconds (fast ramp-up mode).
pub const RAMP_UP_FAST_US: u16 = 40;

/// ESB protocol bitrate.
#[derive(Debug, Clone, Copy, PartialEq, Eq, Structural)]
pub enum Bitrate {
    /// 1 Mbps (longer range, lower current).
    Mbps1,
    /// 2 Mbps (shorter range, higher throughput), the default for ESB.
    Mbps2,
}

impl Default for Bitrate {
    fn default() -> (b: Self)
        ensures
            b == Bitrate::Mbps2,
    {
        Bitrate::Mbps2
    }
}

/// ESB RF channel (0-100, maps to 2400-2500 MHz).
#[derive(Debug, Clone, Copy, PartialEq, Eq, Structural)]
pub struct Channel(pub u8);

impl Channel {
    /// Minimum channel value.
    pub const MIN: u8 = 0;

    /// Maximum channel value.
    pub const MAX: u8 = 100;
}

impl Default for Channel {
    fn default() -> (c: Self)
        ensures
            c == Channel(2),
    {
        Channel(2)
    }
}

/// CRC configuration.
#[derive(Debug, Clone, Copy, PartialEq, Eq, Structural)]
pub struct CrcConfig {
    /// CRC length in bytes: 0 (off), 1, or 2.
    pub length: u8,
    /// Initial CRC value.
    pub init: u16,
    /// Polynomial (lower 16 bits, the top bit is implicit).
    pub poly: u16,
}

impl CrcConfig {
    /// CRCPOLY: the polynomial with its top bit, which stands above the bits of the
    /// CRC.
    pub open spec fn polynomial(self) -> u32 {
        if self.length == 1 {
            (0x100 + self.poly % 0x100) as u32
        } else {
            (0x1_0000 + self.poly) as u32
        }
    }

    /// The polynomial as the radio takes it, with its top bit. A CRC of one byte uses
    /// the lower eight bits.
    pub fn poly_register(&self) -> (r: u32)
        ensures
            r == self.polynomial(),
    {
        if self.length == 1 {
            0x100 + (self.poly % 0x100) as u32
        } else {
            0x1_0000 + self.poly as u32
        }
    }
}

impl Default for CrcConfig {
    fn default() -> (c: Self)
        ensures
            c == (CrcConfig { length: 2, init: 0xFFFF, poly: 0x1021 }),
    {
        CrcConfig { length: 2, init: 0xFFFF, poly: 0x1021 }
    }
}

/// Retransmission configuration (PTX only).
#[derive(Debug, Clone, Copy, PartialEq, Eq, Structural)]
pub struct RetransmitConfig {
    /// Maximum retransmit attempts (0-15).
    pub count: u8,
    /// Delay in microseconds between retransmits.
    ///
    /// Must be > `ack_timeout` + 62 us. Typical: 500 us.
    pub delay_us: u16,
}

impl Default for RetransmitConfig {
    fn default() -> (c: Self)
        ensures
            c == (RetransmitConfig { count: 3, delay_us: 500 }),
    {
        RetransmitConfig { count: 3, delay_us: 500 }
    }
}

/// Top-level ESB configuration.
#[derive(Debug, Clone, Copy)]
pub struct EsbConfig {
    /// Bitrate (1 or 2 Mbps).
    pub bitrate: Bitrate,
    /// RF channel (0-100).
    pub channel: Channel,
    /// CRC configuration.
    pub crc: CrcConfig,
    /// Retransmit configuration (PTX only).
    pub retransmit: RetransmitConfig,
    /// ACK timeout in microseconds (PTX waits this long for ACK).
    ///
    /// Must be >= 44 us. Default: 120 us.
    pub ack_timeout_us: u16,
    /// Payload length (1-252 bytes).
    pub payload_length: u8,
    /// TX output power.
    pub tx_power: TxPower,
}

impl Default for EsbConfig {
    fn default() -> (c: Self)
        ensures
            c == default_config(),
            c.is_valid(),
    {
        EsbConfig {
            bitrate: Bitrate::Mbps2,
            channel: Channel(2),
            crc: CrcConfig { length: 2, init: 0xFFFF, poly: 0x1021 },
            retransmit: RetransmitConfig { count: 3, delay_us: 500 },
            ack_timeout_us: 120,
            payload_length: 32,
            tx_power: TxPower::ZeroDbm,
        }
    }
}

/// The configuration that `EsbConfig::default` gives.
pub open spec fn default_config() -> EsbConfig {
    EsbConfig {
        bitrate: Bitrate::Mbps2,
        channel: Channel(2),
        crc: CrcConfig { length: 2, init: 0xFFFF, poly: 0x1021 },
        retransmit: RetransmitConfig { count: 3, delay_us: 500 },
        ack_timeout_us: 120,
        payload_length: 32,
        tx_power: TxPower::ZeroDbm,
    }
}

impl EsbConfig {
    /// The constraints of the ESB protocol on a configuration.
    pub open spec fn is_valid(&self) -> bool {
        &&& 1 <= self.payload_length <= 252
        &&& self.ack_timeout_us >= 44
        &&& self.retransmit.delay_us > self.ack_timeout_us + 62
        &&& self.retransmit.delay_us > RAMP_UP_US
        &&& self.channel.0 <= 100
        &&& self.retransmit.count <= 15
        &&& self.crc.length <= 2
    }

    /// Validate configuration against ESB constraints.
    ///
    /// Returns `Ok(())` if valid, `Err(Error::InvalidParam)` otherwise.
    pub fn validate(&self) -> (r: Result<(), Error>)
        ensures
            r == (if self.is_valid() {
                Ok(())
            } else {
                Err(Error::InvalidParam)
            }),
    {
        if self.payload_length > 252 || self.payload_length == 0 {
            return Err(Error::InvalidParam);
        }
        if self.ack_timeout_us < 44 {
            return Err(Error::InvalidParam);
        }
        // The delay must outlast the ACK wait, and the radio needs time to re-enable.
        let min_retransmit_delay: u16 = self.ack_timeout_us.saturating_add(62);
        if self.retransmit.delay_us <= min_retransmit_delay || self.retransmit.delay_us
            <= RAMP_UP_US {
            return Err(Error::InvalidParam);
        }
        if self.channel.0 > Channel::MAX {
            return Err(Error::InvalidParam);
        }
        if self.retransmit.count > 15 {
            return Err(Error::InvalidParam);
        }
        if self.crc.length > 2 {
            return Err(Error::InvalidParam);
        }
        Ok(())
    }
}

/// The register holds the power as a signed byte, so that no two powers share a value.
pub proof fn law_tx_power_register(p: TxPower, q: TxPower)
    ensures
        p.register() < 128 ==> p.register() == p.dbm(),
        p.register() >= 128 ==> p.register() - 256 == p.dbm(),
        p.register() == q.register() ==> p == q,
{
}

/// A polynomial has the degree of its CRC: the bit above the CRC is set, and the bits
/// within it are those that were configured.
pub proof fn law_crc_polynomial(c: CrcConfig)
    requires
        1 <= c.length <= 2,
    ensures
        c.length == 1 ==> 0x100 <= c.polynomial() < 0x200 && c.polynomial() % 0x100 == c.poly as int
            % 0x100,
        c.length == 2 ==> 0x1_0000 <= c.polynomial() < 0x2_0000 && c.polynomial() % 0x1_0000
            == c.poly,
{
}

/// The limits of a configuration are independent of each other: with the rest in
/// order, each setting is accepted exactly within its own limits. The delay between
/// two attempts always outlasts the wait for the ACK and the ramp-up of the radio.
pub proof fn law_config_limits(c: EsbConfig, channel: u8, count: u8, len: u8, delay: u16, ack: u16)
    requires
        c.is_valid(),
    ensures
        (EsbConfig { channel: Channel(channel), ..c }).is_valid() == (channel <= 100),
        (EsbConfig { retransmit: RetransmitConfig { count, ..c.retransmit }, ..c }).is_valid() == (
        count <= 15),
        (EsbConfig { crc: CrcConfig { length: len, ..c.crc }, ..c }).is_valid() == (len <= 2),
        (EsbConfig { payload_length: len, ..c }).is_valid() == (0 < len && len + 4 <= 256),
        (EsbConfig {
            retransmit: RetransmitConfig { delay_us: delay, ..c.retransmit },
            ..c
        }).is_valid() == (delay > c.ack_timeout_us + 62 && delay > RAMP_UP_US),
        (EsbConfig { ack_timeout_us: ack, ..c }).is_valid() == (44 <= ack && ack + 62
            < c.retransmit.delay_us),
        c.retransmit.delay_us > c.ack_timeout_us,
{
}

} // verus!
