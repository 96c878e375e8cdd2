//! ESB address configuration.
//!
//! ESB uses a 5-byte address per pipe: a 4-byte base and a 1-byte prefix.
//! Pipe 0 has its own base, pipes 1-7 share a second one but have unique
//! prefixes. Addresses are stored in on-air byte order; the `*_reg` methods
//! give the bit-reversed values that the radio's address registers take.

use vstd::prelude::*;

verus! {

/// Maximum number of ESB pipes.
pub const MAX_PIPES: usize = 8;

/// ESB address configuration.
///
/// Pipe 0 uses `base0` + `prefix[0]`. Pipes 1-7 share `base1` + `prefix[1..8]`.
#[derive(Debug, Clone, Copy)]
pub struct EsbAddresses {
    base0: [u8; 4],
    base1: [u8; 4],
    prefix: [u8; 8],
    pipe_count: u8,
}

/// Address configuration errors.
#[derive(Debug, Clone, Copy, PartialEq, Eq, Structural)]
pub enum AddressError {
    /// Pipe count must be 1-8.
    InvalidPipeCount(u8),
    /// Pipe index out of range (must be < pipe_count).
    InvalidPipe(u8),
}

/// Bit `i` of `v`.
pub open spec fn bit32(v: u32, i: u32) -> bool {
    (v >> i) & 1 == 1
}

/// All 32 bits in reverse order: adjacent bits, pairs, nibbles, bytes and
/// halves are swapped in turn.
pub open spec fn reversed(v: u32) -> u32 {
    let v = bytes_reversed(v);
    let v = ((v >> 8) & 0x00ff_00ff) | ((v & 0x00ff_00ff) << 8);
    (v >> 16) | (v << 16)
}

/// The bits of each byte in reverse order, the bytes staying in place.
pub open spec fn bytes_reversed(v: u32) -> u32 {
    let v = ((v >> 1) & 0x5555_5555) | ((v & 0x5555_5555) << 1);
    let v = ((v >> 2) & 0x3333_3333) | ((v & 0x3333_3333) << 2);
    ((v >> 4) & 0x0f0f_0f0f) | ((v & 0x0f0f_0f0f) << 4)
}

/// Bit `i` of a reversed word is bit `31 - i` of the word.
pub proof fn law_reversed_bits(v: u32, i: u32)
    requires
        i < 32,
    ensures
        bit32(reversed(v), i) == bit32(v, (31 - i) as u32),
{
    assert(i < 32 ==> ((reversed(v) >> i) & 1 == 1) == ((v >> (31 - i) as u32) & 1 == 1))
        by (bit_vector);
}

/// Bit `i` of a byte of a bytewise reversed word is bit `7 - i` of that byte.
pub proof fn law_bytes_reversed_bits(v: u32, byte: u32, i: u32)
    requires
        byte < 4,
        i < 8,
    ensures
        bit32(bytes_reversed(v), (8 * byte + i) as u32) == bit32(v, (8 * byte + 7 - i) as u32),
{
    assert(byte < 4 && i < 8 ==> ((bytes_reversed(v) >> (8 * byte + i) as u32) & 1 == 1) == ((v >> (8
        * byte + 7 - i) as u32) & 1 == 1)) by (bit_vector);
}

/// Reverse all bits of a word.
fn reverse_bits(value: u32) -> (r: u32)
    ensures
        r == reversed(value),
{
    let v: u32 = bytewise_bit_swap(value);
    let v: u32 = ((v >> 8) & 0x00ff_00ff) | ((v & 0x00ff_00ff) << 8);
    (v >> 16) | (v << 16)
}

/// Reverse the bits within each byte of a word, keeping byte order.
fn bytewise_bit_swap(value: u32) -> (r: u32)
    ensures
        r == bytes_reversed(value),
{
    let v: u32 = ((value >> 1) & 0x5555_5555) | ((value & 0x5555_5555) << 1);
    let v: u32 = ((v >> 2) & 0x3333_3333) | ((v & 0x3333_3333) << 2);
    ((v >> 4) & 0x0f0f_0f0f) | ((v & 0x0f0f_0f0f) << 4)
}

/// The little-endian word at byte `at` of an array.
fn word_at(b: &[u8], at: usize) -> (w: u32)
    requires
        at + 4 <= b@.len(),
    ensures
        w == crate::bytes::u32_at(b@, at as int),
{
    crate::bytes::get_u32_le(b, at)
}

/// The mask with the lowest `count` bits set.
pub open spec fn low_mask(count: u8) -> u8 {
    if count >= 8 {
        0xff
    } else {
        ((1u8 << count) - 1) as u8
    }
}

/// Pipe `p` is in the mask of the lowest `count` pipes exactly when `p < count`.
pub proof fn law_low_mask_members(count: u8, p: u8)
    requires
        count <= 8,
        p < 8,
    ensures
        ((low_mask(count) >> p) & 1 == 1) == (p < count),
{
    assert(p < 8 ==> (0xffu8 >> p) & 1 == 1) by (bit_vector);
    assert(count < 8 && p < 8 ==> (((((1u8 << count) - 1) as u8) >> p) & 1 == 1) == (p < count))
        by (bit_vector);
}

impl EsbAddresses {
    /// Base address of pipe 0, in on-air byte order.
    pub closed spec fn base0(&self) -> Seq<u8> {
        self.base0@
    }

    /// Base address of pipes 1-7, in on-air byte order.
    pub closed spec fn base1(&self) -> Seq<u8> {
        self.base1@
    }

    /// Prefix byte of each pipe.
    pub closed spec fn prefixes(&self) -> Seq<u8> {
        self.prefix@
    }

    /// Number of enabled pipes.
    pub closed spec fn pipes(&self) -> u8 {
        self.pipe_count
    }

    #[verifier::type_invariant]
    spec fn type_inv(self) -> bool {
        1 <= self.pipe_count <= 8
    }

    /// Value of the radio's BASE0 register.
    pub open spec fn base0_word(&self) -> u32 {
        reversed(crate::bytes::u32_at(self.base0(), 0))
    }

    /// Value of the radio's BASE1 register.
    pub open spec fn base1_word(&self) -> u32 {
        reversed(crate::bytes::u32_at(self.base1(), 0))
    }

    /// Value of the radio's PREFIX0 register (pipes 0-3).
    pub open spec fn prefix0_word(&self) -> u32 {
        bytes_reversed(crate::bytes::u32_at(self.prefixes(), 0))
    }

    /// Value of the radio's PREFIX1 register (pipes 4-7).
    pub open spec fn prefix1_word(&self) -> u32 {
        bytes_reversed(crate::bytes::u32_at(self.prefixes(), 4))
    }

    /// Create a new address configuration.
    ///
    /// Returns an error if `pipe_count` is not in 1-8.
    pub fn new(base0: [u8; 4], base1: [u8; 4], prefix: [u8; 8], pipe_count: u8) -> (r: Result<
        Self,
        AddressError,
    >)
        ensures
            match r {
                Ok(a) => 1 <= pipe_count <= 8 && a.base0() == base0@ && a.base1() == base1@
                    && a.prefixes() == prefix@ && a.pipes() == pipe_count,
                Err(e) => !(1 <= pipe_count <= 8) && e == AddressError::InvalidPipeCount(pipe_count),
            },
    {
        if pipe_count == 0 || pipe_count > 8 {
            return Err(AddressError::InvalidPipeCount(pipe_count));
        }
        Ok(EsbAddresses { base0, base1, prefix, pipe_count })
    }

    /// Get the number of enabled pipes.
    pub fn pipe_count(&self) -> (n: u8)
        ensures
            n == self.pipes(),
            1 <= n <= 8,
    {
        proof {
            use_type_invariant(self);
        }
        self.pipe_count
    }

    /// Get the enabled pipes as a bitmask (bit 0 = pipe 0, etc.).
    pub fn enabled_mask(&self) -> (mask: u8)
        ensures
            mask == low_mask(self.pipes()),
    {
        proof {
            use_type_invariant(self);
        }
        if self.pipe_count == 8 {
            0xff
        } else {
            let n: u8 = self.pipe_count;
            assert(n < 8 ==> (1u8 << n) >= 1) by (bit_vector);
            (1u8 << n) - 1
        }
    }

    /// Get the prefix byte for a given pipe.
    ///
    /// Returns an error if pipe >= `pipe_count`.
    pub fn prefix_for_pipe(&self, pipe: u8) -> (r: Result<u8, AddressError>)
        ensures
            r == (if pipe < self.pipes() {
                Ok(self.prefixes()[pipe as int])
            } else {
                Err(AddressError::InvalidPipe(pipe))
            }),
    {
        proof {
            use_type_invariant(self);
        }
        if pipe >= self.pipe_count {
            return Err(AddressError::InvalidPipe(pipe));
        }
        Ok(self.prefix[pipe as usize])
    }

    /// Base address of pipe 0 in register format (a bit-reversed word).
    pub fn base0_reg(&self) -> (w: u32)
        ensures
            w == self.base0_word(),
    {
        reverse_bits(word_at(&self.base0, 0))
    }

    /// Base address of pipes 1-7 in register format.
    pub fn base1_reg(&self) -> (w: u32)
        ensures
            w == self.base1_word(),
    {
        reverse_bits(word_at(&self.base1, 0))
    }

    /// Prefixes of pipes 0-3, each byte bit-reversed, packed into a word.
    pub fn prefix0_reg(&self) -> (w: u32)
        ensures
            w == self.prefix0_word(),
    {
        bytewise_bit_swap(word_at(&self.prefix, 0))
    }

    /// Prefixes of pipes 4-7, each byte bit-reversed, packed into a word.
    pub fn prefix1_reg(&self) -> (w: u32)
        ensures
            w == self.prefix1_word(),
    {
        bytewise_bit_swap(word_at(&self.prefix, 4))
    }
}

/// Bit `i` of a byte.
pub open spec fn bit8(v: u8, i: u32) -> bool {
    (v >> i) & 1 == 1
}

/// Byte `byte` of a little-endian word holds the word's bits from `8 * byte` on.
proof fn lemma_word_bits(s: Seq<u8>, at: int, byte: u32, i: u32)
    requires
        byte < 4,
        i < 8,
    ensures
        bit32(crate::bytes::u32_at(s, at), (8 * byte + i) as u32) == bit8(s[at + byte], i),
{
    let w = crate::bytes::u32_at(s, at);
    let b0 = s[at];
    let b1 = s[at + 1];
    let b2 = s[at + 2];
    let b3 = s[at + 3];
    assert(i < 8 ==> {
        &&& ((w >> i) & 1 == 1) == ((b0 >> i) & 1 == 1)
        &&& ((w >> (8 + i) as u32) & 1 == 1) == ((b1 >> i) & 1 == 1)
        &&& ((w >> (16 + i) as u32) & 1 == 1) == ((b2 >> i) & 1 == 1)
        &&& ((w >> (24 + i) as u32) & 1 == 1) == ((b3 >> i) & 1 == 1)
    }) by (bit_vector)
        requires
            w == b0 + 0x100 * b1 + 0x1_0000 * b2 + 0x100_0000 * b3,
    ;
}

/// The base registers hold the bits of the base addresses as they go on air: the
/// first byte is the most significant one, and each byte starts with its lowest bit.
pub proof fn law_base_registers(a: EsbAddresses, byte: u32, i: u32)
    requires
        byte < 4,
        i < 8,
    ensures
        bit32(a.base0_word(), (31 - (8 * byte + i)) as u32) == bit8(a.base0()[byte as int], i),
        bit32(a.base1_word(), (31 - (8 * byte + i)) as u32) == bit8(a.base1()[byte as int], i),
{
    lemma_word_bits(a.base0(), 0, byte, i);
    lemma_word_bits(a.base1(), 0, byte, i);
    law_reversed_bits(crate::bytes::u32_at(a.base0(), 0), (31 - (8 * byte + i)) as u32);
    law_reversed_bits(crate::bytes::u32_at(a.base1(), 0), (31 - (8 * byte + i)) as u32);
}

/// The prefix of each pipe stands in a byte of its own: those of pipes 0 to 3 in the
/// first prefix register, those of pipes 4 to 7 in the second, lowest pipe lowest, the
/// bits of each prefix in reverse.
pub proof fn law_prefix_registers(a: EsbAddresses, pipe: u32, i: u32)
    requires
        pipe < 8,
        i < 8,
    ensures
        pipe < 4 ==> bit32(a.prefix0_word(), (8 * pipe + 7 - i) as u32) == bit8(
            a.prefixes()[pipe as int],
            i,
        ),
        pipe >= 4 ==> bit32(a.prefix1_word(), (8 * (pipe - 4) + 7 - i) as u32) == bit8(
            a.prefixes()[pipe as int],
            i,
        ),
{
    if pipe < 4 {
        lemma_word_bits(a.prefixes(), 0, pipe, i);
        law_bytes_reversed_bits(crate::bytes::u32_at(a.prefixes(), 0), pipe, (7 - i) as u32);
    } else {
        lemma_word_bits(a.prefixes(), 4, (pipe - 4) as u32, i);
        law_bytes_reversed_bits(
            crate::bytes::u32_at(a.prefixes(), 4),
            (pipe - 4) as u32,
            (7 - i) as u32,
        );
    }
}

/// Default ESB addresses matching Nordic SDK defaults.
impl Default for EsbAddresses {
    fn default() -> (a: Self)
        ensures
            a.base0() == seq![0xE7u8, 0xE7u8, 0xE7u8, 0xE7u8],
            a.base1() == seq![0xC2u8, 0xC2u8, 0xC2u8, 0xC2u8],
            a.prefixes() == seq![0xE7u8, 0xC2u8, 0xC3u8, 0xC4u8, 0xC5u8, 0xC6u8, 0xC7u8, 0xC8u8],
            a.pipes() == 8,
    {
        EsbAddresses {
            base0: [0xE7, 0xE7, 0xE7, 0xE7],
            base1: [0xC2, 0xC2, 0xC2, 0xC2],
            prefix: [0xE7, 0xC2, 0xC3, 0xC4, 0xC5, 0xC6, 0xC7, 0xC8],
            pipe_count: 8,
        }
    }
}

} // verus!
