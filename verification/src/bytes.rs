//! Little-endian fields inside byte buffers.

use vstd::prelude::*;

verus! {

/// The sequence `s` with `t` written over it from position `at` on.
pub open spec fn splice(s: Seq<u8>, at: int, t: Seq<u8>) -> Seq<u8> {
    Seq::new(s.len(), |i: int| if at <= i < at + t.len() { t[i - at] } else { s[i] })
}

/// The two bytes of `x`, least significant first.
pub open spec fn u16_le(x: u16) -> Seq<u8> {
    seq![(x % 256) as u8, (x / 256) as u8]
}

/// The four bytes of `x`, least significant first.
pub open spec fn u32_le(x: u32) -> Seq<u8> {
    seq![
        (x % 256) as u8,
        ((x / 0x100) % 256) as u8,
        ((x / 0x1_0000) % 256) as u8,
        (x / 0x100_0000) as u8,
    ]
}

/// The number that two bytes stand for, least significant first.
pub open spec fn le_u16(b0: u8, b1: u8) -> u16 {
    (b0 + 0x100 * b1) as u16
}

/// The number that four bytes stand for, least significant first.
pub open spec fn le_u32(b0: u8, b1: u8, b2: u8, b3: u8) -> u32 {
    (b0 + 0x100 * b1 + 0x1_0000 * b2 + 0x100_0000 * b3) as u32
}

/// The little-endian `u32` field of `s` at `at`.
pub open spec fn u32_at(s: Seq<u8>, at: int) -> u32 {
    le_u32(s[at], s[at + 1], s[at + 2], s[at + 3])
}

/// The little-endian `u16` field of `s` at `at`.
pub open spec fn u16_at(s: Seq<u8>, at: int) -> u16 {
    le_u16(s[at], s[at + 1])
}

/// Reading back the four bytes of a number gives the number.
pub proof fn lemma_u32_round_trip(x: u32)
    ensures
        u32_le(x).len() == 4,
        le_u32(u32_le(x)[0], u32_le(x)[1], u32_le(x)[2], u32_le(x)[3]) == x,
{
}

/// Reading back the two bytes of a number gives the number.
pub proof fn lemma_u16_round_trip(x: u16)
    ensures
        u16_le(x).len() == 2,
        le_u16(u16_le(x)[0], u16_le(x)[1]) == x,
{
}

/// Copy `src` over `dst`, starting at `at`.
pub fn copy_into(dst: &mut [u8], at: usize, src: &[u8])
    requires
        at + src@.len() <= old(dst)@.len(),
    ensures
        final(dst)@ == splice(old(dst)@, at as int, src@),
{
    let n: usize = src.len();
    let total: usize = dst.len();
    let mut i: usize = 0;
    while i < n
        invariant
            n == src@.len(),
            i <= n,
            total == dst@.len(),
            at + n <= total,
            dst@ == splice(old(dst)@, at as int, src@.take(i as int)),
        decreases n - i,
    {
        dst[at + i] = src[i];
        i = i + 1;
    }
    assert(src@.take(n as int) == src@);
}

/// Write `x` as four little-endian bytes at `at`.
pub fn put_u32_le(dst: &mut [u8], at: usize, x: u32)
    requires
        at + 4 <= old(dst)@.len(),
    ensures
        final(dst)@ == splice(old(dst)@, at as int, u32_le(x)),
{
    dst[at] = (x % 256) as u8;
    dst[at + 1] = ((x / 0x100) % 256) as u8;
    dst[at + 2] = ((x / 0x1_0000) % 256) as u8;
    dst[at + 3] = (x / 0x100_0000) as u8;
}

/// Write `x` as two little-endian bytes at `at`.
pub fn put_u16_le(dst: &mut [u8], at: usize, x: u16)
    requires
        at + 2 <= old(dst)@.len(),
    ensures
        final(dst)@ == splice(old(dst)@, at as int, u16_le(x)),
{
    dst[at] = (x % 256) as u8;
    dst[at + 1] = (x / 256) as u8;
}

/// Read four little-endian bytes at `at`.
pub fn get_u32_le(src: &[u8], at: usize) -> (x: u32)
    requires
        at + 4 <= src@.len(),
    ensures
        x == u32_at(src@, at as int),
{
    src[at] as u32 + 0x100 * (src[at + 1] as u32) + 0x1_0000 * (src[at + 2] as u32) + 0x100_0000 * (
    src[at + 3] as u32)
}

/// Read two little-endian bytes at `at`.
pub fn get_u16_le(src: &[u8], at: usize) -> (x: u16)
    requires
        at + 2 <= src@.len(),
    ensures
        x == u16_at(src@, at as int),
{
    src[at] as u16 + 0x100 * (src[at + 1] as u16)
}

/// Writing back a number that was read from two bytes gives the bytes.
pub proof fn lemma_u16_bytes(s: Seq<u8>, at: int)
    ensures
        u16_le(u16_at(s, at)) == seq![s[at], s[at + 1]],
{
}

/// The digits of a four-byte number.
proof fn lemma_u32_digits(x: int, b0: int, b1: int, b2: int, b3: int)
    requires
        0 <= b0 < 256,
        0 <= b1 < 256,
        0 <= b2 < 256,
        0 <= b3 < 256,
        x == b0 + 0x100 * b1 + 0x1_0000 * b2 + 0x100_0000 * b3,
    ensures
        x % 256 == b0,
        (x / 0x100) % 256 == b1,
        (x / 0x1_0000) % 256 == b2,
        x / 0x100_0000 == b3,
{
    let z = b2 + 0x100 * b3;
    let y = b1 + 0x100 * z;
    assert(x == b0 + 0x100 * y);
    assert(x / 0x100 == y);
    assert(y % 256 == b1);
    assert(x / 0x1_0000 == z);
    assert(z % 256 == b2);
    assert(x / 0x100_0000 == b3);
}

/// Writing back a number that was read from four bytes gives the bytes.
pub proof fn lemma_u32_bytes(s: Seq<u8>, at: int)
    ensures
        u32_le(u32_at(s, at)) == seq![s[at], s[at + 1], s[at + 2], s[at + 3]],
{
    lemma_u32_digits(
        u32_at(s, at) as int,
        s[at] as int,
        s[at + 1] as int,
        s[at + 2] as int,
        s[at + 3] as int,
    );
}

} // verus!
