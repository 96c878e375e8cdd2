//! Which key stands where, and what it means to a host.

use crate::matrix::{COLS, RIGHT_COLS, ROWS};
use vstd::prelude::*;

verus! {

/// Identifiers from here on are keys of the right half.
pub const RIGHT_KEY_BASE: u8 = 64;

/// Columns of both halves.
pub const TOTAL_COLS: usize = 15;

/// Keys of both halves.
pub const TOTAL_KEYS: usize = 75;

/// No key.
pub const HID_NO: u8 = 0x00;

/// The usage of the left control key, the first modifier.
pub const HID_MOD_LCTRL: u8 = 0xe0;

/// The usage of the right GUI key, the last modifier.
pub const HID_MOD_RGUI: u8 = 0xe7;

/// What a key means to a host: a modifier bit or a usage.
#[derive(Debug, Clone, Copy, PartialEq, Eq, Structural)]
pub struct HidUsage {
    /// Modifier bit, or zero.
    pub modifier: u8,
    /// Usage, or zero.
    pub key: u8,
}

/// The usages of the keys, row by row; the left half comes first in each row.
pub open spec fn usages() -> Seq<u8> {
    seq![
        0x29, 0x1e, 0x1f, 0x20, 0x21, 0x22, 0x23,
        0x24, 0x25, 0x26, 0x27, 0x2d, 0x2e, 0x2a, 0x00,
        0x2b, 0x14, 0x1a, 0x08, 0x15, 0x17, 0x00,
        0x1c, 0x18, 0x0c, 0x12, 0x13, 0x2f, 0x30, 0x31,
        0x39, 0x04, 0x16, 0x07, 0x09, 0x0a, 0x00,
        0x0b, 0x0d, 0x0e, 0x0f, 0x33, 0x34, 0x00, 0x28,
        0xe1, 0x1d, 0x1b, 0x06, 0x19, 0x05, 0x00,
        0x05, 0x11, 0x10, 0x36, 0x37, 0x38, 0x52, 0x00,
        0xe0, 0xe3, 0xe2, 0x00, 0x2c, 0x00, 0x00,
        0x2c, 0x00, 0x00, 0x00, 0x00, 0x50, 0x51, 0x4f,
    ]
}

/// The usage of the key at `pos`.
fn usage_at(pos: usize) -> (key: u8)
    requires
        pos < TOTAL_KEYS,
    ensures
        key == usages()[pos as int],
{
    let table: [u8; 75] = [
        0x29, 0x1e, 0x1f, 0x20, 0x21, 0x22, 0x23,
        0x24, 0x25, 0x26, 0x27, 0x2d, 0x2e, 0x2a, 0x00,
        0x2b, 0x14, 0x1a, 0x08, 0x15, 0x17, 0x00,
        0x1c, 0x18, 0x0c, 0x12, 0x13, 0x2f, 0x30, 0x31,
        0x39, 0x04, 0x16, 0x07, 0x09, 0x0a, 0x00,
        0x0b, 0x0d, 0x0e, 0x0f, 0x33, 0x34, 0x00, 0x28,
        0xe1, 0x1d, 0x1b, 0x06, 0x19, 0x05, 0x00,
        0x05, 0x11, 0x10, 0x36, 0x37, 0x38, 0x52, 0x00,
        0xe0, 0xe3, 0xe2, 0x00, 0x2c, 0x00, 0x00,
        0x2c, 0x00, 0x00, 0x00, 0x00, 0x50, 0x51, 0x4f,
    ];
    assert(table@ =~= usages());
    table[pos]
}

/// What the key at `pos` means to a host.
pub open spec fn usage(pos: int) -> Option<HidUsage> {
    let key = usages()[pos];
    if key == HID_NO {
        None
    } else if HID_MOD_LCTRL <= key <= HID_MOD_RGUI {
        Some(HidUsage { modifier: 1u8 << ((key - HID_MOD_LCTRL) as u8), key: 0 })
    } else {
        Some(HidUsage { modifier: 0, key })
    }
}

/// What the key in a row and column means to a host.
pub fn hid_for_pos(row: usize, col: usize) -> (r: Option<HidUsage>)
    requires
        row < ROWS,
        col < TOTAL_COLS,
    ensures
        r == usage(row * TOTAL_COLS + col),
{
    assert(row * 15 + col < 75) by (nonlinear_arith)
        requires
            row < 5,
            col < 15,
    ;
    let key: u8 = usage_at(row * TOTAL_COLS + col);
    if key == HID_NO {
        None
    } else if key >= HID_MOD_LCTRL && key <= HID_MOD_RGUI {
        Some(HidUsage { modifier: 1u8 << (key - HID_MOD_LCTRL), key: 0 })
    } else {
        Some(HidUsage { modifier: 0, key })
    }
}

/// Where the key with an identifier stands.
pub open spec fn position(key_id: u8) -> Option<int> {
    if key_id >= RIGHT_KEY_BASE {
        let right_id = key_id - RIGHT_KEY_BASE;
        if right_id >= ROWS * RIGHT_COLS {
            None
        } else {
            Some((right_id / 8) * TOTAL_COLS + COLS + right_id % 8)
        }
    } else if key_id >= ROWS * COLS {
        None
    } else {
        Some((key_id as int / 7) * TOTAL_COLS + key_id as int % 7)
    }
}

/// Where the key with an identifier stands.
pub fn key_id_to_pos(key_id: u8) -> (r: Option<usize>)
    ensures
        match r {
            Some(pos) => position(key_id) == Some(pos as int) && pos < TOTAL_KEYS,
            None => position(key_id) is None,
        },
{
    if key_id >= RIGHT_KEY_BASE {
        let right_id: u8 = key_id - RIGHT_KEY_BASE;
        if right_id >= 40 {
            return None;
        }
        let row: usize = right_id as usize / RIGHT_COLS;
        let col: usize = right_id as usize % RIGHT_COLS + COLS;
        Some(row * TOTAL_COLS + col)
    } else {
        if key_id >= 35 {
            return None;
        }
        let row: usize = key_id as usize / COLS;
        let col: usize = key_id as usize % COLS;
        Some(row * TOTAL_COLS + col)
    }
}

/// No two keys share a position, and every key stands within the table.
pub proof fn law_positions(a: u8, b: u8)
    ensures
        position(a) is Some && position(a) == position(b) ==> a == b,
        position(a) matches Some(p) ==> 0 <= p < TOTAL_KEYS,
{
}

/// The key identifier of a position.
pub open spec fn key_at(pos: int) -> u8 {
    let row = pos / 15;
    let col = pos % 15;
    if col < 7 {
        (row * 7 + col) as u8
    } else {
        (RIGHT_KEY_BASE + row * 8 + col - 7) as u8
    }
}

/// Every position has a key.
pub proof fn law_every_position_has_a_key(pos: int)
    requires
        0 <= pos < TOTAL_KEYS,
    ensures
        position(key_at(pos)) == Some(pos),
{
}

/// A key is a modifier or it is not: a modifier has the bit that its usage counts
/// from the first modifier, and no usage; any other key has its usage, and no bit.
pub proof fn law_usage_is_key_or_modifier(pos: int)
    requires
        0 <= pos < TOTAL_KEYS,
    ensures
        usage(pos) is None <==> usages()[pos] == HID_NO,
        usage(pos) matches Some(u) ==> {
            &&& u.key != 0 ==> u.modifier == 0 && u.key == usages()[pos] && !(0xe0 <= u.key
                <= 0xe7)
            &&& u.key == 0 ==> 0xe0 <= usages()[pos] <= 0xe7 && u.modifier == 1u8 << ((
            usages()[pos] - 0xe0) as u8) && u.modifier != 0
        },
{
    let key = usages()[pos];
    if HID_MOD_LCTRL <= key <= HID_MOD_RGUI {
        let k = (key - HID_MOD_LCTRL) as u8;
        assert(k < 8 ==> (1u8 << k) != 0) by (bit_vector);
    }
}

/// The keys of the left half stand in the first seven columns and those of the right
/// half in the other eight, row by row.
pub proof fn law_halves_side_by_side(key_id: u8)
    ensures
        position(key_id) matches Some(p) ==> key_id < RIGHT_KEY_BASE ==> p % 15 < 7 && key_id == (p
            / 15) * 7 + p % 15,
        position(key_id) matches Some(p) ==> key_id >= RIGHT_KEY_BASE ==> p % 15 >= 7 && key_id
            - RIGHT_KEY_BASE == (p / 15) * 8 + p % 15 - 7,
        position(key_id) is None <==> 35 <= key_id < RIGHT_KEY_BASE || key_id >= RIGHT_KEY_BASE
            + 40,
{
}

} // verus!
