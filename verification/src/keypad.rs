//! The sixteen-key keypad on a keyboard.

use vstd::prelude::*;
use crate::machine::KEY_LENGTH;

verus! {

/// The keyboard key that stands for each keypad key: entry `k` is the
/// code of the character whose key is keypad key `k`.
pub const KEY_LAYOUT: [i32; 16] = [
    120, 49, 50, 51,
    113, 119, 101, 97,
    115, 100, 122, 99,
    52, 114, 102, 118,
];

/// Whether the key with code `code` stands for keypad key `k`.
pub open spec fn stands_for(code: i32, k: int) -> bool {
    0 <= k < KEY_LENGTH && KEY_LAYOUT@[k] == code
}

/// The keypad key that the keyboard key with code `code` stands for, if
/// any. The four rows `1234`, `qwer`, `asdf`, `zxcv` of the keyboard stand
/// for the rows `123C`, `456D`, `789E`, `A0BF` of the keypad.
pub open spec fn keypad_key(code: i32) -> Option<usize> {
    if code == 49 {
        Some(0x1)
    } else if code == 50 {
        Some(0x2)
    } else if code == 51 {
        Some(0x3)
    } else if code == 52 {
        Some(0xC)
    } else if code == 113 {
        Some(0x4)
    } else if code == 119 {
        Some(0x5)
    } else if code == 101 {
        Some(0x6)
    } else if code == 114 {
        Some(0xD)
    } else if code == 97 {
        Some(0x7)
    } else if code == 115 {
        Some(0x8)
    } else if code == 100 {
        Some(0x9)
    } else if code == 102 {
        Some(0xE)
    } else if code == 122 {
        Some(0xA)
    } else if code == 120 {
        Some(0x0)
    } else if code == 99 {
        Some(0xB)
    } else if code == 118 {
        Some(0xF)
    } else {
        None
    }
}

/// The keypad key that the keyboard key with code `code` stands for, or
/// `None` for a key that stands for none.
pub fn control_map(code: i32) -> (r: Option<usize>)
    ensures
        r == keypad_key(code),
{
    match code {
        49 => Some(0x1),
        50 => Some(0x2),
        51 => Some(0x3),
        52 => Some(0xC),
        113 => Some(0x4),
        119 => Some(0x5),
        101 => Some(0x6),
        114 => Some(0xD),
        97 => Some(0x7),
        115 => Some(0x8),
        100 => Some(0x9),
        102 => Some(0xE),
        122 => Some(0xA),
        120 => Some(0x0),
        99 => Some(0xB),
        118 => Some(0xF),
        _ => None,
    }
}

/// The mapping and the layout table say the same: a key maps to keypad
/// key `k` exactly if the table lists it at `k`. So every keypad key has
/// one keyboard key, and no keyboard key stands for two.
pub proof fn law_mapping_is_the_layout(code: i32, k: int)
    ensures
        stands_for(code, k) <==> 0 <= k < KEY_LENGTH && keypad_key(code) == Some(k as usize),
        0 <= k < KEY_LENGTH ==> keypad_key(KEY_LAYOUT@[k]) == Some(k as usize),
{
}

} // verus!
