//! The keyboard layout of the emulator.
//!
//! Keys arrive as SDL key symbols (plain `i32` codes: digits and lower-case
//! letters are their ASCII codes). The sixteen keys of the CHIP-8 keypad sit on
//! a 4x4 block of an AZERTY keyboard, position for position:
//!
//! ```text
//! CHIP-8 keypad      keyboard
//! |1|2|3|C|          |1|2|3|4|
//! |4|5|6|D|          |a|z|e|r|
//! |7|8|9|E|          |q|s|d|f|
//! |A|0|B|F|          |w|x|c|v|
//! ```
use vstd::prelude::*;

verus! {

/// SDL key symbol of the Escape key, which ends the emulator.
pub const KEY_ESCAPE: i32 = 27;
/// SDL key symbol of the `1` key.
pub const KEY_NUM1: i32 = 49;
/// SDL key symbol of the `2` key.
pub const KEY_NUM2: i32 = 50;
/// SDL key symbol of the `3` key.
pub const KEY_NUM3: i32 = 51;
/// SDL key symbol of the `4` key.
pub const KEY_NUM4: i32 = 52;
/// SDL key symbol of the `a` key.
pub const KEY_A: i32 = 97;
/// SDL key symbol of the `c` key.
pub const KEY_C: i32 = 99;
/// SDL key symbol of the `d` key.
pub const KEY_D: i32 = 100;
/// SDL key symbol of the `e` key.
pub const KEY_E: i32 = 101;
/// SDL key symbol of the `f` key.
pub const KEY_F: i32 = 102;
/// SDL key symbol of the `q` key.
pub const KEY_Q: i32 = 113;
/// SDL key symbol of the `r` key.
pub const KEY_R: i32 = 114;
/// SDL key symbol of the `s` key.
pub const KEY_S: i32 = 115;
/// SDL key symbol of the `v` key.
pub const KEY_V: i32 = 118;
/// SDL key symbol of the `w` key.
pub const KEY_W: i32 = 119;
/// SDL key symbol of the `x` key.
pub const KEY_X: i32 = 120;
/// SDL key symbol of the `z` key.
pub const KEY_Z: i32 = 122;

/// The CHIP-8 key (0 to 15) that the keyboard key `sym` stands for, if any.
pub open spec fn key_of(sym: i32) -> Option<u8> {
    if sym == KEY_NUM1 { Some(0x1u8) }
    else if sym == KEY_NUM2 { Some(0x2u8) }
    else if sym == KEY_NUM3 { Some(0x3u8) }
    else if sym == KEY_NUM4 { Some(0xCu8) }
    else if sym == KEY_A { Some(0x4u8) }
    else if sym == KEY_Z { Some(0x5u8) }
    else if sym == KEY_E { Some(0x6u8) }
    else if sym == KEY_R { Some(0xDu8) }
    else if sym == KEY_Q { Some(0x7u8) }
    else if sym == KEY_S { Some(0x8u8) }
    else if sym == KEY_D { Some(0x9u8) }
    else if sym == KEY_F { Some(0xEu8) }
    else if sym == KEY_W { Some(0xAu8) }
    else if sym == KEY_X { Some(0x0u8) }
    else if sym == KEY_C { Some(0xBu8) }
    else if sym == KEY_V { Some(0xFu8) }
    else { None }
}

/// Every key of the keypad is reached by exactly one keyboard key, and no
/// keyboard key reaches past the sixteen keys of the keypad.
pub proof fn lemma_key_of_in_range(sym: i32)
    ensures
        key_of(sym) matches Some(k) ==> k < 16,
        key_of(sym) is Some ==> sym != KEY_ESCAPE,
{
}

/// The CHIP-8 key that the keyboard key `sym` stands for, if any.
pub fn keypad_value(sym: i32) -> (k: Option<u8>)
    ensures
        k == key_of(sym),
{
    if sym == KEY_NUM1 { Some(0x1) }
    else if sym == KEY_NUM2 { Some(0x2) }
    else if sym == KEY_NUM3 { Some(0x3) }
    else if sym == KEY_NUM4 { Some(0xC) }
    else if sym == KEY_A { Some(0x4) }
    else if sym == KEY_Z { Some(0x5) }
    else if sym == KEY_E { Some(0x6) }
    else if sym == KEY_R { Some(0xD) }
    else if sym == KEY_Q { Some(0x7) }
    else if sym == KEY_S { Some(0x8) }
    else if sym == KEY_D { Some(0x9) }
    else if sym == KEY_F { Some(0xE) }
    else if sym == KEY_W { Some(0xA) }
    else if sym == KEY_X { Some(0x0) }
    else if sym == KEY_C { Some(0xB) }
    else if sym == KEY_V { Some(0xF) }
    else { None }
}

} // verus!
