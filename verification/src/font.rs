//! The built-in hexadecimal font: sixteen glyphs of five bytes each, one
//! byte per row, for the digits 0 to F.
use vstd::prelude::*;

verus! {

/// Where the font is loaded in memory.
pub const FONT_START: u16 = 0x50;

/// Number of bytes of one glyph.
pub const GLYPH_BYTES: u16 = 5;

/// The font, glyph after glyph, digits 0 to F.
pub open spec fn font_spec() -> Seq<u8> {
    seq![
        0xF0u8, 0x90u8, 0x90u8, 0x90u8, 0xF0u8, // 0
        0x20u8, 0x60u8, 0x20u8, 0x20u8, 0x70u8, // 1
        0xF0u8, 0x10u8, 0xF0u8, 0x80u8, 0xF0u8, // 2
        0xF0u8, 0x10u8, 0xF0u8, 0x10u8, 0xF0u8, // 3
        0x90u8, 0x90u8, 0xF0u8, 0x10u8, 0x10u8, // 4
        0xF0u8, 0x80u8, 0xF0u8, 0x10u8, 0xF0u8, // 5
        0xF0u8, 0x80u8, 0xF0u8, 0x90u8, 0xF0u8, // 6
        0xF0u8, 0x10u8, 0x20u8, 0x40u8, 0x40u8, // 7
        0xF0u8, 0x90u8, 0xF0u8, 0x90u8, 0xF0u8, // 8
        0xF0u8, 0x90u8, 0xF0u8, 0x10u8, 0xF0u8, // 9
        0xF0u8, 0x90u8, 0xF0u8, 0x90u8, 0x90u8, // A
        0xE0u8, 0x90u8, 0xE0u8, 0x90u8, 0xE0u8, // B
        0xF0u8, 0x80u8, 0x80u8, 0x80u8, 0xF0u8, // C
        0xE0u8, 0x90u8, 0x90u8, 0x90u8, 0xE0u8, // D
        0xF0u8, 0x80u8, 0xF0u8, 0x80u8, 0xF0u8, // E
        0xF0u8, 0x80u8, 0xF0u8, 0x80u8, 0x80u8, // F
    ]
}

/// The font as bytes.
pub fn font() -> (f: [u8; 80])
    ensures
        f@ == font_spec(),
{
    let f: [u8; 80] = [
        0xF0, 0x90, 0x90, 0x90, 0xF0, // 0
        0x20, 0x60, 0x20, 0x20, 0x70, // 1
        0xF0, 0x10, 0xF0, 0x80, 0xF0, // 2
        0xF0, 0x10, 0xF0, 0x10, 0xF0, // 3
        0x90, 0x90, 0xF0, 0x10, 0x10, // 4
        0xF0, 0x80, 0xF0, 0x10, 0xF0, // 5
        0xF0, 0x80, 0xF0, 0x90, 0xF0, // 6
        0xF0, 0x10, 0x20, 0x40, 0x40, // 7
        0xF0, 0x90, 0xF0, 0x90, 0xF0, // 8
        0xF0, 0x90, 0xF0, 0x10, 0xF0, // 9
        0xF0, 0x90, 0xF0, 0x90, 0x90, // A
        0xE0, 0x90, 0xE0, 0x90, 0xE0, // B
        0xF0, 0x80, 0x80, 0x80, 0xF0, // C
        0xE0, 0x90, 0x90, 0x90, 0xE0, // D
        0xF0, 0x80, 0xF0, 0x80, 0xF0, // E
        0xF0, 0x80, 0xF0, 0x80, 0x80, // F
    ];
    assert(f@ =~= font_spec());
    f
}

} // verus!
