//! The built-in font: one 8x5 glyph for each hexadecimal digit.

use vstd::prelude::*;

verus! {

/// Bytes per glyph.
pub const GLYPH_SIZE: u8 = 5;

/// The glyphs for the digits `0` to `F`, five rows each, stored from memory
/// address 0 on.
pub const FONT_SET: [u8; 80] = [
    0xF0, 0x90, 0x90, 0x90, 0xF0,
    0x20, 0x60, 0x20, 0x20, 0x70,
    0xF0, 0x10, 0xF0, 0x80, 0xF0,
    0xF0, 0x10, 0xF0, 0x10, 0xF0,
    0x90, 0x90, 0xF0, 0x10, 0x10,
    0xF0, 0x80, 0xF0, 0x10, 0xF0,
    0xF0, 0x80, 0xF0, 0x90, 0xF0,
    0xF0, 0x10, 0x20, 0x40, 0x40,
    0xF0, 0x90, 0xF0, 0x90, 0xF0,
    0xF0, 0x90, 0xF0, 0x10, 0xF0,
    0xF0, 0x90, 0xF0, 0x90, 0x90,
    0xE0, 0x90, 0xE0, 0x90, 0xE0,
    0xF0, 0x80, 0x80, 0x80, 0xF0,
    0xE0, 0x90, 0x90, 0x90, 0xE0,
    0xF0, 0x80, 0xF0, 0x80, 0xF0,
    0xF0, 0x80, 0xF0, 0x80, 0x80,
];

/// Memory as a reset leaves it: the font from address 0 on, then zeros.
pub open spec fn font_memory() -> Seq<u8> {
    Seq::new(
        4096,
        |a: int|
            if a < 80 {
                FONT_SET@[a]
            } else {
                0u8
            },
    )
}

} // verus!
