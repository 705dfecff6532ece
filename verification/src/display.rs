//! The framebuffer and the drawing of sprites into it.
//!
//! The framebuffer has 64 columns and 32 rows; pixel `(x, y)` is stored at
//! index `x + 64 * y`. A sprite is a run of bytes in memory, one byte per
//! row, the highest bit leftmost. Drawing XORs the sprite onto the buffer;
//! the part of a sprite that would fall outside the buffer is dropped.

use vstd::prelude::*;

verus! {

/// Whether column `col` (0 is the leftmost of 8) of a sprite row is lit.
pub open spec fn bit_lit(row: u8, col: u8) -> bool {
    (row >> ((7 - col) as u8)) & 1 == 1
}

/// Whether the sprite of `rows` rows that starts at memory address `i`,
/// placed with its top left corner at `(cx, cy)`, has a lit bit on the pixel
/// with index `p`.
pub open spec fn sprite_lit(memory: Seq<u8>, i: u16, cx: u8, cy: u8, rows: u8, p: int) -> bool {
    let px = p % 64;
    let py = p / 64;
    &&& cx <= px < cx + 8
    &&& cy <= py < cy + rows
    &&& bit_lit(memory[(i + (py - cy)) % 4096], (px - cx) as u8)
}

/// The framebuffer after the sprite has been drawn: every pixel under a lit
/// bit of the sprite is inverted, every other pixel is as before.
pub open spec fn drawn(pixels: Seq<bool>, memory: Seq<u8>, i: u16, cx: u8, cy: u8, rows: u8) -> Seq<
    bool,
> {
    Seq::new(2048, |p: int| pixels[p] != sprite_lit(memory, i, cx, cy, rows, p))
}

/// Whether drawing the sprite turns off a pixel that was on.
pub open spec fn erases(pixels: Seq<bool>, memory: Seq<u8>, i: u16, cx: u8, cy: u8, rows: u8) -> bool {
    exists|p: int| 0 <= p < 2048 && pixels[p] && #[trigger] sprite_lit(memory, i, cx, cy, rows, p)
}

/// The framebuffer with every pixel off.
pub open spec fn blank() -> Seq<bool> {
    Seq::new(2048, |p: int| false)
}

/// The colour that the host shows for a pixel that is on.
pub const LIT: u32 = 0xFFFFFF;

/// The colour that the host shows for a pixel that is off.
pub const DARK: u32 = 0x000000;

/// The framebuffer as colours, one per pixel, in the order of the buffer.
pub fn frame(buffer: &[bool; 2048]) -> (colours: Vec<u32>)
    ensures
        colours@.len() == 2048,
        forall|p: int|
            0 <= p < 2048 ==> colours@[p] == if buffer@[p] {
                LIT
            } else {
                DARK
            },
{
    let mut colours: Vec<u32> = Vec::with_capacity(2048);
    let mut p: usize = 0;
    while p < 2048
        invariant
            p <= 2048,
            colours@.len() == p,
            forall|q: int|
                0 <= q < p ==> colours@[q] == if buffer@[q] {
                    LIT
                } else {
                    DARK
                },
        decreases 2048 - p,
    {
        colours.push(
            if buffer[p] {
                LIT
            } else {
                DARK
            },
        );
        p += 1;
    }
    colours
}

/// Whether pixel `p` lies under a position of the sprite that comes before
/// `(row, col)` when the sprite is walked row by row, left to right.
spec fn reached(cx: u8, cy: u8, row: int, col: int, p: int) -> bool {
    let r = p / 64 - cy;
    let c = p % 64 - cx;
    r < row || (r == row && c < col)
}

/// The framebuffer when the sprite has been drawn up to, and not including,
/// position `(row, col)`.
spec fn drawn_until(
    pixels: Seq<bool>,
    memory: Seq<u8>,
    i: u16,
    cx: u8,
    cy: u8,
    rows: u8,
    row: int,
    col: int,
) -> Seq<bool> {
    Seq::new(
        2048,
        |p: int|
            pixels[p] != (sprite_lit(memory, i, cx, cy, rows, p) && reached(cx, cy, row, col, p)),
    )
}

/// Whether drawing the sprite up to, and not including, position
/// `(row, col)` turns off a pixel that was on.
spec fn erases_until(
    pixels: Seq<bool>,
    memory: Seq<u8>,
    i: u16,
    cx: u8,
    cy: u8,
    rows: u8,
    row: int,
    col: int,
) -> bool {
    exists|p: int|
        0 <= p < 2048 && pixels[p] && #[trigger] sprite_lit(memory, i, cx, cy, rows, p) && reached(
            cx,
            cy,
            row,
            col,
            p,
        )
}

/// Draws the sprite of `rows` rows that starts at memory address `i` with
/// its top left corner at `(cx, cy)`, and says whether that turned off a
/// pixel that was on. Positions outside the buffer are dropped; sprite
/// addresses are taken modulo 4096.
pub fn draw(buffer: &mut [bool; 2048], memory: &[u8; 4096], i: u16, cx: u8, cy: u8, rows: u8) -> (erased:
    bool)
    ensures
        final(buffer)@ == drawn(old(buffer)@, memory@, i, cx, cy, rows),
        erased == erases(old(buffer)@, memory@, i, cx, cy, rows),
{
    let ghost before = buffer@;
    let mut erased: bool = false;
    let mut row: u8 = 0;
    assert(buffer@ =~= drawn_until(before, memory@, i, cx, cy, rows, 0, 0));
    while row < rows
        invariant
            row <= rows,
            buffer@ == drawn_until(before, memory@, i, cx, cy, rows, row as int, 0),
            erased == erases_until(before, memory@, i, cx, cy, rows, row as int, 0),
        decreases rows - row,
    {
        let py: usize = cy as usize + row as usize;
        let byte: u8 = memory[(i as usize + row as usize) % 4096];
        let mut col: u8 = 0;
        while col < 8
            invariant
                col <= 8,
                row < rows,
                py == cy + row,
                byte == memory@[(i + row) % 4096],
                buffer@ == drawn_until(before, memory@, i, cx, cy, rows, row as int, col as int),
                erased == erases_until(before, memory@, i, cx, cy, rows, row as int, col as int),
            decreases 8 - col,
        {
            let px: usize = cx as usize + col as usize;
            let lit: bool = (byte >> (7 - col)) & 1 == 1;
            let ghost at = px as int + 64 * py as int;
            let ghost hit = px < 64 && py < 32 && lit;
            if px < 64 && py < 32 && lit {
                let index: usize = px + py * 64;
                let was: bool = buffer[index];
                buffer[index] = !was;
                if was {
                    erased = true;
                }
            }
            proof {
                assert forall|p: int| 0 <= p < 2048 implies (reached(
                    cx,
                    cy,
                    row as int,
                    col + 1,
                    p,
                ) && sprite_lit(memory@, i, cx, cy, rows, p)) == ((reached(
                    cx,
                    cy,
                    row as int,
                    col as int,
                    p,
                ) && sprite_lit(memory@, i, cx, cy, rows, p)) || (hit && p == at)) by {
                    if p % 64 - cx == col && p / 64 - cy == row {
                        assert(p == at);
                        assert(bit_lit(byte, col) == lit);
                    }
                }
                assert(buffer@ =~= drawn_until(
                    before,
                    memory@,
                    i,
                    cx,
                    cy,
                    rows,
                    row as int,
                    col + 1,
                ));
                if hit {
                    assert(sprite_lit(memory@, i, cx, cy, rows, at));
                }
            }
            col += 1;
        }
        proof {
            assert forall|p: int| 0 <= p < 2048 && sprite_lit(memory@, i, cx, cy, rows, p) implies reached(
                cx,
                cy,
                row as int,
                8,
                p,
            ) == reached(cx, cy, row + 1, 0, p) by {}
            assert(buffer@ =~= drawn_until(before, memory@, i, cx, cy, rows, row + 1, 0));
        }
        row += 1;
    }
    proof {
        assert forall|p: int| 0 <= p < 2048 && sprite_lit(memory@, i, cx, cy, rows, p) implies reached(
            cx,
            cy,
            rows as int,
            0,
            p,
        ) by {}
        assert(buffer@ =~= drawn(before, memory@, i, cx, cy, rows));
    }
    erased
}

} // verus!
