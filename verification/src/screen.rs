//! The sprite-draw instruction's effect on the 64x32 framebuffer: an 8-bit
//! wide, N-row sprite is XOR-blitted at a position taken from two registers,
//! pixels falling outside the screen are dropped, and a collision is any
//! pixel that goes from set to unset.

use vstd::prelude::*;

verus! {

/// The width of the framebuffer in pixels.
pub const SCREEN_WIDTH: u16 = 64;

/// The height of the framebuffer in pixels.
pub const SCREEN_HEIGHT: u16 = 32;

/// The number of pixels in the framebuffer.
pub const SCREEN_PIXELS: u16 = 2048;

/// Bit `j` of a sprite row, counted from the most significant bit: the
/// leftmost pixel of a row is its top bit.
pub open spec fn sprite_bit(b: u8, j: int) -> bool
    recommends
        0 <= j < 8,
{
    (b >> ((7 - j) as u8)) & 1 == 1
}

/// Whether the sprite with top-left corner `(x0, y0)`, height `n` and rows
/// `mem[ir .. ir + n]` has a set bit landing on framebuffer cell `pos`
/// (row-major, `pos == py * 64 + px`).  Coordinates do not wrap: a cell is
/// covered only by the one sprite bit at column `px - x0` of row `py - y0`.
pub open spec fn sprite_hits(mem: Seq<u8>, ir: u16, x0: u8, y0: u8, n: u8, pos: int) -> bool
    recommends
        mem.len() == 4096,
        0 <= pos < SCREEN_PIXELS,
        n > 0 ==> ir + n <= 4096,
{
    let px = pos % 64;
    let py = pos / 64;
    &&& x0 <= px < x0 + 8
    &&& y0 <= py < y0 + n
    &&& sprite_bit(mem[ir + (py - y0)], px - x0)
}

/// A pixel after one XOR with a set sprite bit.
pub open spec fn flip(p: u8) -> u8 {
    if p == 0 {
        1
    } else {
        0
    }
}

/// The framebuffer after one sprite draw: every covered cell is XORed,
/// every other cell keeps its value.
pub open spec fn draw_apply(gfx: Seq<u8>, mem: Seq<u8>, ir: u16, x0: u8, y0: u8, n: u8) -> Seq<
    u8,
> {
    Seq::new(
        gfx.len(),
        |pos: int|
            if sprite_hits(mem, ir, x0, y0, n, pos) {
                flip(gfx[pos])
            } else {
                gfx[pos]
            },
    )
}

/// Whether one sprite draw turns any set pixel unset: the collision that the
/// draw instruction reports in register F.
pub open spec fn draw_collides(gfx: Seq<u8>, mem: Seq<u8>, ir: u16, x0: u8, y0: u8, n: u8) -> bool {
    exists|pos: int|
        0 <= pos < gfx.len() && sprite_hits(mem, ir, x0, y0, n, pos) && gfx[pos] == 1
}

/// Drawing the same sprite twice at the same coordinates restores the
/// framebuffer exactly, and the second draw collides precisely on the cells
/// that the first draw turned on: it reports a collision if and only if some
/// covered cell was clear before the first draw.
pub proof fn lemma_draw_twice_restores(
    gfx: Seq<u8>,
    mem: Seq<u8>,
    ir: u16,
    x0: u8,
    y0: u8,
    n: u8,
)
    requires
        forall|i: int| 0 <= i < gfx.len() ==> gfx[i] == 0 || gfx[i] == 1,
    ensures
        draw_apply(draw_apply(gfx, mem, ir, x0, y0, n), mem, ir, x0, y0, n) == gfx,
        draw_collides(draw_apply(gfx, mem, ir, x0, y0, n), mem, ir, x0, y0, n) <==> (exists|
            pos: int,
        |
            0 <= pos < gfx.len() && sprite_hits(mem, ir, x0, y0, n, pos) && gfx[pos] == 0),
{
    let once = draw_apply(gfx, mem, ir, x0, y0, n);
    assert forall|pos: int| 0 <= pos < gfx.len() implies draw_apply(
        once,
        mem,
        ir,
        x0,
        y0,
        n,
    )[pos] == gfx[pos] by {
        assert(gfx[pos] == 0 || gfx[pos] == 1);
    }
    assert(draw_apply(once, mem, ir, x0, y0, n) =~= gfx);
    if draw_collides(once, mem, ir, x0, y0, n) {
        let pos = choose|pos: int|
            0 <= pos < once.len() && sprite_hits(mem, ir, x0, y0, n, pos) && once[pos] == 1;
        assert(0 <= pos < gfx.len() && sprite_hits(mem, ir, x0, y0, n, pos) && gfx[pos] == 0);
    }
    if exists|pos: int| 0 <= pos < gfx.len() && sprite_hits(mem, ir, x0, y0, n, pos) && gfx[pos]
        == 0 {
        let pos = choose|pos: int|
            0 <= pos < gfx.len() && sprite_hits(mem, ir, x0, y0, n, pos) && gfx[pos] == 0;
        assert(0 <= pos < once.len() && sprite_hits(mem, ir, x0, y0, n, pos) && once[pos] == 1);
    }
}

} // verus!
