//! Turning the framebuffer into what a host shows: pixel colours, or text.
use vstd::prelude::*;
use crate::chip8::Chip8;
use crate::machine::{GFX_HEIGHT, GFX_SIZE, GFX_WIDTH};

verus! {

/// Colour of an unlit cell (0x00RRGGBB).
pub const PIXEL_OFF: u32 = 0x000000;

/// Colour of a lit cell (0x00RRGGBB).
pub const PIXEL_ON: u32 = 0xFFFFFF;

/// The colour that framebuffer cell value `b` is shown in.
pub open spec fn pixel_of(b: u8) -> u32 {
    if b == 0 {
        PIXEL_OFF
    } else {
        PIXEL_ON
    }
}

/// The character that framebuffer cell value `b` is printed as.
pub open spec fn glyph_of(b: u8) -> u8 {
    if b == 0 {
        '-' as u8
    } else {
        'X' as u8
    }
}

/// Fills `buffer` with one colour per framebuffer cell, in the same
/// row-major order: black for an unlit cell, white for a lit one.
pub fn copy_gfx_to_pixel_buffer(c8: &Chip8, buffer: &mut Vec<u32>)
    requires
        old(buffer)@.len() == GFX_SIZE,
    ensures
        final(buffer)@ == Seq::new(GFX_SIZE as nat, |c: int| pixel_of(c8.gfx@[c])),
{
    let mut row: usize = 0;
    while row < GFX_HEIGHT
        invariant
            row <= GFX_HEIGHT,
            buffer@.len() == GFX_SIZE,
            forall|c: int| 0 <= c < row * GFX_WIDTH ==> buffer@[c] == pixel_of(c8.gfx@[c]),
        decreases GFX_HEIGHT - row,
    {
        let mut col: usize = 0;
        while col < GFX_WIDTH
            invariant
                row < GFX_HEIGHT,
                col <= GFX_WIDTH,
                buffer@.len() == GFX_SIZE,
                forall|c: int|
                    0 <= c < row * GFX_WIDTH + col ==> buffer@[c] == pixel_of(c8.gfx@[c]),
            decreases GFX_WIDTH - col,
        {
            let index = row * GFX_WIDTH + col;
            buffer.set(index, if c8.gfx[index] == 0 { PIXEL_OFF } else { PIXEL_ON });
            col = col + 1;
        }
        row = row + 1;
    }
    assert(buffer@ =~= Seq::new(GFX_SIZE as nat, |c: int| pixel_of(c8.gfx@[c])));
}

/// Length of one text line: a character per cell and a newline.
pub const LINE_LEN: usize = 65;

/// The framebuffer as text: one line per row, `X` for a lit cell and `-`
/// for an unlit one, each line ended by a newline.
pub open spec fn text_of(gfx: Seq<u8>) -> Seq<u8> {
    Seq::new(
        (GFX_HEIGHT * LINE_LEN) as nat,
        |k: int|
            if k % LINE_LEN as int == GFX_WIDTH {
                '\n' as u8
            } else {
                glyph_of(gfx[(k / LINE_LEN as int) * GFX_WIDTH + k % LINE_LEN as int])
            },
    )
}

/// The framebuffer as text: one line per row, `X` for a lit cell and `-`
/// for an unlit one, each line ended by a newline.
pub fn gfx_as_text(c8: &Chip8) -> (r: Vec<u8>)
    ensures
        r@ == text_of(c8.gfx@),
{
    let mut r: Vec<u8> = Vec::new();
    let mut k: usize = 0;
    while k < GFX_HEIGHT * LINE_LEN
        invariant
            k <= GFX_HEIGHT * LINE_LEN,
            r@ == text_of(c8.gfx@).subrange(0, k as int),
        decreases GFX_HEIGHT * LINE_LEN - k,
    {
        let row = k / LINE_LEN;
        let col = k % LINE_LEN;
        if col == GFX_WIDTH {
            r.push('\n' as u8);
        } else {
            assert(row * GFX_WIDTH + col < GFX_SIZE) by (nonlinear_arith)
                requires
                    row < GFX_HEIGHT,
                    col < GFX_WIDTH,
            ;
            let b = c8.gfx[row * GFX_WIDTH + col];
            r.push(if b == 0 { '-' as u8 } else { 'X' as u8 });
        }
        k = k + 1;
        assert(r@ =~= text_of(c8.gfx@).subrange(0, k as int));
    }
    assert(r@ =~= text_of(c8.gfx@));
    r
}

} // verus!
