//! Laws that relate instructions to each other and to the machine state,
//! proved over the model of `machine`.
use vstd::prelude::*;
use crate::instruction::{decode_spec, Instruction};
use crate::machine::{
    addr, bit_lit, covered, execute, lemma_offset_unique, lemma_target, offset_from_index,
    wrap16, MachineState, FLAG, GFX_SIZE,
};

verus! {

/// `00E0` turns every framebuffer cell off and moves the program counter on
/// by exactly 2, whatever the framebuffer held; nothing else changes.
pub proof fn law_clear_screen(s: MachineState, random: u8)
    requires
        s.wf(),
    ensures
        ({
            let t = execute(s, decode_spec(0x00E0), random);
            &&& t.gfx.len() == GFX_SIZE
            &&& forall|c: int| 0 <= c < GFX_SIZE ==> t.gfx[c] == 0
            &&& t.pc == wrap16(s.pc + 2)
            &&& t == (MachineState { gfx: t.gfx, pc: t.pc, ..s })
        }),
{
}

/// `3xnn` skips the next instruction (the program counter moves on by 4)
/// exactly when `Vx == nn`, and otherwise moves on by 2.
pub proof fn law_skip_if_equal(s: MachineState, x: u8, nn: u8, random: u8)
    requires
        s.wf(),
        x < 16,
    ensures
        ({
            let t = execute(s, decode_spec((0x3000 + x * 0x100 + nn) as u16), random);
            &&& s.v[x as int] == nn ==> t.pc == wrap16(s.pc + 4)
            &&& s.v[x as int] != nn ==> t.pc == wrap16(s.pc + 2)
        }),
{
    let w = (0x3000 + x * 0x100 + nn) as u16;
    assert(w / 0x1000 == 3 && (w / 0x100) % 0x10 == x && w % 0x100 == nn);
}

/// A sprite that has at least one lit pixel among its `n` rows.
pub open spec fn sprite_lit(s: MachineState, n: u8) -> bool {
    exists|row: int| 0 <= row < n && #[trigger] s.memory[addr(s.i + row)] != 0
}

/// Drawing the same sprite twice at the same place gives back the framebuffer
/// as it was. On a blank screen, with a sprite that has a lit pixel, the first
/// draw reports no collision and the second one does.
///
/// The coordinates stay the same only when neither of them is read from the
/// flag register, which the first draw overwrites.
pub proof fn law_draw_twice(s: MachineState, x: u8, y: u8, n: u8, random: u8)
    requires
        s.wf(),
        x < FLAG,
        y < FLAG,
        n < 16,
    ensures
        ({
            let ins = Some(Instruction::Draw { x, y, n });
            let s1 = execute(s, ins, random);
            let s2 = execute(s1, ins, random);
            &&& s2.gfx == s.gfx
            &&& (forall|c: int| 0 <= c < GFX_SIZE ==> s.gfx[c] == 0) && sprite_lit(s, n)
                ==> s1.v[FLAG as int] == 0 && s2.v[FLAG as int] == 1
        }),
{
    let ins = Some(Instruction::Draw { x, y, n });
    let s1 = execute(s, ins, random);
    let s2 = execute(s1, ins, random);
    let (x0, y0) = (s.v[x as int], s.v[y as int]);
    assert(s1.v[x as int] == x0 && s1.v[y as int] == y0);
    assert forall|c: int| 0 <= c < GFX_SIZE implies covered(s1, x0, y0, n, c) == covered(
        s,
        x0,
        y0,
        n,
        c,
    ) by {}
    assert forall|c: int| 0 <= c < GFX_SIZE implies s2.gfx[c] == s.gfx[c] by {
        let b = s.gfx[c];
        assert((b ^ 1) ^ 1 == b) by (bit_vector);
    }
    assert(s2.gfx =~= s.gfx);
    if (forall|c: int| 0 <= c < GFX_SIZE ==> s.gfx[c] == 0) && sprite_lit(s, n) {
        let row = choose|row: int| 0 <= row < n && #[trigger] s.memory[addr(s.i + row)] != 0;
        let b = s.memory[addr(s.i + row)];
        let col = lemma_lit_bit(b);
        lemma_target(x0, y0, row, col as int);
        let t = ((y0 + row) % 32) * 64 + (x0 + col) % 64;
        assert(covered(s, x0, y0, n, t));
        assert(s1.gfx[t] == 1) by {
            assert((0u8 ^ 1u8) == 1u8) by (bit_vector);
        }
        assert(covered(s1, x0, y0, n, t));
    }
}

/// A non-zero byte has a lit bit.
proof fn lemma_lit_bit(b: u8) -> (col: u8)
    requires
        b != 0,
    ensures
        col < 8,
        bit_lit(b, col),
{
    if b & 0x80 != 0 {
        assert(b & (0x80u8 >> 0u8) != 0) by (bit_vector)
            requires
                b & 0x80 != 0,
        ;
        0
    } else if b & 0x40 != 0 {
        assert(b & (0x80u8 >> 1u8) != 0) by (bit_vector)
            requires
                b & 0x40 != 0,
        ;
        1
    } else if b & 0x20 != 0 {
        assert(b & (0x80u8 >> 2u8) != 0) by (bit_vector)
            requires
                b & 0x20 != 0,
        ;
        2
    } else if b & 0x10 != 0 {
        assert(b & (0x80u8 >> 3u8) != 0) by (bit_vector)
            requires
                b & 0x10 != 0,
        ;
        3
    } else if b & 0x08 != 0 {
        assert(b & (0x80u8 >> 4u8) != 0) by (bit_vector)
            requires
                b & 0x08 != 0,
        ;
        4
    } else if b & 0x04 != 0 {
        assert(b & (0x80u8 >> 5u8) != 0) by (bit_vector)
            requires
                b & 0x04 != 0,
        ;
        5
    } else if b & 0x02 != 0 {
        assert(b & (0x80u8 >> 6u8) != 0) by (bit_vector)
            requires
                b & 0x02 != 0,
        ;
        6
    } else {
        assert(b & 0x80 == 0 && b & 0x40 == 0 && b & 0x20 == 0 && b & 0x10 == 0 && b & 0x08
            == 0 && b & 0x04 == 0 && b & 0x02 == 0 && b != 0 ==> b & (0x80u8 >> 7u8) != 0)
            by (bit_vector);
        7
    }
}

/// Storing `V0..=Vx` at `I` with `Fx55` and loading them back with `Fx65`
/// gives the registers back as they were, and neither instruction moves `I`.
pub proof fn law_store_load_round_trip(s: MachineState, x: u8, random: u8)
    requires
        s.wf(),
        x < 16,
    ensures
        ({
            let s1 = execute(s, Some(Instruction::StoreRegs { x }), random);
            let s2 = execute(s1, Some(Instruction::LoadRegs { x }), random);
            &&& s2.v == s.v
            &&& s1.i == s.i
            &&& s2.i == s.i
        }),
{
    let s1 = execute(s, Some(Instruction::StoreRegs { x }), random);
    let s2 = execute(s1, Some(Instruction::LoadRegs { x }), random);
    assert forall|k: int| 0 <= k < 16 implies s2.v[k] == s.v[k] by {
        if k <= x {
            lemma_offset_unique(s.i, k);
            assert(offset_from_index(s, addr(s.i + k)) == k);
        }
    }
    assert(s2.v =~= s.v);
}

} // verus!
