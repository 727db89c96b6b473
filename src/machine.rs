//! The mathematical model of the interpreter: its state as sequences and
//! plain values, and what one instruction and one cycle do to it.
use vstd::prelude::*;
use crate::instruction::{decode_spec, Instruction};

verus! {

/// Size of the addressable memory in bytes.
pub const MEMORY_SIZE: usize = 4096;

/// Where programs are loaded and where execution starts.
pub const PROGRAM_START: u16 = 0x200;

/// Framebuffer width in cells.
pub const GFX_WIDTH: usize = 64;

/// Framebuffer height in cells.
pub const GFX_HEIGHT: usize = 32;

/// Number of framebuffer cells.
pub const GFX_SIZE: usize = 2048;

/// Index of the carry / borrow / collision flag register.
pub const FLAG: usize = 15;

/// The whole machine state, as seen by contracts.
pub struct MachineState {
    pub memory: Seq<u8>,
    pub v: Seq<u8>,
    pub stack: Seq<u16>,
    pub input: Seq<u8>,
    pub gfx: Seq<u8>,
    pub i: u16,
    pub pc: u16,
    pub sp: u16,
    pub delay_timer: u8,
    pub sound_timer: u8,
    pub draw_flag: bool,
}

impl MachineState {
    /// The sequences have the machine's fixed sizes.
    pub open spec fn wf(self) -> bool {
        &&& self.memory.len() == MEMORY_SIZE
        &&& self.v.len() == 16
        &&& self.stack.len() == 16
        &&& self.input.len() == 16
        &&& self.gfx.len() == GFX_SIZE
    }
}

/// A 16-bit value wrapped from an integer.
pub open spec fn wrap16(n: int) -> u16 {
    (n % 0x10000) as u16
}

/// An 8-bit value wrapped from an integer.
pub open spec fn wrap8(n: int) -> u8 {
    (n % 0x100) as u8
}

/// The memory cell that an address names: only the low twelve bits count.
pub open spec fn addr(a: int) -> int {
    a % 0x1000
}

/// The state with the program counter moved forward by `k` bytes.
pub open spec fn advance(s: MachineState, k: int) -> MachineState {
    MachineState { pc: wrap16(s.pc + k), ..s }
}

/// The state with register `x` set to `b`, then the program counter moved on.
pub open spec fn set_reg(s: MachineState, x: u8, b: u8) -> MachineState {
    advance(MachineState { v: s.v.update(x as int, b), ..s }, 2)
}

/// Moves on by 4 (skipping the next instruction) when `cond` holds, else by 2.
pub open spec fn skip_if(s: MachineState, cond: bool) -> MachineState {
    advance(s, if cond { 4 } else { 2 })
}

/// Key `k` is down.
pub open spec fn key_down(s: MachineState, k: u8) -> bool {
    k < 16 && s.input[k as int] == 1
}

/// The lowest key index at or after `k` that is down, or 16 when none is.
pub open spec fn first_key_from(input: Seq<u8>, k: int) -> int
    decreases 16 - k,
{
    if k >= 16 {
        16
    } else if input[k] == 1 {
        k
    } else {
        first_key_from(input, k + 1)
    }
}

/// Bit `col` of a sprite row is lit, counting from the most significant bit.
pub open spec fn bit_lit(b: u8, col: u8) -> bool {
    b & (0x80u8 >> col) != 0
}

/// The sprite column that lands on framebuffer column `cx` when drawing at `x0`.
pub open spec fn sprite_col(x0: u8, cx: int) -> int {
    (cx + 64 - x0 % 64) % 64
}

/// The sprite row that lands on framebuffer row `cy` when drawing at `y0`.
pub open spec fn sprite_row(y0: u8, cy: int) -> int {
    (cy + 32 - y0 % 32) % 32
}

/// Cell `c` receives a lit pixel of the `n`-row sprite at `memory[I..]` drawn
/// at `(x0, y0)`, coordinates wrapping at the screen edges.
pub open spec fn covered(s: MachineState, x0: u8, y0: u8, n: u8, c: int) -> bool {
    let col = sprite_col(x0, c % 64);
    let row = sprite_row(y0, c / 64);
    &&& col < 8
    &&& row < n
    &&& bit_lit(s.memory[addr(s.i + row)], col as u8)
}

/// A lit sprite pixel lands on a cell that is lit.
pub open spec fn collides(s: MachineState, x0: u8, y0: u8, n: u8) -> bool {
    exists|c: int| 0 <= c < GFX_SIZE && #[trigger] covered(s, x0, y0, n, c) && s.gfx[c] == 1
}

/// The framebuffer after XOR-drawing the sprite.
pub open spec fn drawn(s: MachineState, x0: u8, y0: u8, n: u8) -> Seq<u8> {
    Seq::new(
        GFX_SIZE as nat,
        |c: int| if covered(s, x0, y0, n, c) { s.gfx[c] ^ 1 } else { s.gfx[c] },
    )
}

/// Offset of memory cell `a` from `I`, modulo the memory size.
pub open spec fn offset_from_index(s: MachineState, a: int) -> int {
    (a + 0x1000 - s.i % 0x1000) % 0x1000
}

/// Memory after storing `V0..=Vx` at `I`.
pub open spec fn stored_regs(s: MachineState, x: u8) -> Seq<u8> {
    Seq::new(
        MEMORY_SIZE as nat,
        |a: int|
            if offset_from_index(s, a) <= x {
                s.v[offset_from_index(s, a)]
            } else {
                s.memory[a]
            },
    )
}

/// Registers after loading `V0..=Vx` from memory at `I`.
pub open spec fn loaded_regs(s: MachineState, x: u8) -> Seq<u8> {
    Seq::new(16, |k: int| if k <= x { s.memory[addr(s.i + k)] } else { s.v[k] })
}

/// What one decoded instruction does to the state; `random` is the byte that
/// `Cxnn` draws. A word that decodes to nothing only moves on by 2.
pub open spec fn execute(s: MachineState, ins: Option<Instruction>, random: u8) -> MachineState {
    match ins {
        None => advance(s, 2),
        Some(ins) => match ins {
            Instruction::ClearScreen => advance(
                MachineState { gfx: Seq::new(GFX_SIZE as nat, |c: int| 0u8), ..s },
                2,
            ),
            // The stack pointer wraps modulo 16 on both push and pop.
            Instruction::Return => {
                let sp = ((s.sp + 15) % 16) as u16;
                MachineState { sp, pc: s.stack[sp as int], ..s }
            },
            Instruction::Jump { addr } => MachineState { pc: addr, ..s },
            Instruction::Call { addr } => MachineState {
                stack: s.stack.update((s.sp % 16) as int, s.pc),
                sp: ((s.sp + 1) % 16) as u16,
                pc: addr,
                ..s
            },
            Instruction::SkipIfEqImm { x, nn } => skip_if(s, s.v[x as int] == nn),
            Instruction::SkipIfNeImm { x, nn } => skip_if(s, s.v[x as int] != nn),
            Instruction::SkipIfEqReg { x, y } => skip_if(s, s.v[x as int] == s.v[y as int]),
            Instruction::SkipIfNeReg { x, y } => skip_if(s, s.v[x as int] != s.v[y as int]),
            Instruction::LoadImm { x, nn } => set_reg(s, x, nn),
            Instruction::AddImm { x, nn } => set_reg(s, x, wrap8(s.v[x as int] + nn)),
            Instruction::Move { x, y } => set_reg(s, x, s.v[y as int]),
            Instruction::Or { x, y } => set_reg(s, x, s.v[x as int] | s.v[y as int]),
            Instruction::And { x, y } => set_reg(s, x, s.v[x as int] & s.v[y as int]),
            Instruction::Xor { x, y } => set_reg(s, x, s.v[x as int] ^ s.v[y as int]),
            // The flag is written first; the result then reads the registers
            // as they stand after it.
            Instruction::AddReg { x, y } => {
                let f = if s.v[x as int] + s.v[y as int] > 0xFF { 1u8 } else { 0u8 };
                let v = s.v.update(FLAG as int, f);
                set_reg(MachineState { v, ..s }, x, wrap8(v[x as int] + v[y as int]))
            },
            Instruction::SubReg { x, y } => {
                let f = if s.v[y as int] > s.v[x as int] { 0u8 } else { 1u8 };
                let v = s.v.update(FLAG as int, f);
                set_reg(MachineState { v, ..s }, x, wrap8(v[x as int] - v[y as int]))
            },
            Instruction::ShiftRight { x } => {
                let v = s.v.update(FLAG as int, s.v[x as int] & 1);
                set_reg(MachineState { v, ..s }, x, v[x as int] >> 1u8)
            },
            Instruction::SubRev { x, y } => {
                let f = if s.v[x as int] > s.v[y as int] { 0u8 } else { 1u8 };
                let v = s.v.update(FLAG as int, f);
                set_reg(MachineState { v, ..s }, x, wrap8(v[y as int] - v[x as int]))
            },
            Instruction::ShiftLeft { x } => {
                let v = s.v.update(FLAG as int, (s.v[x as int] >> 7u8) & 1);
                set_reg(MachineState { v, ..s }, x, wrap8(v[x as int] * 2))
            },
            Instruction::SetIndex { addr } => advance(MachineState { i: addr, ..s }, 2),
            Instruction::JumpOffset { addr } => MachineState { pc: wrap16(s.v[0] + addr), ..s },
            Instruction::Random { x, nn } => set_reg(s, x, random & nn),
            // The coordinates are those the registers hold when the
            // instruction starts, before the flag register is written.
            Instruction::Draw { x, y, n } => {
                let (x0, y0) = (s.v[x as int], s.v[y as int]);
                let f = if collides(s, x0, y0, n) { 1u8 } else { 0u8 };
                advance(
                    MachineState {
                        gfx: drawn(s, x0, y0, n),
                        v: s.v.update(FLAG as int, f),
                        draw_flag: true,
                        ..s
                    },
                    2,
                )
            },
            Instruction::SkipIfKey { x } => skip_if(s, key_down(s, s.v[x as int])),
            Instruction::SkipIfNoKey { x } => skip_if(s, !key_down(s, s.v[x as int])),
            Instruction::ReadDelay { x } => set_reg(s, x, s.delay_timer),
            Instruction::WaitKey { x } => {
                let k = first_key_from(s.input, 0);
                if k < 16 {
                    set_reg(s, x, k as u8)
                } else {
                    s
                }
            },
            Instruction::SetDelay { x } => advance(
                MachineState { delay_timer: s.v[x as int], ..s },
                2,
            ),
            Instruction::SetSound { x } => advance(
                MachineState { sound_timer: s.v[x as int], ..s },
                2,
            ),
            Instruction::AddIndex { x } => advance(
                MachineState { i: wrap16(s.i + s.v[x as int]), ..s },
                2,
            ),
            Instruction::FontGlyph { x } => advance(
                MachineState { i: (s.v[x as int] * 5) as u16, ..s },
                2,
            ),
            Instruction::StoreBcd { x } => {
                let b = s.v[x as int];
                let memory = s.memory.update(addr(s.i as int), b / 100).update(
                    addr(s.i + 1),
                    (b % 100) / 10,
                ).update(addr(s.i + 2), b % 10);
                advance(MachineState { memory, ..s }, 2)
            },
            Instruction::StoreRegs { x } => advance(
                MachineState { memory: stored_regs(s, x), ..s },
                2,
            ),
            Instruction::LoadRegs { x } => advance(MachineState { v: loaded_regs(s, x), ..s }, 2),
        },
    }
}

/// The instruction word at the program counter, high byte first.
pub open spec fn fetch(s: MachineState) -> u16 {
    (s.memory[addr(s.pc as int)] * 0x100 + s.memory[addr(s.pc + 1)]) as u16
}

/// The start of a cycle: the draw flag is cleared and each running timer
/// counts down by one.
pub open spec fn begin_cycle(s: MachineState) -> MachineState {
    MachineState {
        draw_flag: false,
        delay_timer: if s.delay_timer > 0 { (s.delay_timer - 1) as u8 } else { 0 },
        sound_timer: if s.sound_timer > 0 { (s.sound_timer - 1) as u8 } else { 0 },
        ..s
    }
}

/// One whole cycle: begin it, then fetch, decode and execute one instruction.
pub open spec fn cycle(s: MachineState, random: u8) -> MachineState {
    let t = begin_cycle(s);
    execute(t, decode_spec(fetch(t)), random)
}

/// Within one register file's reach of `I`, the offset of `(I + k) mod 4096`
/// from `I` is `k`, and `(I + k) mod 4096` is the one cell at that offset.
pub proof fn lemma_offset_unique(i: u16, k: int)
    requires
        0 <= k < 16,
    ensures
        (((i + k) % 0x1000) + 0x1000 - i % 0x1000) % 0x1000 == k,
        forall|a: int|
            0 <= a < 0x1000 && #[trigger] ((a + 0x1000 - i % 0x1000) % 0x1000) == k
                ==> a == (i + k) % 0x1000,
{
    let ku = k as u64;
    let iu = i as u64;
    assert(((iu + ku) % 0x1000 + 0x1000 - iu % 0x1000) % 0x1000 == ku) by (bit_vector)
        requires
            ku < 16,
    ;
    assert forall|a: int|
        0 <= a < 0x1000 && #[trigger] ((a + 0x1000 - i % 0x1000) % 0x1000) == k
            implies a == (i + k) % 0x1000 by {
        let au = a as u64;
        assert((au + 0x1000 - iu % 0x1000) % 0x1000 == ku ==> au == (iu + ku) % 0x1000)
            by (bit_vector)
            requires
                ku < 16,
                au < 0x1000,
        ;
    }
}

/// The cell that sprite pixel `(row, col)` lands on when drawing at `(x0, y0)`
/// is the only cell that maps back to that pixel.
pub proof fn lemma_target(x0: u8, y0: u8, row: int, col: int)
    requires
        0 <= row < 16,
        0 <= col < 8,
    ensures
        ({
            let t = ((y0 + row) % 32) * 64 + (x0 + col) % 64;
            &&& 0 <= t < GFX_SIZE
            &&& sprite_col(x0, t % 64) == col
            &&& sprite_row(y0, t / 64) == row
            &&& forall|c: int|
                0 <= c < GFX_SIZE && sprite_col(x0, #[trigger] (c % 64)) == col && sprite_row(
                    y0,
                    #[trigger] (c / 64),
                ) == row ==> c == t
        }),
{
    let t = ((y0 + row) % 32) * 64 + (x0 + col) % 64;
    assert(t % 64 == (x0 + col) % 64 && t / 64 == (y0 + row) % 32);
    assert(((x0 + col) % 64 + 64 - x0 % 64) % 64 == col);
    assert(((y0 + row) % 32 + 32 - y0 % 32) % 32 == row);
    assert forall|c: int|
        0 <= c < GFX_SIZE && sprite_col(x0, #[trigger] (c % 64)) == col && sprite_row(
            y0,
            #[trigger] (c / 64),
        ) == row implies c == t by {
        assert(c % 64 == (x0 + col) % 64);
        assert(c / 64 == (y0 + row) % 32);
    }
}

} // verus!
