//! The interpreter: machine state, program loading and the
//! fetch-decode-execute cycle.
use vstd::prelude::*;
use crate::fonts::{fonts, font_set, BYTES_PER_LINE, FONT_LEN};
use crate::instruction::{decode, decode_spec, Instruction};
use crate::machine::{
    addr, advance, begin_cycle, bit_lit, collides, covered, cycle, drawn, execute, fetch,
    first_key_from, key_down, lemma_offset_unique, lemma_target, loaded_regs,
    offset_from_index, set_reg, sprite_col, sprite_row, stored_regs, wrap8, MachineState, FLAG,
    GFX_HEIGHT, GFX_SIZE, GFX_WIDTH, MEMORY_SIZE, PROGRAM_START,
};

verus! {

/// Errors that the interpreter reports.
#[derive(Clone, Copy, Debug, PartialEq, Eq, Structural)]
pub enum Chip8Error {
    /// The program does not fit in memory after the program start.
    LoadError { len: usize },
    /// The instruction word matches no known pattern; it was treated as a
    /// no-op and the program counter moved on by 2.
    UnknownOpcode { opcode: u16 },
}

/// The complete state of one interpreter.
pub struct Chip8 {
    /// Byte-addressed memory; the font sits at 0, programs at `PROGRAM_START`.
    pub memory: [u8; 4096],
    /// General registers `V0..VF`; `VF` doubles as the carry, borrow and
    /// collision flag.
    pub v: [u8; 16],
    /// Return addresses of pending calls.
    pub stack: [u16; 16],
    /// Key states written by the host before each cycle: 1 is down.
    pub input: [u8; 16],
    /// Row-major framebuffer of `GFX_WIDTH` x `GFX_HEIGHT` cells, 0 or 1.
    pub gfx: [u8; 2048],
    /// Index register: the address that sprites, BCD digits and register
    /// dumps use; only its low twelve bits pick a memory cell.
    pub i: u16,
    /// Program counter.
    pub pc: u16,
    /// Stack pointer: the next free slot, counted modulo 16.
    pub sp: u16,
    /// Counts down by one each cycle while it is above zero.
    pub delay_timer: u8,
    /// Counts down by one each cycle while it is above zero.
    pub sound_timer: u8,
    /// The framebuffer changed during the current cycle.
    pub draw_flag: bool,
}

impl View for Chip8 {
    type V = MachineState;

    open spec fn view(&self) -> MachineState {
        MachineState {
            memory: self.memory@,
            v: self.v@,
            stack: self.stack@,
            input: self.input@,
            gfx: self.gfx@,
            i: self.i,
            pc: self.pc,
            sp: self.sp,
            delay_timer: self.delay_timer,
            sound_timer: self.sound_timer,
            draw_flag: self.draw_flag,
        }
    }
}

/// Largest program that fits in memory after the program start.
pub const MAX_PROGRAM_LEN: usize = 3584;

impl Chip8 {
    /// A fresh interpreter: everything zero but the font at the start of
    /// memory, and the program counter at the program start.
    pub fn new() -> (r: Chip8)
        ensures
            r@.wf(),
            r@.memory.subrange(0, FONT_LEN as int) == font_set(),
            forall|a: int| FONT_LEN <= a < MEMORY_SIZE ==> r@.memory[a] == 0,
            forall|k: int| 0 <= k < 16 ==> r@.v[k] == 0,
            forall|k: int| 0 <= k < 16 ==> r@.stack[k] == 0,
            forall|k: int| 0 <= k < 16 ==> r@.input[k] == 0,
            forall|c: int| 0 <= c < GFX_SIZE ==> r@.gfx[c] == 0,
            r.i == 0,
            r.pc == PROGRAM_START,
            r.sp == 0,
            r.delay_timer == 0,
            r.sound_timer == 0,
            !r.draw_flag,
    {
        let mut c8 = Chip8 {
            memory: [0u8; 4096],
            v: [0u8; 16],
            stack: [0u16; 16],
            input: [0u8; 16],
            gfx: [0u8; 2048],
            i: 0,
            pc: PROGRAM_START,
            sp: 0,
            delay_timer: 0,
            sound_timer: 0,
            draw_flag: false,
        };
        let font = fonts();
        let mut k: usize = 0;
        while k < FONT_LEN
            invariant
                k <= FONT_LEN,
                font@ == font_set(),
                forall|a: int| 0 <= a < k ==> c8.memory[a] == font_set()[a],
                forall|a: int| k <= a < MEMORY_SIZE ==> c8.memory[a] == 0,
                forall|j: int| 0 <= j < 16 ==> c8.v[j] == 0,
                forall|j: int| 0 <= j < 16 ==> c8.stack[j] == 0,
                forall|j: int| 0 <= j < 16 ==> c8.input[j] == 0,
                forall|c: int| 0 <= c < GFX_SIZE ==> c8.gfx[c] == 0,
                c8.i == 0,
                c8.pc == PROGRAM_START,
                c8.sp == 0,
                c8.delay_timer == 0,
                c8.sound_timer == 0,
                !c8.draw_flag,
            decreases FONT_LEN - k,
        {
            c8.memory[k] = font[k];
            k = k + 1;
        }
        assert(c8@.memory.subrange(0, FONT_LEN as int) =~= font_set());
        c8
    }

    /// The framebuffer changed during the last cycle.
    pub fn is_draw_ready(&self) -> (r: bool)
        ensures
            r == self.draw_flag,
    {
        self.draw_flag
    }

    /// Records whether key `key` is down, for the next cycle to read.
    pub fn set_key(&mut self, key: usize, down: bool)
        requires
            key < 16,
        ensures
            final(self)@ == (MachineState {
                input: old(self)@.input.update(key as int, if down { 1u8 } else { 0u8 }),
                ..old(self)@
            }),
    {
        self.input[key] = if down { 1 } else { 0 };
        assert(self@.input =~= old(self)@.input.update(key as int, if down { 1u8 } else { 0u8 }));
    }

    /// Copies a program into memory at the program start, byte for byte.
    /// Fails, changing nothing, when it does not fit.
    pub fn load(&mut self, program: &[u8]) -> (r: Result<(), Chip8Error>)
        ensures
            r is Err <==> program@.len() > MAX_PROGRAM_LEN,
            r is Err ==> r == Err::<(), Chip8Error>(
                Chip8Error::LoadError { len: program@.len() as usize },
            ) && final(self)@ == old(self)@,
            r is Ok ==> final(self)@ == (MachineState {
                memory: old(self)@.memory.subrange(0, PROGRAM_START as int) + program@
                    + old(self)@.memory.subrange(
                    PROGRAM_START + program@.len(),
                    MEMORY_SIZE as int,
                ),
                ..old(self)@
            }),
    {
        if program.len() > MAX_PROGRAM_LEN {
            return Err(Chip8Error::LoadError { len: program.len() });
        }
        let start: usize = PROGRAM_START as usize;
        let mut k: usize = 0;
        while k < program.len()
            invariant
                k <= program@.len() <= MAX_PROGRAM_LEN,
                start == PROGRAM_START,
                forall|a: int| 0 <= a < start ==> self.memory[a] == old(self).memory[a],
                forall|a: int| 0 <= a < k ==> self.memory[start + a] == program@[a],
                forall|a: int|
                    start + k <= a < MEMORY_SIZE ==> self.memory[a] == old(self).memory[a],
                self.v == old(self).v,
                self.stack == old(self).stack,
                self.input == old(self).input,
                self.gfx == old(self).gfx,
                self.i == old(self).i,
                self.pc == old(self).pc,
                self.sp == old(self).sp,
                self.delay_timer == old(self).delay_timer,
                self.sound_timer == old(self).sound_timer,
                self.draw_flag == old(self).draw_flag,
            decreases program@.len() - k,
        {
            self.memory[start + k] = program[k];
            k = k + 1;
        }
        assert(self@.memory =~= old(self)@.memory.subrange(0, PROGRAM_START as int) + program@
            + old(self)@.memory.subrange(PROGRAM_START + program@.len(), MEMORY_SIZE as int));
        Ok(())
    }

    /// Moves the program counter forward by `k` bytes, wrapping at 16 bits.
    fn advance_pc(&mut self, k: u16)
        ensures
            final(self)@ == advance(old(self)@, k as int),
    {
        self.pc = self.pc.wrapping_add(k);
    }

    /// Writes register `x`, then moves on to the next instruction.
    fn set_reg_and_advance(&mut self, x: u8, b: u8)
        requires
            x < 16,
        ensures
            final(self)@ == set_reg(old(self)@, x, b),
    {
        self.v[x as usize] = b;
        assert(self@.v =~= old(self)@.v.update(x as int, b));
        self.advance_pc(2);
    }

    /// Jumps, calls, returns and conditional skips.
    #[verifier::rlimit(60)]
    fn exec_flow(&mut self, ins: Instruction)
        requires
            ins.wf(),
            ins is ClearScreen || ins is Return || ins is Jump || ins is Call
                || ins is SkipIfEqImm || ins is SkipIfNeImm || ins is SkipIfEqReg
                || ins is SkipIfNeReg || ins is JumpOffset || ins is SkipIfKey
                || ins is SkipIfNoKey,
        ensures
            final(self)@ == execute(old(self)@, Some(ins), 0),
    {
        match ins {
            Instruction::ClearScreen => {
                self.gfx = [0u8; 2048];
                assert(self@.gfx =~= Seq::new(GFX_SIZE as nat, |c: int| 0u8));
                self.advance_pc(2);
            },
            Instruction::Return => {
                self.sp = (self.sp % 16 + 15) % 16;
                self.pc = self.stack[self.sp as usize];
            },
            Instruction::Jump { addr } => {
                self.pc = addr;
            },
            Instruction::Call { addr } => {
                self.stack[(self.sp % 16) as usize] = self.pc;
                assert(self@.stack =~= old(self)@.stack.update((old(self).sp % 16) as int, old(self).pc));
                self.sp = (self.sp % 16 + 1) % 16;
                self.pc = addr;
            },
            Instruction::JumpOffset { addr } => {
                self.pc = self.v[0] as u16 + addr;
            },
            Instruction::SkipIfEqImm { x, nn } => {
                let step: u16 = if self.v[x as usize] == nn { 4 } else { 2 };
                self.advance_pc(step);
            },
            Instruction::SkipIfNeImm { x, nn } => {
                let step: u16 = if self.v[x as usize] != nn { 4 } else { 2 };
                self.advance_pc(step);
            },
            Instruction::SkipIfEqReg { x, y } => {
                let step: u16 = if self.v[x as usize] == self.v[y as usize] { 4 } else { 2 };
                self.advance_pc(step);
            },
            Instruction::SkipIfNeReg { x, y } => {
                let step: u16 = if self.v[x as usize] != self.v[y as usize] { 4 } else { 2 };
                self.advance_pc(step);
            },
            Instruction::SkipIfKey { x } => {
                let step: u16 = if self.key_down(self.v[x as usize]) { 4 } else { 2 };
                self.advance_pc(step);
            },
            Instruction::SkipIfNoKey { x } => {
                let step: u16 = if !self.key_down(self.v[x as usize]) { 4 } else { 2 };
                self.advance_pc(step);
            },
            _ => {},
        }
    }

    /// Key `k` is down; a key index past the last key is never down.
    fn key_down(&self, k: u8) -> (r: bool)
        ensures
            r == key_down(self@, k),
    {
        k < 16 && self.input[k as usize] == 1
    }
    /// Writes the flag register, leaving the rest of the state as it was.
    fn set_flag(&mut self, f: u8)
        ensures
            final(self)@ == (MachineState { v: old(self)@.v.update(FLAG as int, f), ..old(self)@ }),
    {
        self.v[FLAG] = f;
        assert(self@.v =~= old(self)@.v.update(FLAG as int, f));
    }

    /// Immediates, register moves and bitwise logic, the random byte and the
    /// delay timer read.
    fn exec_load(&mut self, ins: Instruction, random: u8)
        requires
            ins.wf(),
            ins is LoadImm || ins is AddImm || ins is Move || ins is Or || ins is And
                || ins is Xor || ins is Random || ins is ReadDelay,
        ensures
            final(self)@ == execute(old(self)@, Some(ins), random),
    {
        match ins {
            Instruction::LoadImm { x, nn } => self.set_reg_and_advance(x, nn),
            Instruction::AddImm { x, nn } => {
                let b = self.v[x as usize].wrapping_add(nn);
                self.set_reg_and_advance(x, b);
            },
            Instruction::Move { x, y } => {
                let b = self.v[y as usize];
                self.set_reg_and_advance(x, b);
            },
            Instruction::Or { x, y } => {
                let b = self.v[x as usize] | self.v[y as usize];
                self.set_reg_and_advance(x, b);
            },
            Instruction::And { x, y } => {
                let b = self.v[x as usize] & self.v[y as usize];
                self.set_reg_and_advance(x, b);
            },
            Instruction::Xor { x, y } => {
                let b = self.v[x as usize] ^ self.v[y as usize];
                self.set_reg_and_advance(x, b);
            },
            Instruction::Random { x, nn } => self.set_reg_and_advance(x, random & nn),
            Instruction::ReadDelay { x } => {
                let b = self.delay_timer;
                self.set_reg_and_advance(x, b);
            },
            _ => {},
        }
    }

    /// `8xy4`: the flag is the carry out of `Vx + Vy`.
    fn exec_add_reg(&mut self, x: u8, y: u8)
        requires
            x < 16,
            y < 16,
        ensures
            final(self)@ == execute(old(self)@, Some(Instruction::AddReg { x, y }), 0),
    {
        let (vx, vy) = (self.v[x as usize], self.v[y as usize]);
        self.set_flag(if vy > 0xFF - vx { 1 } else { 0 });
        let b = self.v[x as usize].wrapping_add(self.v[y as usize]);
        assert(b == wrap8(self.v[x as int] + self.v[y as int]));
        self.set_reg_and_advance(x, b);
    }

    /// `8xy5`: the flag is 1 when `Vx - Vy` does not borrow.
    fn exec_sub_reg(&mut self, x: u8, y: u8)
        requires
            x < 16,
            y < 16,
        ensures
            final(self)@ == execute(old(self)@, Some(Instruction::SubReg { x, y }), 0),
    {
        let (vx, vy) = (self.v[x as usize], self.v[y as usize]);
        self.set_flag(if vy > vx { 0 } else { 1 });
        let b = self.v[x as usize].wrapping_sub(self.v[y as usize]);
        assert(b == wrap8(self.v[x as int] - self.v[y as int]));
        self.set_reg_and_advance(x, b);
    }

    /// `8xy7`: the flag is 1 when `Vy - Vx` does not borrow.
    fn exec_sub_rev(&mut self, x: u8, y: u8)
        requires
            x < 16,
            y < 16,
        ensures
            final(self)@ == execute(old(self)@, Some(Instruction::SubRev { x, y }), 0),
    {
        let (vx, vy) = (self.v[x as usize], self.v[y as usize]);
        self.set_flag(if vx > vy { 0 } else { 1 });
        let b = self.v[y as usize].wrapping_sub(self.v[x as usize]);
        assert(b == wrap8(self.v[y as int] - self.v[x as int]));
        self.set_reg_and_advance(x, b);
    }

    /// `8xy6`: the flag is the bit shifted out on the right.
    fn exec_shift_right(&mut self, x: u8)
        requires
            x < 16,
        ensures
            final(self)@ == execute(old(self)@, Some(Instruction::ShiftRight { x }), 0),
    {
        let vx = self.v[x as usize];
        self.set_flag(vx & 1);
        let b = self.v[x as usize] >> 1;
        self.set_reg_and_advance(x, b);
    }

    /// `8xyE`: the flag is the bit shifted out on the left.
    fn exec_shift_left(&mut self, x: u8)
        requires
            x < 16,
        ensures
            final(self)@ == execute(old(self)@, Some(Instruction::ShiftLeft { x }), 0),
    {
        let vx = self.v[x as usize];
        self.set_flag((vx >> 7) & 1);
        let b = self.v[x as usize].wrapping_mul(2);
        assert(b == wrap8(self.v[x as int] * 2));
        self.set_reg_and_advance(x, b);
    }

    /// Index register, timers and the font glyph lookup.
    fn exec_index(&mut self, ins: Instruction)
        requires
            ins.wf(),
            ins is SetIndex || ins is AddIndex || ins is FontGlyph || ins is SetDelay
                || ins is SetSound,
        ensures
            final(self)@ == execute(old(self)@, Some(ins), 0),
    {
        match ins {
            Instruction::SetIndex { addr } => self.i = addr,
            Instruction::AddIndex { x } => self.i = self.i.wrapping_add(self.v[x as usize] as u16),
            Instruction::FontGlyph { x } => {
                self.i = self.v[x as usize] as u16 * BYTES_PER_LINE as u16;
            },
            Instruction::SetDelay { x } => self.delay_timer = self.v[x as usize],
            Instruction::SetSound { x } => self.sound_timer = self.v[x as usize],
            _ => {},
        }
        self.advance_pc(2);
    }

    /// `Fx33`: the decimal digits of `Vx` at `I`, `I + 1` and `I + 2`.
    fn exec_store_bcd(&mut self, x: u8)
        requires
            x < 16,
        ensures
            final(self)@ == execute(old(self)@, Some(Instruction::StoreBcd { x }), 0),
    {
        let b = self.v[x as usize];
        let i = self.i as usize;
        self.memory[i % MEMORY_SIZE] = b / 100;
        self.memory[(i + 1) % MEMORY_SIZE] = (b % 100) / 10;
        self.memory[(i + 2) % MEMORY_SIZE] = b % 10;
        assert(self@.memory =~= old(self)@.memory.update(addr(i as int), b / 100).update(
            addr(i + 1),
            (b % 100) / 10,
        ).update(addr(i + 2), b % 10));
        self.advance_pc(2);
    }

    /// `Fx55`: `V0..=Vx` into memory from `I` on; `I` is left as it was.
    fn exec_store_regs(&mut self, x: u8)
        requires
            x < 16,
        ensures
            final(self)@ == execute(old(self)@, Some(Instruction::StoreRegs { x }), 0),
    {
        let i = self.i as usize;
        let mut k: usize = 0;
        while k <= x as usize
            invariant
                x < 16,
                k <= x + 1,
                i == self.i,
                self.v == old(self).v,
                self.i == old(self).i,
                forall|a: int|
                    #![trigger self.memory@[a]]
                    0 <= a < MEMORY_SIZE ==> self.memory@[a] == if offset_from_index(
                        old(self)@,
                        a,
                    ) < k {
                        old(self)@.v[offset_from_index(old(self)@, a)]
                    } else {
                        old(self)@.memory[a]
                    },
                self.stack == old(self).stack,
                self.input == old(self).input,
                self.gfx == old(self).gfx,
                self.pc == old(self).pc,
                self.sp == old(self).sp,
                self.delay_timer == old(self).delay_timer,
                self.sound_timer == old(self).sound_timer,
                self.draw_flag == old(self).draw_flag,
            decreases x + 1 - k,
        {
            let a = (i + k) % MEMORY_SIZE;
            proof {
                lemma_offset_unique(old(self).i, k as int);
            }
            self.memory[a] = self.v[k];
            k = k + 1;
        }
        assert(self@.memory =~= stored_regs(old(self)@, x));
        self.advance_pc(2);
    }

    /// `Fx65`: `V0..=Vx` from memory from `I` on; `I` is left as it was.
    fn exec_load_regs(&mut self, x: u8)
        requires
            x < 16,
        ensures
            final(self)@ == execute(old(self)@, Some(Instruction::LoadRegs { x }), 0),
    {
        let i = self.i as usize;
        let mut k: usize = 0;
        while k <= x as usize
            invariant
                x < 16,
                k <= x + 1,
                i == self.i,
                self.memory == old(self).memory,
                self.i == old(self).i,
                forall|j: int|
                    0 <= j < 16 ==> self.v@[j] == if j < k {
                        old(self)@.memory[addr(i + j)]
                    } else {
                        old(self)@.v[j]
                    },
                self.stack == old(self).stack,
                self.input == old(self).input,
                self.gfx == old(self).gfx,
                self.pc == old(self).pc,
                self.sp == old(self).sp,
                self.delay_timer == old(self).delay_timer,
                self.sound_timer == old(self).sound_timer,
                self.draw_flag == old(self).draw_flag,
            decreases x + 1 - k,
        {
            self.v[k] = self.memory[(i + k) % MEMORY_SIZE];
            k = k + 1;
        }
        assert(self@.v =~= loaded_regs(old(self)@, x));
        self.advance_pc(2);
    }

    /// `Fx0A`: the lowest key that is down goes to `Vx` and execution moves
    /// on; with no key down nothing changes, so the instruction runs again on
    /// the next cycle.
    fn exec_wait_key(&mut self, x: u8)
        requires
            x < 16,
        ensures
            final(self)@ == execute(old(self)@, Some(Instruction::WaitKey { x }), 0),
    {
        let mut k: usize = 0;
        while k < 16
            invariant
                x < 16,
                k <= 16,
                first_key_from(self.input@, 0) == first_key_from(self.input@, k as int),
                self == old(self),
            decreases 16 - k,
        {
            if self.input[k] == 1 {
                self.set_reg_and_advance(x, k as u8);
                return;
            }
            k = k + 1;
        }
    }

    /// `Dxyn`: XOR-draws the `n`-row sprite at `memory[I..]` at `(Vx, Vy)`,
    /// wrapping at the edges; the flag tells whether a lit cell was erased.
    fn exec_draw(&mut self, x: u8, y: u8, n: u8)
        requires
            x < 16,
            y < 16,
            n < 16,
        ensures
            final(self)@ == execute(old(self)@, Some(Instruction::Draw { x, y, n }), 0),
    {
        let ghost s0 = self@;
        let x0 = self.v[x as usize];
        let y0 = self.v[y as usize];
        let i = self.i as usize;
        let mut collision = false;
        let ghost mut hit: int = 0;
        let mut row: u8 = 0;
        while row < n
            invariant
                n < 16,
                row <= n,
                s0 == old(self)@,
                s0.wf(),
                x0 == s0.v[x as int],
                y0 == s0.v[y as int],
                i == s0.i,
                self@ == (MachineState { gfx: self@.gfx, ..s0 }),
                self@.gfx.len() == GFX_SIZE,
                forall|c: int|
                    #![trigger self.gfx@[c]]
                    0 <= c < GFX_SIZE ==> self.gfx@[c] == if drawn_before(s0, x0, y0, n, c, row * 8) {
                        s0.gfx[c] ^ 1
                    } else {
                        s0.gfx[c]
                    },
                collision ==> 0 <= hit < GFX_SIZE && drawn_before(s0, x0, y0, n, hit, row * 8)
                    && s0.gfx[hit] == 1,
                !collision ==> forall|c: int|
                    0 <= c < GFX_SIZE && #[trigger] drawn_before(s0, x0, y0, n, c, row * 8)
                        ==> s0.gfx[c] != 1,
            decreases n - row,
        {
            let byte = self.memory[(i + row as usize) % MEMORY_SIZE];
            let mut col: u8 = 0;
            while col < 8
                invariant
                    n < 16,
                    row < n,
                    col <= 8,
                    s0 == old(self)@,
                    s0.wf(),
                    x0 == s0.v[x as int],
                    y0 == s0.v[y as int],
                    i == s0.i,
                    byte == s0.memory[addr(s0.i + row)],
                    self@ == (MachineState { gfx: self@.gfx, ..s0 }),
                    self@.gfx.len() == GFX_SIZE,
                    forall|c: int|
                        #![trigger self.gfx@[c]]
                        0 <= c < GFX_SIZE ==> self.gfx@[c] == if drawn_before(
                            s0,
                            x0,
                            y0,
                            n,
                            c,
                            row * 8 + col,
                        ) {
                            s0.gfx[c] ^ 1
                        } else {
                            s0.gfx[c]
                        },
                    collision ==> 0 <= hit < GFX_SIZE && drawn_before(
                        s0,
                        x0,
                        y0,
                        n,
                        hit,
                        row * 8 + col,
                    ) && s0.gfx[hit] == 1,
                    !collision ==> forall|c: int|
                        0 <= c < GFX_SIZE && #[trigger] drawn_before(s0, x0, y0, n, c, row * 8 + col)
                            ==> s0.gfx[c] != 1,
                decreases 8 - col,
            {
                let t = ((y0 as usize + row as usize) % GFX_HEIGHT) * GFX_WIDTH + (x0 as usize
                    + col as usize) % GFX_WIDTH;
                proof {
                    lemma_target(x0, y0, row as int, col as int);
                    lemma_drawn_before_step(s0, x0, y0, n, row as int, col as int);
                }
                let ghost was_lit = self.gfx@[t as int] == 1;
                assert(!drawn_before(s0, x0, y0, n, t as int, row * 8 + col));
                if byte & (0x80u8 >> col) != 0 {
                    if self.gfx[t] == 1 && !collision {
                        collision = true;
                        proof {
                            hit = t as int;
                        }
                    }
                    self.gfx[t] = self.gfx[t] ^ 1;
                }
                let ghost col0 = col as int;
                col = col + 1;
                proof {
                    assert(row * 8 + col == row * 8 + col0 + 1);
                    if collision {
                        assert(drawn_before(s0, x0, y0, n, hit, row * 8 + col0 + 1));
                    } else {
                        assert forall|c: int|
                            0 <= c < GFX_SIZE && #[trigger] drawn_before(
                                s0,
                                x0,
                                y0,
                                n,
                                c,
                                row * 8 + col,
                            ) implies s0.gfx[c] != 1 by {
                            assert(drawn_before(s0, x0, y0, n, c, row * 8 + col0 + 1));
                            if c != t {
                                assert(drawn_before(s0, x0, y0, n, c, row * 8 + col0));
                            } else {
                                assert(!was_lit);
                            }
                        }
                    }
                }
            }
            row = row + 1;
        }
        proof {
            assert forall|c: int|
                0 <= c < GFX_SIZE implies #[trigger] drawn_before(s0, x0, y0, n, c, n * 8)
                    == covered(s0, x0, y0, n, c) by {}
            if collision {
                assert(covered(s0, x0, y0, n, hit));
            } else {
                assert forall|c: int|
                    0 <= c < GFX_SIZE && #[trigger] covered(s0, x0, y0, n, c) implies s0.gfx[c]
                        != 1 by {
                    assert(drawn_before(s0, x0, y0, n, c, n * 8));
                }
            }
            assert(collision == collides(s0, x0, y0, n));
        }
        self.set_flag(if collision { 1 } else { 0 });
        self.draw_flag = true;
        assert(self@.gfx =~= drawn(s0, x0, y0, n));
        self.advance_pc(2);
    }

    /// Executes one decoded instruction; `random` is the byte that `Cxnn` uses.
    pub fn execute(&mut self, ins: Instruction, random: u8)
        requires
            ins.wf(),
        ensures
            final(self)@ == execute(old(self)@, Some(ins), random),
    {
        match ins {
            Instruction::ClearScreen | Instruction::Return | Instruction::Jump { .. }
            | Instruction::Call { .. } | Instruction::SkipIfEqImm { .. }
            | Instruction::SkipIfNeImm { .. } | Instruction::SkipIfEqReg { .. }
            | Instruction::SkipIfNeReg { .. } | Instruction::JumpOffset { .. }
            | Instruction::SkipIfKey { .. } | Instruction::SkipIfNoKey { .. } => {
                self.exec_flow(ins)
            },
            Instruction::LoadImm { .. } | Instruction::AddImm { .. } | Instruction::Move { .. }
            | Instruction::Or { .. } | Instruction::And { .. } | Instruction::Xor { .. }
            | Instruction::Random { .. } | Instruction::ReadDelay { .. } => {
                self.exec_load(ins, random)
            },
            Instruction::AddReg { x, y } => self.exec_add_reg(x, y),
            Instruction::SubReg { x, y } => self.exec_sub_reg(x, y),
            Instruction::SubRev { x, y } => self.exec_sub_rev(x, y),
            Instruction::ShiftRight { x } => self.exec_shift_right(x),
            Instruction::ShiftLeft { x } => self.exec_shift_left(x),
            Instruction::SetIndex { .. } | Instruction::AddIndex { .. }
            | Instruction::FontGlyph { .. } | Instruction::SetDelay { .. }
            | Instruction::SetSound { .. } => self.exec_index(ins),
            Instruction::StoreBcd { x } => self.exec_store_bcd(x),
            Instruction::StoreRegs { x } => self.exec_store_regs(x),
            Instruction::LoadRegs { x } => self.exec_load_regs(x),
            Instruction::WaitKey { x } => self.exec_wait_key(x),
            Instruction::Draw { x, y, n } => self.exec_draw(x, y, n),
        }
    }

    /// Decodes and executes one instruction word, with `random` as the byte
    /// that `Cxnn` draws. A word that matches no pattern only moves the
    /// program counter on by 2, and is reported.
    pub fn exec_op_with(&mut self, opcode: u16, random: u8) -> (r: Result<(), Chip8Error>)
        ensures
            final(self)@ == execute(old(self)@, decode_spec(opcode), random),
            r is Ok <==> decode_spec(opcode) is Some,
            r is Err ==> r == Err::<(), Chip8Error>(Chip8Error::UnknownOpcode { opcode }),
    {
        match decode(opcode) {
            Some(ins) => {
                self.execute(ins, random);
                Ok(())
            },
            None => {
                self.advance_pc(2);
                Err(Chip8Error::UnknownOpcode { opcode })
            },
        }
    }

    /// Decodes and executes one instruction word; `Cxnn` draws its byte from
    /// the thread-local random generator. A word that matches no pattern only
    /// moves the program counter on by 2, and is reported.
    pub fn exec_op(&mut self, opcode: u16) -> (r: Result<(), Chip8Error>)
        ensures
            exists|random: u8| final(self)@ == execute(old(self)@, decode_spec(opcode), random),
            !(decode_spec(opcode) matches Some(Instruction::Random { .. })) ==> final(self)@
                == execute(old(self)@, decode_spec(opcode), 0),
            r is Ok <==> decode_spec(opcode) is Some,
            r is Err ==> r == Err::<(), Chip8Error>(Chip8Error::UnknownOpcode { opcode }),
    {
        let random = if opcode >> 12 == 0xC { random_byte() } else { 0 };
        proof {
            assert(opcode >> 12u16 == opcode / 0x1000) by (bit_vector);
        }
        self.exec_op_with(opcode, random)
    }

    /// The instruction word at the program counter, high byte first.
    pub fn fetch(&self) -> (r: u16)
        ensures
            r == fetch(self@),
    {
        let pc = self.pc as usize;
        let hi = self.memory[pc % MEMORY_SIZE];
        let lo = self.memory[(pc + 1) % MEMORY_SIZE];
        proof {
            assert((hi as u16) << 8u16 | lo as u16 == hi * 0x100 + lo) by (bit_vector);
        }
        (hi as u16) << 8 | lo as u16
    }

    /// Starts a cycle: clears the draw flag and counts each running timer down by one.
    fn begin_cycle(&mut self)
        ensures
            final(self)@ == begin_cycle(old(self)@),
    {
        self.draw_flag = false;
        if self.delay_timer > 0 {
            self.delay_timer = self.delay_timer - 1;
        }
        if self.sound_timer > 0 {
            self.sound_timer = self.sound_timer - 1;
        }
    }

    /// One cycle with `random` as the byte that `Cxnn` uses: clear the draw
    /// flag, count the timers down, then fetch, decode and execute exactly one
    /// instruction.
    pub fn tick_with(&mut self, random: u8) -> (r: Result<(), Chip8Error>)
        ensures
            final(self)@ == cycle(old(self)@, random),
            r is Ok <==> decode_spec(fetch(begin_cycle(old(self)@))) is Some,
    {
        self.begin_cycle();
        let opcode = self.fetch();
        self.exec_op_with(opcode, random)
    }

    /// One cycle: clear the draw flag, count the timers down, then fetch,
    /// decode and execute exactly one instruction (`Cxnn` draws its byte from
    /// the thread-local random generator).
    pub fn tick(&mut self) -> (r: Result<(), Chip8Error>)
        ensures
            exists|random: u8| final(self)@ == cycle(old(self)@, random),
            !(decode_spec(fetch(begin_cycle(old(self)@))) matches Some(Instruction::Random { .. }))
                ==> final(self)@ == cycle(old(self)@, 0),
            r is Ok <==> decode_spec(fetch(begin_cycle(old(self)@))) is Some,
    {
        self.begin_cycle();
        let ghost started = self@;
        let opcode = self.fetch();
        let r = self.exec_op(opcode);
        proof {
            let random = choose|random: u8|
                self@ == execute(started, decode_spec(opcode), random);
            assert(self@ == cycle(old(self)@, random));
        }
        r
    }
}

/// Cell `c` takes a lit sprite pixel whose rank (row times 8 plus column) is
/// below `p`: the pixels that a row-by-row, left-to-right draw has handled.
spec fn drawn_before(s: MachineState, x0: u8, y0: u8, n: u8, c: int, p: int) -> bool {
    covered(s, x0, y0, n, c) && sprite_row(y0, c / 64) * 8 + sprite_col(x0, c % 64) < p
}

/// Moving past pixel `(row, col)` adds exactly the cell that it lands on, if
/// the pixel is lit.
proof fn lemma_drawn_before_step(s: MachineState, x0: u8, y0: u8, n: u8, row: int, col: int)
    requires
        0 <= row < n,
        n < 16,
        0 <= col < 8,
    ensures
        forall|c: int|
            0 <= c < GFX_SIZE ==> (#[trigger] drawn_before(s, x0, y0, n, c, row * 8 + col + 1)
                <==> drawn_before(s, x0, y0, n, c, row * 8 + col) || (c == ((y0 + row) % 32) * 64
                + (x0 + col) % 64 && bit_lit(s.memory[addr(s.i + row)], col as u8))),
{
    lemma_target(x0, y0, row, col);
    assert forall|c: int|
        0 <= c < GFX_SIZE implies (#[trigger] drawn_before(s, x0, y0, n, c, row * 8 + col + 1)
            <==> drawn_before(s, x0, y0, n, c, row * 8 + col) || (c == ((y0 + row) % 32) * 64
            + (x0 + col) % 64 && bit_lit(s.memory[addr(s.i + row)], col as u8))) by {
        let (rc, cc) = (sprite_row(y0, c / 64), sprite_col(x0, c % 64));
        if covered(s, x0, y0, n, c) && rc * 8 + cc == row * 8 + col {
            assert(rc == row && cc == col);
        }
    }
}

/// Relies on `rand::random::<u8>`: a byte from the thread-local generator,
/// any value possible.
#[verifier::external_body]
fn random_byte() -> (r: u8) {
    rand::random::<u8>()
}

} // verus!
