//! Decoding of 16-bit instruction words into a closed set of instructions.
use vstd::prelude::*;

verus! {

/// One decoded instruction. Register operands are indices `0..16`, addresses
/// are 12-bit and a sprite height is `0..16`.
#[derive(Clone, Copy, Debug, PartialEq, Eq, Structural)]
pub enum Instruction {
    /// `00E0`
    ClearScreen,
    /// `00EE`
    Return,
    /// `1nnn`
    Jump { addr: u16 },
    /// `2nnn`
    Call { addr: u16 },
    /// `3xnn`
    SkipIfEqImm { x: u8, nn: u8 },
    /// `4xnn`
    SkipIfNeImm { x: u8, nn: u8 },
    /// `5xy0`
    SkipIfEqReg { x: u8, y: u8 },
    /// `6xnn`
    LoadImm { x: u8, nn: u8 },
    /// `7xnn`
    AddImm { x: u8, nn: u8 },
    /// `8xy0`
    Move { x: u8, y: u8 },
    /// `8xy1`
    Or { x: u8, y: u8 },
    /// `8xy2`
    And { x: u8, y: u8 },
    /// `8xy3`
    Xor { x: u8, y: u8 },
    /// `8xy4`
    AddReg { x: u8, y: u8 },
    /// `8xy5`
    SubReg { x: u8, y: u8 },
    /// `8xy6`
    ShiftRight { x: u8 },
    /// `8xy7`
    SubRev { x: u8, y: u8 },
    /// `8xyE`
    ShiftLeft { x: u8 },
    /// `9xy0`
    SkipIfNeReg { x: u8, y: u8 },
    /// `Annn`
    SetIndex { addr: u16 },
    /// `Bnnn`
    JumpOffset { addr: u16 },
    /// `Cxnn`
    Random { x: u8, nn: u8 },
    /// `Dxyn`
    Draw { x: u8, y: u8, n: u8 },
    /// `Ex9E`
    SkipIfKey { x: u8 },
    /// `ExA1`
    SkipIfNoKey { x: u8 },
    /// `Fx07`
    ReadDelay { x: u8 },
    /// `Fx0A`
    WaitKey { x: u8 },
    /// `Fx15`
    SetDelay { x: u8 },
    /// `Fx18`
    SetSound { x: u8 },
    /// `Fx1E`
    AddIndex { x: u8 },
    /// `Fx29`
    FontGlyph { x: u8 },
    /// `Fx33`
    StoreBcd { x: u8 },
    /// `Fx55`
    StoreRegs { x: u8 },
    /// `Fx65`
    LoadRegs { x: u8 },
}

/// High nibble of an instruction word.
pub open spec fn op_of(w: u16) -> u8 {
    (w / 0x1000) as u8
}

/// Second nibble (the `x` register).
pub open spec fn x_of(w: u16) -> u8 {
    ((w / 0x100) % 0x10) as u8
}

/// Third nibble (the `y` register).
pub open spec fn y_of(w: u16) -> u8 {
    ((w / 0x10) % 0x10) as u8
}

/// Low nibble.
pub open spec fn n_of(w: u16) -> u8 {
    (w % 0x10) as u8
}

/// Low byte.
pub open spec fn nn_of(w: u16) -> u8 {
    (w % 0x100) as u8
}

/// Low twelve bits.
pub open spec fn nnn_of(w: u16) -> u16 {
    (w % 0x1000) as u16
}

/// What an instruction word means; `None` for a word that matches no pattern.
pub open spec fn decode_spec(w: u16) -> Option<Instruction> {
    let (x, y, n, nn, nnn) = (x_of(w), y_of(w), n_of(w), nn_of(w), nnn_of(w));
    let low = nn;
    match op_of(w) {
        0x0 => if w == 0x00E0 {
            Some(Instruction::ClearScreen)
        } else if w == 0x00EE {
            Some(Instruction::Return)
        } else {
            None
        },
        0x1 => Some(Instruction::Jump { addr: nnn }),
        0x2 => Some(Instruction::Call { addr: nnn }),
        0x3 => Some(Instruction::SkipIfEqImm { x, nn }),
        0x4 => Some(Instruction::SkipIfNeImm { x, nn }),
        0x5 => if n == 0 { Some(Instruction::SkipIfEqReg { x, y }) } else { None },
        0x6 => Some(Instruction::LoadImm { x, nn }),
        0x7 => Some(Instruction::AddImm { x, nn }),
        0x8 => match n {
            0x0 => Some(Instruction::Move { x, y }),
            0x1 => Some(Instruction::Or { x, y }),
            0x2 => Some(Instruction::And { x, y }),
            0x3 => Some(Instruction::Xor { x, y }),
            0x4 => Some(Instruction::AddReg { x, y }),
            0x5 => Some(Instruction::SubReg { x, y }),
            0x6 => Some(Instruction::ShiftRight { x }),
            0x7 => Some(Instruction::SubRev { x, y }),
            0xE => Some(Instruction::ShiftLeft { x }),
            _ => None,
        },
        0x9 => if n == 0 { Some(Instruction::SkipIfNeReg { x, y }) } else { None },
        0xA => Some(Instruction::SetIndex { addr: nnn }),
        0xB => Some(Instruction::JumpOffset { addr: nnn }),
        0xC => Some(Instruction::Random { x, nn }),
        0xD => Some(Instruction::Draw { x, y, n }),
        0xE => match low {
            0x9E => Some(Instruction::SkipIfKey { x }),
            0xA1 => Some(Instruction::SkipIfNoKey { x }),
            _ => None,
        },
        _ => match low {
            0x07 => Some(Instruction::ReadDelay { x }),
            0x0A => Some(Instruction::WaitKey { x }),
            0x15 => Some(Instruction::SetDelay { x }),
            0x18 => Some(Instruction::SetSound { x }),
            0x1E => Some(Instruction::AddIndex { x }),
            0x29 => Some(Instruction::FontGlyph { x }),
            0x33 => Some(Instruction::StoreBcd { x }),
            0x55 => Some(Instruction::StoreRegs { x }),
            0x65 => Some(Instruction::LoadRegs { x }),
            _ => None,
        },
    }
}

impl Instruction {
    /// Operands are in range: registers below 16, addresses below 4096,
    /// sprite heights below 16.
    pub open spec fn wf(self) -> bool {
        match self {
            Instruction::Jump { addr } => addr < 0x1000,
            Instruction::Call { addr } => addr < 0x1000,
            Instruction::SetIndex { addr } => addr < 0x1000,
            Instruction::JumpOffset { addr } => addr < 0x1000,
            Instruction::SkipIfEqImm { x, .. } => x < 16,
            Instruction::SkipIfNeImm { x, .. } => x < 16,
            Instruction::LoadImm { x, .. } => x < 16,
            Instruction::AddImm { x, .. } => x < 16,
            Instruction::Random { x, .. } => x < 16,
            Instruction::SkipIfEqReg { x, y } => x < 16 && y < 16,
            Instruction::SkipIfNeReg { x, y } => x < 16 && y < 16,
            Instruction::Move { x, y } => x < 16 && y < 16,
            Instruction::Or { x, y } => x < 16 && y < 16,
            Instruction::And { x, y } => x < 16 && y < 16,
            Instruction::Xor { x, y } => x < 16 && y < 16,
            Instruction::AddReg { x, y } => x < 16 && y < 16,
            Instruction::SubReg { x, y } => x < 16 && y < 16,
            Instruction::SubRev { x, y } => x < 16 && y < 16,
            Instruction::ShiftRight { x } => x < 16,
            Instruction::ShiftLeft { x } => x < 16,
            Instruction::Draw { x, y, n } => x < 16 && y < 16 && n < 16,
            Instruction::SkipIfKey { x } => x < 16,
            Instruction::SkipIfNoKey { x } => x < 16,
            Instruction::ReadDelay { x } => x < 16,
            Instruction::WaitKey { x } => x < 16,
            Instruction::SetDelay { x } => x < 16,
            Instruction::SetSound { x } => x < 16,
            Instruction::AddIndex { x } => x < 16,
            Instruction::FontGlyph { x } => x < 16,
            Instruction::StoreBcd { x } => x < 16,
            Instruction::StoreRegs { x } => x < 16,
            Instruction::LoadRegs { x } => x < 16,
            Instruction::ClearScreen => true,
            Instruction::Return => true,
        }
    }
}

proof fn lemma_fields(w: u16)
    ensures
        w >> 12u16 == w / 0x1000,
        (w >> 8u16) & 0xF == (w / 0x100) % 0x10,
        (w >> 4u16) & 0xF == (w / 0x10) % 0x10,
        w & 0xF == w % 0x10,
        w & 0xFF == w % 0x100,
        w & 0xFFF == w % 0x1000,
{
    assert(w >> 12u16 == w / 0x1000) by (bit_vector);
    assert((w >> 8u16) & 0xF == (w / 0x100) % 0x10) by (bit_vector);
    assert((w >> 4u16) & 0xF == (w / 0x10) % 0x10) by (bit_vector);
    assert(w & 0xF == w % 0x10) by (bit_vector);
    assert(w & 0xFF == w % 0x100) by (bit_vector);
    assert(w & 0xFFF == w % 0x1000) by (bit_vector);
}

/// Splits an instruction word into its fields and picks the instruction it
/// names; `None` where the word matches no known pattern.
pub fn decode(w: u16) -> (r: Option<Instruction>)
    ensures
        r == decode_spec(w),
        r is Some ==> r.unwrap().wf(),
{
    proof {
        lemma_fields(w);
    }
    let op = (w >> 12) as u8;
    let x = ((w >> 8) & 0xF) as u8;
    let y = ((w >> 4) & 0xF) as u8;
    let n = (w & 0xF) as u8;
    let nn = (w & 0xFF) as u8;
    let nnn = w & 0xFFF;
    match op {
        0x0 => if w == 0x00E0 {
            Some(Instruction::ClearScreen)
        } else if w == 0x00EE {
            Some(Instruction::Return)
        } else {
            None
        },
        0x1 => Some(Instruction::Jump { addr: nnn }),
        0x2 => Some(Instruction::Call { addr: nnn }),
        0x3 => Some(Instruction::SkipIfEqImm { x, nn }),
        0x4 => Some(Instruction::SkipIfNeImm { x, nn }),
        0x5 => if n == 0 { Some(Instruction::SkipIfEqReg { x, y }) } else { None },
        0x6 => Some(Instruction::LoadImm { x, nn }),
        0x7 => Some(Instruction::AddImm { x, nn }),
        0x8 => match n {
            0x0 => Some(Instruction::Move { x, y }),
            0x1 => Some(Instruction::Or { x, y }),
            0x2 => Some(Instruction::And { x, y }),
            0x3 => Some(Instruction::Xor { x, y }),
            0x4 => Some(Instruction::AddReg { x, y }),
            0x5 => Some(Instruction::SubReg { x, y }),
            0x6 => Some(Instruction::ShiftRight { x }),
            0x7 => Some(Instruction::SubRev { x, y }),
            0xE => Some(Instruction::ShiftLeft { x }),
            _ => None,
        },
        0x9 => if n == 0 { Some(Instruction::SkipIfNeReg { x, y }) } else { None },
        0xA => Some(Instruction::SetIndex { addr: nnn }),
        0xB => Some(Instruction::JumpOffset { addr: nnn }),
        0xC => Some(Instruction::Random { x, nn }),
        0xD => Some(Instruction::Draw { x, y, n }),
        0xE => match nn {
            0x9E => Some(Instruction::SkipIfKey { x }),
            0xA1 => Some(Instruction::SkipIfNoKey { x }),
            _ => None,
        },
        _ => match nn {
            0x07 => Some(Instruction::ReadDelay { x }),
            0x0A => Some(Instruction::WaitKey { x }),
            0x15 => Some(Instruction::SetDelay { x }),
            0x18 => Some(Instruction::SetSound { x }),
            0x1E => Some(Instruction::AddIndex { x }),
            0x29 => Some(Instruction::FontGlyph { x }),
            0x33 => Some(Instruction::StoreBcd { x }),
            0x55 => Some(Instruction::StoreRegs { x }),
            0x65 => Some(Instruction::LoadRegs { x }),
            _ => None,
        },
    }
}

} // verus!
