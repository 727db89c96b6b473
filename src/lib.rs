//! An interpreter for the CHIP-8 fantasy machine: 4 KiB of memory, sixteen
//! 8-bit registers, a 64x32 monochrome framebuffer, two countdown timers and
//! sixteen keys, run one fetch-decode-execute cycle at a time.
use vstd::prelude::*;

pub mod chip8;
pub mod display;
pub mod fonts;
pub mod instruction;
pub mod laws;
pub mod machine;
pub mod sys_timer;

pub use crate::chip8::{Chip8, Chip8Error, MAX_PROGRAM_LEN};
pub use crate::display::{copy_gfx_to_pixel_buffer, gfx_as_text};
pub use crate::fonts::{fonts, BYTES_PER_LINE};
pub use crate::instruction::{decode, Instruction};
pub use crate::machine::{GFX_HEIGHT, GFX_WIDTH, PROGRAM_START};
pub use crate::sys_timer::SysTimer;

verus! {

} // verus!
