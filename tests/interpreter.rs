use chip8::{
    copy_gfx_to_pixel_buffer, decode, fonts, gfx_as_text, Chip8, Chip8Error, Instruction,
    SysTimer, GFX_HEIGHT, GFX_WIDTH, MAX_PROGRAM_LEN, PROGRAM_START,
};

#[test]
fn fresh_interpreter_is_zeroed_with_font_loaded() {
    let c8 = Chip8::new();
    assert_eq!(&c8.memory[0..80], &fonts()[..]);
    assert!(c8.memory[80..].iter().all(|&b| b == 0));
    assert!(c8.v.iter().all(|&b| b == 0));
    assert!(c8.stack.iter().all(|&a| a == 0));
    assert!(c8.input.iter().all(|&b| b == 0));
    assert!(c8.gfx.iter().all(|&b| b == 0));
    assert_eq!((c8.i, c8.pc, c8.sp), (0, 0x200, 0));
    assert_eq!((c8.delay_timer, c8.sound_timer), (0, 0));
    assert!(!c8.is_draw_ready());
}

#[test]
fn font_table_starts_with_glyph_zero() {
    let f = fonts();
    assert_eq!(&f[0..5], &[0xF0, 0x90, 0x90, 0x90, 0xF0]);
    assert_eq!(&f[75..80], &[0xF0, 0x80, 0xF0, 0x80, 0x80]);
}

#[test]
fn clear_screen_from_partly_lit_framebuffer() {
    let mut c8 = Chip8::new();
    c8.gfx[0] = 1;
    c8.gfx[2047] = 1;
    c8.v[2] = 9;
    c8.exec_op(0x00E0).unwrap();
    assert!(c8.gfx.iter().all(|&b| b == 0));
    assert_eq!(c8.pc, PROGRAM_START + 2);
    assert_eq!(c8.v[2], 9);
}

#[test]
fn skip_if_equal_both_branches() {
    let mut c8 = Chip8::new();
    c8.v[5] = 0x42;
    c8.exec_op(0x3542).unwrap();
    assert_eq!(c8.pc, 0x204);
    c8.exec_op(0x3543).unwrap();
    assert_eq!(c8.pc, 0x206);
}

#[test]
fn add_with_carry_both_cases() {
    let mut c8 = Chip8::new();
    c8.v[0] = 0xFF;
    c8.v[1] = 0x01;
    c8.exec_op(0x8014).unwrap();
    assert_eq!((c8.v[0], c8.v[15]), (0x00, 1));
    c8.v[0] = 0xFE;
    c8.v[1] = 0x01;
    c8.exec_op(0x8014).unwrap();
    assert_eq!((c8.v[0], c8.v[15]), (0xFF, 0));
}

#[test]
fn subtract_with_borrow_all_cases() {
    let mut c8 = Chip8::new();
    c8.v[0] = 0x01;
    c8.v[1] = 0x02;
    c8.exec_op(0x8015).unwrap();
    assert_eq!((c8.v[0], c8.v[15]), (0xFF, 0));
    c8.v[0] = 0x02;
    c8.v[1] = 0x01;
    c8.exec_op(0x8015).unwrap();
    assert_eq!((c8.v[0], c8.v[15]), (0x01, 1));
    c8.v[0] = 0x07;
    c8.v[1] = 0x07;
    c8.exec_op(0x8015).unwrap();
    assert_eq!((c8.v[0], c8.v[15]), (0x00, 1));
}

#[test]
fn shift_left_sets_flag_from_top_bit() {
    let mut c8 = Chip8::new();
    c8.v[3] = 0x81;
    c8.exec_op(0x830E).unwrap();
    assert_eq!((c8.v[3], c8.v[15]), (0x02, 1));
}

#[test]
fn drawing_twice_restores_framebuffer_and_reports_collision() {
    let mut c8 = Chip8::new();
    // glyph "0" of the font, at (10, 4)
    c8.i = 0;
    c8.v[0] = 10;
    c8.v[1] = 4;
    let before = c8.gfx;
    c8.exec_op(0xD015).unwrap();
    assert!(c8.is_draw_ready());
    assert_eq!(c8.v[15], 0);
    assert_ne!(c8.gfx, before);
    // top row of the glyph is 0xF0: four lit cells from column 10
    for col in 0..8 {
        let expected = if col < 4 { 1 } else { 0 };
        assert_eq!(c8.gfx[4 * GFX_WIDTH + 10 + col], expected);
    }
    c8.exec_op(0xD015).unwrap();
    assert_eq!(c8.v[15], 1);
    assert_eq!(c8.gfx, before);
}

#[test]
fn drawing_wraps_at_the_right_and_bottom_edges() {
    let mut c8 = Chip8::new();
    c8.i = 0x300;
    c8.memory[0x300] = 0xFF;
    c8.memory[0x301] = 0x80;
    c8.v[0] = 60;
    c8.v[1] = 31;
    c8.exec_op(0xD012).unwrap();
    for col in 60..64 {
        assert_eq!(c8.gfx[31 * GFX_WIDTH + col], 1);
    }
    for col in 0..4 {
        assert_eq!(c8.gfx[31 * GFX_WIDTH + col], 1);
    }
    assert_eq!(c8.gfx[31 * GFX_WIDTH + 4], 0);
    // second row wraps to the top
    assert_eq!(c8.gfx[60], 1);
    assert_eq!(c8.gfx[61], 0);
    assert_eq!(c8.gfx.iter().filter(|&&b| b == 1).count(), 9);
}

#[test]
fn bcd_of_201() {
    let mut c8 = Chip8::new();
    c8.v[4] = 201;
    c8.i = 0x300;
    c8.exec_op(0xF433).unwrap();
    assert_eq!(&c8.memory[0x300..0x303], &[2, 0, 1]);
    assert_eq!(c8.i, 0x300);
}

#[test]
fn store_then_load_registers_round_trip() {
    let mut c8 = Chip8::new();
    let regs = [7, 1, 255, 0, 42, 9, 3, 128];
    c8.v[..8].copy_from_slice(&regs);
    c8.i = 0x400;
    c8.exec_op(0xF755).unwrap();
    assert_eq!(c8.i, 0x400);
    c8.v = [0; 16];
    c8.exec_op(0xF765).unwrap();
    assert_eq!(c8.i, 0x400);
    assert_eq!(&c8.v[..8], &regs);
    assert!(c8.v[8..].iter().all(|&b| b == 0));
}

#[test]
fn load_and_run_two_instructions() {
    let mut c8 = Chip8::new();
    c8.load(&[0x60, 0x05, 0x70, 0x03]).unwrap();
    c8.tick().unwrap();
    c8.tick().unwrap();
    assert_eq!(c8.v[0], 8);
    assert_eq!(c8.pc, 0x204);
}

#[test]
fn load_places_bytes_at_program_start() {
    let mut c8 = Chip8::new();
    c8.load(&[1, 2, 3]).unwrap();
    assert_eq!(&c8.memory[0x200..0x203], &[1, 2, 3]);
    assert_eq!(c8.memory[0x203], 0);
    assert_eq!(c8.pc, PROGRAM_START);
}

#[test]
fn load_accepts_largest_program() {
    let mut c8 = Chip8::new();
    let program = vec![0xAB; MAX_PROGRAM_LEN];
    c8.load(&program).unwrap();
    assert_eq!(c8.memory[4095], 0xAB);
}

#[test]
fn load_rejects_program_too_large() {
    let mut c8 = Chip8::new();
    let program = vec![1; MAX_PROGRAM_LEN + 1];
    assert_eq!(c8.load(&program), Err(Chip8Error::LoadError { len: MAX_PROGRAM_LEN + 1 }));
    assert!(c8.memory[0x200..].iter().all(|&b| b == 0));
}

#[test]
fn unknown_opcodes_are_reported_and_skipped() {
    for op in [0x0123u16, 0x5001, 0x8008, 0x900F, 0xE000, 0xF0FF] {
        let mut c8 = Chip8::new();
        assert_eq!(c8.exec_op(op), Err(Chip8Error::UnknownOpcode { opcode: op }));
        assert_eq!(c8.pc, PROGRAM_START + 2);
    }
}

#[test]
fn tick_reports_unknown_opcode() {
    let mut c8 = Chip8::new();
    c8.load(&[0xFF, 0xFF]).unwrap();
    assert_eq!(c8.tick(), Err(Chip8Error::UnknownOpcode { opcode: 0xFFFF }));
    assert_eq!(c8.pc, 0x202);
}

#[test]
fn call_and_return() {
    let mut c8 = Chip8::new();
    c8.exec_op(0x2345).unwrap();
    assert_eq!((c8.pc, c8.sp, c8.stack[0]), (0x345, 1, 0x200));
    c8.exec_op(0x00EE).unwrap();
    assert_eq!((c8.pc, c8.sp), (0x200, 0));
}

#[test]
fn stack_pointer_wraps_modulo_sixteen() {
    let mut c8 = Chip8::new();
    c8.sp = 15;
    c8.exec_op(0x2400).unwrap();
    assert_eq!((c8.sp, c8.stack[15]), (0, 0x200));
    c8.exec_op(0x00EE).unwrap();
    assert_eq!((c8.sp, c8.pc), (15, 0x200));
}

#[test]
fn jump_and_jump_with_offset() {
    let mut c8 = Chip8::new();
    c8.exec_op(0x1ABC).unwrap();
    assert_eq!(c8.pc, 0xABC);
    c8.v[0] = 0xFF;
    c8.exec_op(0xBFFF).unwrap();
    assert_eq!(c8.pc, 0xFF + 0xFFF);
}

#[test]
fn tick_counts_timers_down_before_executing() {
    let mut c8 = Chip8::new();
    c8.load(&[0xF3, 0x07]).unwrap();
    c8.delay_timer = 5;
    c8.sound_timer = 1;
    c8.tick().unwrap();
    assert_eq!(c8.v[3], 4);
    assert_eq!((c8.delay_timer, c8.sound_timer), (4, 0));
}

#[test]
fn tick_clears_draw_flag() {
    let mut c8 = Chip8::new();
    c8.load(&[0xD0, 0x01, 0x60, 0x00]).unwrap();
    c8.tick().unwrap();
    assert!(c8.is_draw_ready());
    c8.tick().unwrap();
    assert!(!c8.is_draw_ready());
}

#[test]
fn wait_key_takes_lowest_key_down() {
    let mut c8 = Chip8::new();
    c8.set_key(9, true);
    c8.set_key(4, true);
    c8.exec_op(0xF20A).unwrap();
    assert_eq!(c8.v[2], 4);
    assert_eq!(c8.pc, 0x202);
    c8.set_key(4, false);
    assert_eq!(c8.input[4], 0);
}

#[test]
fn key_skips_with_key_index_past_last_key() {
    let mut c8 = Chip8::new();
    c8.v[0] = 16;
    c8.exec_op(0xE09E).unwrap();
    assert_eq!(c8.pc, 0x202);
    c8.exec_op(0xE0A1).unwrap();
    assert_eq!(c8.pc, 0x206);
}

#[test]
fn add_to_index_wraps_at_sixteen_bits() {
    let mut c8 = Chip8::new();
    c8.i = 0xFFFF;
    c8.v[1] = 2;
    c8.exec_op(0xF11E).unwrap();
    assert_eq!(c8.i, 1);
}

#[test]
fn font_glyph_address_of_large_value() {
    let mut c8 = Chip8::new();
    c8.v[1] = 0x0F;
    c8.exec_op(0xF129).unwrap();
    assert_eq!(c8.i, 75);
    c8.v[1] = 200;
    c8.exec_op(0xF129).unwrap();
    assert_eq!(c8.i, 1000);
}

#[test]
fn random_byte_is_masked() {
    let mut c8 = Chip8::new();
    c8.v[2] = 0xAA;
    c8.exec_op(0xC200).unwrap();
    assert_eq!(c8.v[2], 0);
    for _ in 0..32 {
        c8.exec_op(0xC20F).unwrap();
        assert!(c8.v[2] <= 0x0F);
    }
}

#[test]
fn random_with_given_byte() {
    let mut c8 = Chip8::new();
    c8.exec_op_with(0xC30F, 0xAB).unwrap();
    assert_eq!(c8.v[3], 0x0B);
    assert_eq!(c8.pc, 0x202);
}

#[test]
fn decode_picks_instruction_and_operands() {
    assert_eq!(decode(0x8344), Some(Instruction::AddReg { x: 3, y: 4 }));
    assert_eq!(decode(0x1234), Some(Instruction::Jump { addr: 0x234 }));
    assert_eq!(decode(0xD12F), Some(Instruction::Draw { x: 1, y: 2, n: 15 }));
    assert_eq!(decode(0xFA65), Some(Instruction::LoadRegs { x: 10 }));
    assert_eq!(decode(0x00E0), Some(Instruction::ClearScreen));
    assert_eq!(decode(0x0000), None);
    assert_eq!(decode(0x8ABF), None);
}

#[test]
fn execute_a_decoded_instruction() {
    let mut c8 = Chip8::new();
    c8.execute(Instruction::LoadImm { x: 7, nn: 0x99 }, 0);
    assert_eq!(c8.v[7], 0x99);
    assert_eq!(c8.pc, 0x202);
}

#[test]
fn fetch_reads_high_byte_first() {
    let mut c8 = Chip8::new();
    c8.load(&[0x12, 0x34]).unwrap();
    assert_eq!(c8.fetch(), 0x1234);
}

#[test]
fn pixel_buffer_follows_framebuffer() {
    let mut c8 = Chip8::new();
    c8.gfx[5] = 1;
    c8.gfx[2047] = 1;
    let mut buffer = vec![7u32; GFX_WIDTH * GFX_HEIGHT];
    copy_gfx_to_pixel_buffer(&c8, &mut buffer);
    assert_eq!(buffer[5], 0xFFFFFF);
    assert_eq!(buffer[2047], 0xFFFFFF);
    assert_eq!(buffer[0], 0x000000);
    assert_eq!(buffer.iter().filter(|&&p| p == 0xFFFFFF).count(), 2);
}

#[test]
fn framebuffer_as_text() {
    let mut c8 = Chip8::new();
    c8.gfx[1] = 1;
    c8.gfx[GFX_WIDTH] = 1;
    let text = String::from_utf8(gfx_as_text(&c8)).unwrap();
    let lines: Vec<&str> = text.lines().collect();
    assert_eq!(lines.len(), GFX_HEIGHT);
    assert_eq!(&lines[0][0..3], "-X-");
    assert_eq!(&lines[1][0..2], "X-");
    assert!(lines.iter().all(|l| l.len() == GFX_WIDTH));
    assert!(text.ends_with('\n'));
}

#[test]
fn sys_timer_pause_ends_at_target() {
    let timer = SysTimer::new(16600);
    assert!(!timer.pause_until_target_reached(16_599_999));
    assert!(timer.pause_until_target_reached(16_600_000));
    assert!(timer.pause_until_target_reached(999_999_999));
    assert!(!timer.pause_until_target_reached(0));
}
