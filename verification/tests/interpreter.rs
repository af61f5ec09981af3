use chip8::{init, Chip8};

fn boot(prog: &[u8]) -> Chip8 {
    let mut rom = [0u8; 3584];
    for (k, b) in prog.iter().enumerate() {
        rom[k] = *b;
    }
    init(rom)
}

fn run(emu: &mut Chip8) -> (bool, bool) {
    let mut draw = false;
    let mut beep = false;
    emu.cycle(&mut draw, &mut beep).unwrap();
    (draw, beep)
}

#[test]
fn init_layout() {
    let emu = boot(&[0xAB, 0xCD]);
    assert_eq!(emu.mem_at(0), 0xF0); // glyph 0, first row
    assert_eq!(emu.mem_at(79), 0x80); // glyph F, last row
    assert_eq!(emu.mem_at(80), 0);
    assert_eq!(emu.mem_at(0x1FF), 0);
    assert_eq!(emu.mem_at(0x200), 0xAB);
    assert_eq!(emu.mem_at(0x201), 0xCD);
    assert_eq!(emu.program_counter(), 0x200);
    assert_eq!(emu.stack_pointer(), 0);
    assert_eq!(emu.address_register(), 0);
    for k in 0..16 {
        assert_eq!(emu.reg(k), 0);
    }
    for p in 0..2048 {
        assert_eq!(emu.gfx[p], 0);
    }
}

#[test]
fn set_immediate_one_step() {
    // 6XNN with X=0, NN=5 at 0x200: after one step V0=5 and PC=0x202.
    let mut emu = boot(&[0x60, 0x05]);
    let (draw, beep) = run(&mut emu);
    assert_eq!(emu.reg(0), 5);
    assert_eq!(emu.program_counter(), 0x202);
    assert!(!draw);
    assert!(!beep);
}

#[test]
fn zero_sprite_draw_leaves_framebuffer() {
    // I=0x500, then a draw whose rows are all zero bytes: the framebuffer
    // is unchanged and VF=0.
    let mut emu = boot(&[0xA5, 0x00, 0xD0, 0x05]);
    run(&mut emu);
    assert_eq!(emu.address_register(), 0x500);
    let (draw, _) = run(&mut emu);
    assert!(draw);
    assert_eq!(emu.reg(15), 0);
    for p in 0..2048 {
        assert_eq!(emu.gfx[p], 0);
    }
}

#[test]
fn jump_is_exact() {
    // 1NNN jumps to 0x205 exactly, without the +2 of other instructions.
    let mut emu = boot(&[0x12, 0x05]);
    run(&mut emu);
    assert_eq!(emu.program_counter(), 0x205);
}

#[test]
fn add_with_carry() {
    // V0=5, V1=255, then 8014: V0=(5+255) mod 256=4 and VF=1.
    let mut emu = boot(&[0x60, 0x05, 0x61, 0xFF, 0x80, 0x14]);
    run(&mut emu);
    run(&mut emu);
    run(&mut emu);
    assert_eq!(emu.reg(0), 4);
    assert_eq!(emu.reg(15), 1);
    assert_eq!(emu.program_counter(), 0x206);
}

#[test]
fn add_without_carry() {
    let mut emu = boot(&[0x60, 0x05, 0x61, 0x02, 0x80, 0x14]);
    run(&mut emu);
    run(&mut emu);
    run(&mut emu);
    assert_eq!(emu.reg(0), 7);
    assert_eq!(emu.reg(15), 0);
}

#[test]
fn sub_with_borrow() {
    // V0=5, V1=10, then 8015: V0=(5-10) mod 256=251 and VF=0 (borrow).
    let mut emu = boot(&[0x60, 0x05, 0x61, 0x0A, 0x80, 0x15]);
    run(&mut emu);
    run(&mut emu);
    run(&mut emu);
    assert_eq!(emu.reg(0), 251);
    assert_eq!(emu.reg(15), 0);
}

#[test]
fn sub_without_borrow() {
    let mut emu = boot(&[0x60, 0x0A, 0x61, 0x05, 0x80, 0x15]);
    run(&mut emu);
    run(&mut emu);
    run(&mut emu);
    assert_eq!(emu.reg(0), 5);
    assert_eq!(emu.reg(15), 1);
}

#[test]
fn sub_from_other_side() {
    // 8XY7: V0 = V1 - V0.
    let mut emu = boot(&[0x60, 0x03, 0x61, 0x0A, 0x80, 0x17]);
    run(&mut emu);
    run(&mut emu);
    run(&mut emu);
    assert_eq!(emu.reg(0), 7);
    assert_eq!(emu.reg(15), 1);
}

#[test]
fn add_immediate_wraps_without_flag() {
    let mut emu = boot(&[0x60, 0xFF, 0x70, 0x02]);
    run(&mut emu);
    run(&mut emu);
    assert_eq!(emu.reg(0), 1);
    assert_eq!(emu.reg(15), 0);
}

#[test]
fn shift_right_keeps_low_bit() {
    let mut emu = boot(&[0x60, 0x05, 0x80, 0x06]);
    run(&mut emu);
    run(&mut emu);
    assert_eq!(emu.reg(0), 2);
    assert_eq!(emu.reg(15), 1);
}

#[test]
fn shift_left_keeps_high_bit() {
    let mut emu = boot(&[0x60, 0x81, 0x80, 0x0E]);
    run(&mut emu);
    run(&mut emu);
    assert_eq!(emu.reg(0), 2);
    assert_eq!(emu.reg(15), 1);
}

#[test]
fn bitwise_ops() {
    let mut emu = boot(&[
        0x60, 0x0C, 0x61, 0x0A, 0x80, 0x11, // V0 = 0x0C | 0x0A = 0x0E
        0x62, 0x0C, 0x63, 0x0A, 0x82, 0x32, // V2 = 0x0C & 0x0A = 0x08
        0x64, 0x0C, 0x65, 0x0A, 0x84, 0x53, // V4 = 0x0C ^ 0x0A = 0x06
        0x86, 0x50, // V6 = V5 = 0x0A
    ]);
    for _ in 0..10 {
        run(&mut emu);
    }
    assert_eq!(emu.reg(0), 0x0E);
    assert_eq!(emu.reg(2), 0x08);
    assert_eq!(emu.reg(4), 0x06);
    assert_eq!(emu.reg(6), 0x0A);
}

#[test]
fn skips_on_immediates_and_registers() {
    // 3XNN skips when equal: V0=7, 3007 skips the jump at 0x204.
    let mut emu = boot(&[0x60, 0x07, 0x30, 0x07]);
    run(&mut emu);
    run(&mut emu);
    assert_eq!(emu.program_counter(), 0x206);

    // 4XNN skips when not equal.
    let mut emu2 = boot(&[0x60, 0x07, 0x40, 0x08]);
    run(&mut emu2);
    run(&mut emu2);
    assert_eq!(emu2.program_counter(), 0x206);

    // 5XY0 skips when registers are equal.
    let mut emu3 = boot(&[0x60, 0x07, 0x61, 0x07, 0x50, 0x10]);
    run(&mut emu3);
    run(&mut emu3);
    run(&mut emu3);
    assert_eq!(emu3.program_counter(), 0x208);

    // 9XY0 skips when registers differ.
    let mut emu4 = boot(&[0x60, 0x07, 0x61, 0x08, 0x90, 0x10]);
    run(&mut emu4);
    run(&mut emu4);
    run(&mut emu4);
    assert_eq!(emu4.program_counter(), 0x208);

    // and no skip when the test fails.
    let mut emu5 = boot(&[0x60, 0x07, 0x30, 0x08]);
    run(&mut emu5);
    run(&mut emu5);
    assert_eq!(emu5.program_counter(), 0x204);
}

#[test]
fn call_and_return_add_two() {
    // 2NNN saves the call site; 00EE returns to it plus 2.
    let mut emu = boot(&[0x22, 0x04, 0x00, 0x00, 0x00, 0xEE]);
    run(&mut emu);
    assert_eq!(emu.program_counter(), 0x204);
    assert_eq!(emu.stack_pointer(), 1);
    assert_eq!(emu.stack_at(0), 0x200);
    run(&mut emu);
    assert_eq!(emu.program_counter(), 0x202);
    assert_eq!(emu.stack_pointer(), 0);
}

#[test]
fn jump_with_offset_adds_two() {
    // BNNN lands on V0+NNN+2, reproducing the reference quirk.
    let mut emu = boot(&[0x60, 0x02, 0xB3, 0x00]);
    run(&mut emu);
    run(&mut emu);
    assert_eq!(emu.program_counter(), 0x304);
}

#[test]
fn set_index_register() {
    let mut emu = boot(&[0xA1, 0x23]);
    run(&mut emu);
    assert_eq!(emu.address_register(), 0x123);
    assert_eq!(emu.program_counter(), 0x202);
}

#[test]
fn add_register_into_index() {
    let mut emu = boot(&[0xA1, 0x23, 0x64, 0x05, 0xF4, 0x1E]);
    run(&mut emu);
    run(&mut emu);
    run(&mut emu);
    assert_eq!(emu.address_register(), 0x128);
}

#[test]
fn glyph_address_is_five_times_digit() {
    let mut emu = boot(&[0x60, 0x0B, 0xF0, 0x29]);
    run(&mut emu);
    run(&mut emu);
    assert_eq!(emu.address_register(), 55);
}

#[test]
fn bcd_of_156() {
    // FX33 on Vx=156 stores 1, 5, 6 at I, I+1, I+2.
    let mut emu = boot(&[0x60, 0x9C, 0xA3, 0x00, 0xF0, 0x33]);
    run(&mut emu);
    run(&mut emu);
    run(&mut emu);
    assert_eq!(emu.mem_at(0x300), 1);
    assert_eq!(emu.mem_at(0x301), 5);
    assert_eq!(emu.mem_at(0x302), 6);
}

#[test]
fn store_then_load_round_trip() {
    // FX55 then FX65 with the same X and I restores V0..VX.
    let mut emu = boot(&[
        0x60, 0x11, 0x61, 0x22, 0x62, 0x33, // V0..V2
        0xA4, 0x00, // I = 0x400
        0xF2, 0x55, // store V0..V2
        0x60, 0x00, 0x61, 0x00, 0x62, 0x00, // clear V0..V2
        0xF2, 0x65, // load V0..V2
    ]);
    for _ in 0..9 {
        run(&mut emu);
    }
    assert_eq!(emu.reg(0), 0x11);
    assert_eq!(emu.reg(1), 0x22);
    assert_eq!(emu.reg(2), 0x33);
    assert_eq!(emu.mem_at(0x400), 0x11);
    assert_eq!(emu.mem_at(0x401), 0x22);
    assert_eq!(emu.mem_at(0x402), 0x33);
}

#[test]
fn draw_glyph_then_redraw_restores() {
    // Draw glyph 0 at (0,0), then draw it again: the first draw lights the
    // glyph's pixels with VF=0; the second collides (VF=1) and restores the
    // blank framebuffer.
    let mut emu = boot(&[0xF0, 0x29, 0xD0, 0x05, 0xD0, 0x05]);
    run(&mut emu);
    let (draw, _) = run(&mut emu);
    assert!(draw);
    assert_eq!(emu.reg(15), 0);
    // glyph 0 top row is 0xF0: cells 0..4 lit, 4..8 dark.
    assert_eq!(emu.gfx[0], 1);
    assert_eq!(emu.gfx[3], 1);
    assert_eq!(emu.gfx[4], 0);
    // second row 0x90.
    assert_eq!(emu.gfx[64], 1);
    assert_eq!(emu.gfx[65], 0);
    assert_eq!(emu.gfx[66], 0);
    assert_eq!(emu.gfx[67], 1);
    run(&mut emu);
    assert_eq!(emu.reg(15), 1);
    for p in 0..2048 {
        assert_eq!(emu.gfx[p], 0);
    }
}

#[test]
fn draw_wraps_modulo_framebuffer() {
    // Drawing at row 31 runs the later rows past cell 2047, wrapping to
    // the start of the framebuffer.
    let mut emu = boot(&[
        0x60, 0x00, // V0 = 0 (x)
        0x61, 0x1F, // V1 = 31 (y)
        0xF0, 0x29, // I = glyph 0
        0xD0, 0x15, // draw 5 rows at (0, 31)
    ]);
    for _ in 0..4 {
        run(&mut emu);
    }
    // row 31 holds the glyph's first byte 0xF0.
    assert_eq!(emu.gfx[31 * 64], 1);
    // the second byte 0x90 wrapped to row 0.
    assert_eq!(emu.gfx[0], 1);
    assert_eq!(emu.gfx[3], 1);
    assert_eq!(emu.gfx[1], 0);
}

#[test]
fn clear_screen_blanks_after_draw() {
    // 00E0 after a draw: the framebuffer is all zero immediately after.
    let mut emu = boot(&[0xF0, 0x29, 0xD0, 0x05, 0x00, 0xE0]);
    run(&mut emu);
    run(&mut emu);
    run(&mut emu);
    for p in 0..2048 {
        assert_eq!(emu.gfx[p], 0);
    }
    assert_eq!(emu.program_counter(), 0x206);
}

#[test]
fn delay_timer_set_read_and_tick() {
    // F215 sets the delay timer from V2; it ticks down once per step.
    // F007 then reads the ticked value into V0.
    let mut emu = boot(&[0x62, 0x05, 0xF2, 0x15, 0xF0, 0x07]);
    run(&mut emu);
    run(&mut emu);
    assert_eq!(emu.delay_timer(), 4);
    run(&mut emu);
    assert_eq!(emu.reg(0), 4);
    assert_eq!(emu.delay_timer(), 3);
}

#[test]
fn sound_timer_edge_triggers_beep() {
    // F218 with V2=2: the set step ticks it to 1 without a beep; the next
    // step ticks it to 0 and requests the tone exactly once.
    let mut emu = boot(&[0x62, 0x02, 0xF2, 0x18, 0x00, 0xE0, 0x00, 0xE0]);
    run(&mut emu);
    let (_, beep1) = run(&mut emu);
    assert!(!beep1);
    assert_eq!(emu.sound_timer(), 1);
    let (_, beep2) = run(&mut emu);
    assert!(beep2);
    assert_eq!(emu.sound_timer(), 0);
    let (_, beep3) = run(&mut emu);
    assert!(!beep3);
}

#[test]
fn wait_key_blocks_until_pressed() {
    // F00A with no key pressed leaves PC unadvanced; once a key is
    // pressed, its index lands in Vx and PC moves on.
    let mut emu = boot(&[0xF0, 0x0A]);
    run(&mut emu);
    assert_eq!(emu.program_counter(), 0x200);
    run(&mut emu);
    assert_eq!(emu.program_counter(), 0x200);
    emu.keypad[7] = 1;
    run(&mut emu);
    assert_eq!(emu.reg(0), 7);
    assert_eq!(emu.program_counter(), 0x202);
}

#[test]
fn wait_key_takes_lowest_pressed() {
    let mut emu = boot(&[0xF0, 0x0A]);
    emu.keypad[9] = 1;
    emu.keypad[3] = 1;
    run(&mut emu);
    assert_eq!(emu.reg(0), 3);
}

#[test]
fn skip_on_key_state() {
    // E09E skips when the key in Vx is pressed.
    let mut emu = boot(&[0x60, 0x04, 0xE0, 0x9E]);
    emu.keypad[4] = 1;
    run(&mut emu);
    run(&mut emu);
    assert_eq!(emu.program_counter(), 0x206);

    // EXA1 skips when it is not pressed.
    let mut emu2 = boot(&[0x60, 0x04, 0xE0, 0xA1]);
    run(&mut emu2);
    run(&mut emu2);
    assert_eq!(emu2.program_counter(), 0x206);

    // and neither skips in the opposite state.
    let mut emu3 = boot(&[0x60, 0x04, 0xE0, 0x9E]);
    run(&mut emu3);
    run(&mut emu3);
    assert_eq!(emu3.program_counter(), 0x204);
}

#[test]
fn random_byte_is_masked() {
    // CXNN masks the random byte: NN=0 forces Vx to 0 whatever the
    // generator returned, NN=0x0F keeps it below 16.
    let mut emu = boot(&[0x60, 0xAA, 0xC0, 0x00, 0xC1, 0x0F]);
    run(&mut emu);
    run(&mut emu);
    assert_eq!(emu.reg(0), 0);
    run(&mut emu);
    assert!(emu.reg(1) < 16);
}

#[test]
fn trace_snapshots_the_step() {
    let mut emu = boot(&[0x6A, 0x2B]);
    run(&mut emu);
    assert_eq!(emu.debug_info.opcode, 0x6A2B);
    assert_eq!(emu.debug_info.pc, 0x200);
    assert_eq!(emu.debug_info.opcode_trans, "SET");
    // the snapshot shows the registers as the step began.
    assert_eq!(emu.debug_info.v[10], 0);
    assert_eq!(emu.reg(10), 0x2B);
}
