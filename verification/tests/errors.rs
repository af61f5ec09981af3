use chip8::{init, Chip8, StepError};

fn boot(prog: &[u8]) -> Chip8 {
    let mut rom = [0u8; 3584];
    for (k, b) in prog.iter().enumerate() {
        rom[k] = *b;
    }
    init(rom)
}

fn step(emu: &mut Chip8) -> Result<(), StepError> {
    let mut draw = false;
    let mut beep = false;
    emu.cycle(&mut draw, &mut beep)
}

#[test]
fn unknown_opcode_is_fatal_and_mutates_nothing() {
    // 0xFFFF matches no pattern: the step fails, naming the opcode and
    // the PC, and neither the PC nor any register has moved.
    let mut emu = boot(&[0xFF, 0xFF]);
    let r = step(&mut emu);
    assert_eq!(r, Err(StepError::UnknownOpcode { opcode: 0xFFFF, pc: 0x200 }));
    assert_eq!(emu.program_counter(), 0x200);
    for k in 0..16 {
        assert_eq!(emu.reg(k), 0);
    }
    assert_eq!(emu.address_register(), 0);
    assert_eq!(emu.stack_pointer(), 0);
}

#[test]
fn unknown_opcode_families() {
    // 5XY1 and 8XYF fall through every mask.
    let mut emu = boot(&[0x50, 0x11]);
    assert_eq!(step(&mut emu), Err(StepError::UnknownOpcode { opcode: 0x5011, pc: 0x200 }));
    let mut emu2 = boot(&[0x80, 0x1F]);
    assert_eq!(step(&mut emu2), Err(StepError::UnknownOpcode { opcode: 0x801F, pc: 0x200 }));
    let mut emu3 = boot(&[0x00, 0x00]);
    assert_eq!(step(&mut emu3), Err(StepError::UnknownOpcode { opcode: 0x0000, pc: 0x200 }));
}

#[test]
fn fetch_window_is_checked() {
    // Jump to 0xFFF: the next fetch would need bytes 0xFFF and 0x1000.
    let mut emu = boot(&[0x1F, 0xFF]);
    step(&mut emu).unwrap();
    assert_eq!(emu.program_counter(), 0xFFF);
    assert_eq!(step(&mut emu), Err(StepError::PcOutOfRange { pc: 0xFFF }));
    assert_eq!(emu.program_counter(), 0xFFF);
}

#[test]
fn return_with_empty_stack() {
    let mut emu = boot(&[0x00, 0xEE]);
    assert_eq!(step(&mut emu), Err(StepError::StackUnderflow { pc: 0x200 }));
    assert_eq!(emu.program_counter(), 0x200);
    assert_eq!(emu.stack_pointer(), 0);
}

#[test]
fn seventeenth_nested_call_overflows() {
    // A chain of calls, each to the next instruction: the sixteenth call
    // fills the stack and the seventeenth fails.
    let mut prog = Vec::new();
    for k in 0..17u16 {
        let target = 0x202 + 2 * k;
        prog.push(0x20 | (target >> 8) as u8);
        prog.push((target & 0xFF) as u8);
    }
    let mut emu = boot(&prog);
    for _ in 0..16 {
        step(&mut emu).unwrap();
    }
    assert_eq!(emu.stack_pointer(), 16);
    assert_eq!(step(&mut emu), Err(StepError::StackOverflow { pc: 0x220 }));
    assert_eq!(emu.stack_pointer(), 16);
}

#[test]
fn bcd_beyond_memory_end() {
    // I=0xFFE leaves no room for three BCD digits.
    let mut emu = boot(&[0xAF, 0xFE, 0xF0, 0x33]);
    step(&mut emu).unwrap();
    assert_eq!(step(&mut emu), Err(StepError::MemoryOutOfRange { pc: 0x202, i: 0xFFE }));
}

#[test]
fn register_block_beyond_memory_end() {
    // I=0xFFE with X=2 would touch 0x1000.
    let mut emu = boot(&[0xAF, 0xFE, 0xF2, 0x55]);
    step(&mut emu).unwrap();
    assert_eq!(step(&mut emu), Err(StepError::MemoryOutOfRange { pc: 0x202, i: 0xFFE }));

    let mut emu2 = boot(&[0xAF, 0xFE, 0xF2, 0x65]);
    step(&mut emu2).unwrap();
    assert_eq!(step(&mut emu2), Err(StepError::MemoryOutOfRange { pc: 0x202, i: 0xFFE }));
}

#[test]
fn sprite_rows_beyond_memory_end() {
    // I=0xFFE with a three-row sprite would read 0x1000.
    let mut emu = boot(&[0xAF, 0xFE, 0xD0, 0x03]);
    step(&mut emu).unwrap();
    assert_eq!(step(&mut emu), Err(StepError::MemoryOutOfRange { pc: 0x202, i: 0xFFE }));
    // but a zero-row draw at the same address is fine.
    let mut emu2 = boot(&[0xAF, 0xFE, 0xD0, 0x00]);
    step(&mut emu2).unwrap();
    step(&mut emu2).unwrap();
}

#[test]
fn key_skip_with_non_key_value() {
    // EX9E consults keypad[Vx]; a Vx of 16 or more is not a key.
    let mut emu = boot(&[0x60, 0x10, 0xE0, 0x9E]);
    step(&mut emu).unwrap();
    assert_eq!(step(&mut emu), Err(StepError::KeyOutOfRange { pc: 0x202, key: 0x10 }));

    let mut emu2 = boot(&[0x60, 0x10, 0xE0, 0xA1]);
    step(&mut emu2).unwrap();
    assert_eq!(step(&mut emu2), Err(StepError::KeyOutOfRange { pc: 0x202, key: 0x10 }));
}

#[test]
fn failed_step_still_traces_the_opcode() {
    let mut emu = boot(&[0xFF, 0xFF]);
    let _ = step(&mut emu);
    assert_eq!(emu.debug_info.opcode, 0xFFFF);
    assert_eq!(emu.debug_info.opcode_trans, "UNKNOWN");
}
