//! Opcode decoding: classifies a raw 16-bit opcode into a closed set of
//! instruction variants, preserving the mask priority of the dispatch
//! (the two literal matches `0x00E0` and `0x00EE` are tested before any
//! masked family).

use vstd::prelude::*;

verus! {

/// One decoded instruction. Field names follow the conventional opcode
/// field names: `nnn` is the low 12 bits, `nn` the low byte, `n` the low
/// nibble, `x` bits 8..12 and `y` bits 4..8.
#[derive(Clone, Copy, Debug, PartialEq, Eq, Structural)]
pub enum Instr {
    /// 00E0: clear the framebuffer.
    ClearScreen,
    /// 00EE: return from a subroutine.
    Ret,
    /// 1NNN: jump to NNN.
    Jump { nnn: u16 },
    /// 2NNN: call the subroutine at NNN.
    Call { nnn: u16 },
    /// 3XNN: skip the next instruction if Vx == NN.
    SkipEqImm { x: u8, nn: u8 },
    /// 4XNN: skip the next instruction if Vx != NN.
    SkipNeImm { x: u8, nn: u8 },
    /// 5XY0: skip the next instruction if Vx == Vy.
    SkipEqReg { x: u8, y: u8 },
    /// 6XNN: Vx = NN.
    SetImm { x: u8, nn: u8 },
    /// 7XNN: Vx += NN with 8-bit wraparound, no flag.
    AddImm { x: u8, nn: u8 },
    /// 8XY0: Vx = Vy.
    MovReg { x: u8, y: u8 },
    /// 8XY1: Vx |= Vy.
    OrReg { x: u8, y: u8 },
    /// 8XY2: Vx &= Vy.
    AndReg { x: u8, y: u8 },
    /// 8XY3: Vx ^= Vy.
    XorReg { x: u8, y: u8 },
    /// 8XY4: Vx += Vy with 8-bit wraparound; VF = carry.
    AddReg { x: u8, y: u8 },
    /// 8XY5: Vx -= Vy with 8-bit wraparound; VF = 0 on borrow, else 1.
    SubReg { x: u8, y: u8 },
    /// 8XY6: VF = low bit of Vx, then Vx >>= 1.
    ShrReg { x: u8 },
    /// 8XY7: Vx = Vy - Vx with 8-bit wraparound; VF = 0 on borrow, else 1.
    SubFrom { x: u8, y: u8 },
    /// 8XYE: VF = high bit of Vx, then Vx <<= 1 with 8-bit truncation.
    ShlReg { x: u8 },
    /// 9XY0: skip the next instruction if Vx != Vy.
    SkipNeReg { x: u8, y: u8 },
    /// ANNN: I = NNN.
    SetIndex { nnn: u16 },
    /// BNNN: jump to V0 + NNN, then advance by 2 more.
    JumpOffset { nnn: u16 },
    /// CXNN: Vx = random byte & NN.
    Rand { x: u8, nn: u8 },
    /// DXYN: XOR-draw an N-row sprite read from memory at I at (Vx, Vy).
    Draw { x: u8, y: u8, n: u8 },
    /// EX9E: skip the next instruction if key Vx is pressed.
    SkipKey { x: u8 },
    /// EXA1: skip the next instruction if key Vx is not pressed.
    SkipNoKey { x: u8 },
    /// FX07: Vx = delay timer.
    GetDelay { x: u8 },
    /// FX0A: wait for a key press and store the first pressed key in Vx.
    WaitKey { x: u8 },
    /// FX15: delay timer = Vx.
    SetDelay { x: u8 },
    /// FX18: sound timer = Vx.
    SetSound { x: u8 },
    /// FX1E: I += Vx with 16-bit wraparound, no flag.
    AddIndex { x: u8 },
    /// FX29: I = address of the built-in glyph for digit Vx.
    GlyphIndex { x: u8 },
    /// FX33: store the 3-digit BCD of Vx at I, I+1, I+2.
    StoreBcd { x: u8 },
    /// FX55: copy V0..=Vx into memory starting at I.
    StoreRegs { x: u8 },
    /// FX65: copy memory starting at I into V0..=Vx.
    LoadRegs { x: u8 },
}

/// The X field of an opcode: bits 8..12.
pub open spec fn spec_x(op: u16) -> u8 {
    ((op >> 8) & 0xF) as u8
}

/// The Y field of an opcode: bits 4..8.
pub open spec fn spec_y(op: u16) -> u8 {
    ((op >> 4) & 0xF) as u8
}

/// The NN field of an opcode: the low byte.
pub open spec fn spec_nn(op: u16) -> u8 {
    (op & 0xFF) as u8
}

/// The NNN field of an opcode: the low 12 bits.
pub open spec fn spec_nnn(op: u16) -> u16 {
    op & 0xFFF
}

/// The N field of an opcode: the low nibble.
pub open spec fn spec_n(op: u16) -> u8 {
    (op & 0xF) as u8
}

/// The decode table. `None` is an unrecognized opcode, which is fatal to
/// the interpreter. The order mirrors the dispatch priority: the two full
/// literal opcodes first, then the families selected by masking.
pub open spec fn spec_decode(op: u16) -> Option<Instr> {
    if op == 0x00E0 {
        Some(Instr::ClearScreen)
    } else if op == 0x00EE {
        Some(Instr::Ret)
    } else if op & 0xF000 == 0x1000 {
        Some(Instr::Jump { nnn: spec_nnn(op) })
    } else if op & 0xF000 == 0x2000 {
        Some(Instr::Call { nnn: spec_nnn(op) })
    } else if op & 0xF000 == 0x3000 {
        Some(Instr::SkipEqImm { x: spec_x(op), nn: spec_nn(op) })
    } else if op & 0xF000 == 0x4000 {
        Some(Instr::SkipNeImm { x: spec_x(op), nn: spec_nn(op) })
    } else if op & 0xF00F == 0x5000 {
        Some(Instr::SkipEqReg { x: spec_x(op), y: spec_y(op) })
    } else if op & 0xF000 == 0x6000 {
        Some(Instr::SetImm { x: spec_x(op), nn: spec_nn(op) })
    } else if op & 0xF000 == 0x7000 {
        Some(Instr::AddImm { x: spec_x(op), nn: spec_nn(op) })
    } else if op & 0xF00F == 0x8000 {
        Some(Instr::MovReg { x: spec_x(op), y: spec_y(op) })
    } else if op & 0xF00F == 0x8001 {
        Some(Instr::OrReg { x: spec_x(op), y: spec_y(op) })
    } else if op & 0xF00F == 0x8002 {
        Some(Instr::AndReg { x: spec_x(op), y: spec_y(op) })
    } else if op & 0xF00F == 0x8003 {
        Some(Instr::XorReg { x: spec_x(op), y: spec_y(op) })
    } else if op & 0xF00F == 0x8004 {
        Some(Instr::AddReg { x: spec_x(op), y: spec_y(op) })
    } else if op & 0xF00F == 0x8005 {
        Some(Instr::SubReg { x: spec_x(op), y: spec_y(op) })
    } else if op & 0xF00F == 0x8006 {
        Some(Instr::ShrReg { x: spec_x(op) })
    } else if op & 0xF00F == 0x8007 {
        Some(Instr::SubFrom { x: spec_x(op), y: spec_y(op) })
    } else if op & 0xF00F == 0x800E {
        Some(Instr::ShlReg { x: spec_x(op) })
    } else if op & 0xF00F == 0x9000 {
        Some(Instr::SkipNeReg { x: spec_x(op), y: spec_y(op) })
    } else if op & 0xF000 == 0xA000 {
        Some(Instr::SetIndex { nnn: spec_nnn(op) })
    } else if op & 0xF000 == 0xB000 {
        Some(Instr::JumpOffset { nnn: spec_nnn(op) })
    } else if op & 0xF000 == 0xC000 {
        Some(Instr::Rand { x: spec_x(op), nn: spec_nn(op) })
    } else if op & 0xF000 == 0xD000 {
        Some(Instr::Draw { x: spec_x(op), y: spec_y(op), n: spec_n(op) })
    } else if op & 0xF0FF == 0xE09E {
        Some(Instr::SkipKey { x: spec_x(op) })
    } else if op & 0xF0FF == 0xE0A1 {
        Some(Instr::SkipNoKey { x: spec_x(op) })
    } else if op & 0xF0FF == 0xF007 {
        Some(Instr::GetDelay { x: spec_x(op) })
    } else if op & 0xF0FF == 0xF00A {
        Some(Instr::WaitKey { x: spec_x(op) })
    } else if op & 0xF0FF == 0xF015 {
        Some(Instr::SetDelay { x: spec_x(op) })
    } else if op & 0xF0FF == 0xF018 {
        Some(Instr::SetSound { x: spec_x(op) })
    } else if op & 0xF0FF == 0xF01E {
        Some(Instr::AddIndex { x: spec_x(op) })
    } else if op & 0xF0FF == 0xF029 {
        Some(Instr::GlyphIndex { x: spec_x(op) })
    } else if op & 0xF0FF == 0xF033 {
        Some(Instr::StoreBcd { x: spec_x(op) })
    } else if op & 0xF0FF == 0xF055 {
        Some(Instr::StoreRegs { x: spec_x(op) })
    } else if op & 0xF0FF == 0xF065 {
        Some(Instr::LoadRegs { x: spec_x(op) })
    } else {
        None
    }
}

/// Every register index named by a decoded instruction is below 16, every
/// address is below 4096 and every nibble immediate is below 16.
pub open spec fn instr_wf(i: Instr) -> bool {
    match i {
        Instr::ClearScreen => true,
        Instr::Ret => true,
        Instr::Jump { nnn } => nnn < 4096,
        Instr::Call { nnn } => nnn < 4096,
        Instr::SkipEqImm { x, nn } => x < 16,
        Instr::SkipNeImm { x, nn } => x < 16,
        Instr::SkipEqReg { x, y } => x < 16 && y < 16,
        Instr::SetImm { x, nn } => x < 16,
        Instr::AddImm { x, nn } => x < 16,
        Instr::MovReg { x, y } => x < 16 && y < 16,
        Instr::OrReg { x, y } => x < 16 && y < 16,
        Instr::AndReg { x, y } => x < 16 && y < 16,
        Instr::XorReg { x, y } => x < 16 && y < 16,
        Instr::AddReg { x, y } => x < 16 && y < 16,
        Instr::SubReg { x, y } => x < 16 && y < 16,
        Instr::ShrReg { x } => x < 16,
        Instr::SubFrom { x, y } => x < 16 && y < 16,
        Instr::ShlReg { x } => x < 16,
        Instr::SkipNeReg { x, y } => x < 16 && y < 16,
        Instr::SetIndex { nnn } => nnn < 4096,
        Instr::JumpOffset { nnn } => nnn < 4096,
        Instr::Rand { x, nn } => x < 16,
        Instr::Draw { x, y, n } => x < 16 && y < 16 && n < 16,
        Instr::SkipKey { x } => x < 16,
        Instr::SkipNoKey { x } => x < 16,
        Instr::GetDelay { x } => x < 16,
        Instr::WaitKey { x } => x < 16,
        Instr::SetDelay { x } => x < 16,
        Instr::SetSound { x } => x < 16,
        Instr::AddIndex { x } => x < 16,
        Instr::GlyphIndex { x } => x < 16,
        Instr::StoreBcd { x } => x < 16,
        Instr::StoreRegs { x } => x < 16,
        Instr::LoadRegs { x } => x < 16,
    }
}

/// The opcode fields are bounded by their widths.
pub proof fn lemma_field_bounds(op: u16)
    ensures
        spec_x(op) < 16,
        spec_y(op) < 16,
        spec_n(op) < 16,
        spec_nnn(op) < 4096,
{
    assert((op >> 8) & 0xF < 16 && (op >> 4) & 0xF < 16 && op & 0xF < 16 && op & 0xFFF < 4096)
        by (bit_vector);
}

/// Whatever instruction an opcode decodes to is well formed.
pub proof fn lemma_decode_wf(op: u16)
    ensures
        spec_decode(op) matches Some(i) ==> instr_wf(i),
{
    lemma_field_bounds(op);
}

/// Decode one opcode, exactly as [`spec_decode`] lays the table out.
pub fn decode(op: u16) -> (r: Option<Instr>)
    ensures
        r == spec_decode(op),
        r matches Some(i) ==> instr_wf(i),
{
    proof {
        lemma_decode_wf(op);
    }
    let x = ((op >> 8) & 0xF) as u8;
    let y = ((op >> 4) & 0xF) as u8;
    let nn = (op & 0xFF) as u8;
    let nnn = op & 0xFFF;
    let n = (op & 0xF) as u8;
    if op == 0x00E0 {
        Some(Instr::ClearScreen)
    } else if op == 0x00EE {
        Some(Instr::Ret)
    } else if op & 0xF000 == 0x1000 {
        Some(Instr::Jump { nnn })
    } else if op & 0xF000 == 0x2000 {
        Some(Instr::Call { nnn })
    } else if op & 0xF000 == 0x3000 {
        Some(Instr::SkipEqImm { x, nn })
    } else if op & 0xF000 == 0x4000 {
        Some(Instr::SkipNeImm { x, nn })
    } else if op & 0xF00F == 0x5000 {
        Some(Instr::SkipEqReg { x, y })
    } else if op & 0xF000 == 0x6000 {
        Some(Instr::SetImm { x, nn })
    } else if op & 0xF000 == 0x7000 {
        Some(Instr::AddImm { x, nn })
    } else if op & 0xF00F == 0x8000 {
        Some(Instr::MovReg { x, y })
    } else if op & 0xF00F == 0x8001 {
        Some(Instr::OrReg { x, y })
    } else if op & 0xF00F == 0x8002 {
        Some(Instr::AndReg { x, y })
    } else if op & 0xF00F == 0x8003 {
        Some(Instr::XorReg { x, y })
    } else if op & 0xF00F == 0x8004 {
        Some(Instr::AddReg { x, y })
    } else if op & 0xF00F == 0x8005 {
        Some(Instr::SubReg { x, y })
    } else if op & 0xF00F == 0x8006 {
        Some(Instr::ShrReg { x })
    } else if op & 0xF00F == 0x8007 {
        Some(Instr::SubFrom { x, y })
    } else if op & 0xF00F == 0x800E {
        Some(Instr::ShlReg { x })
    } else if op & 0xF00F == 0x9000 {
        Some(Instr::SkipNeReg { x, y })
    } else if op & 0xF000 == 0xA000 {
        Some(Instr::SetIndex { nnn })
    } else if op & 0xF000 == 0xB000 {
        Some(Instr::JumpOffset { nnn })
    } else if op & 0xF000 == 0xC000 {
        Some(Instr::Rand { x, nn })
    } else if op & 0xF000 == 0xD000 {
        Some(Instr::Draw { x, y, n })
    } else if op & 0xF0FF == 0xE09E {
        Some(Instr::SkipKey { x })
    } else if op & 0xF0FF == 0xE0A1 {
        Some(Instr::SkipNoKey { x })
    } else if op & 0xF0FF == 0xF007 {
        Some(Instr::GetDelay { x })
    } else if op & 0xF0FF == 0xF00A {
        Some(Instr::WaitKey { x })
    } else if op & 0xF0FF == 0xF015 {
        Some(Instr::SetDelay { x })
    } else if op & 0xF0FF == 0xF018 {
        Some(Instr::SetSound { x })
    } else if op & 0xF0FF == 0xF01E {
        Some(Instr::AddIndex { x })
    } else if op & 0xF0FF == 0xF029 {
        Some(Instr::GlyphIndex { x })
    } else if op & 0xF0FF == 0xF033 {
        Some(Instr::StoreBcd { x })
    } else if op & 0xF0FF == 0xF055 {
        Some(Instr::StoreRegs { x })
    } else if op & 0xF0FF == 0xF065 {
        Some(Instr::LoadRegs { x })
    } else {
        None
    }
}

} // verus!
