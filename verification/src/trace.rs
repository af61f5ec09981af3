//! The human-readable mnemonic recorded in the per-step trace.

use vstd::prelude::*;

use crate::decode::Instr;

verus! {

/// The mnemonic the trace records for a decode result; `None` is the
/// unrecognized opcode.
pub open spec fn mnemonic_of(oi: Option<Instr>) -> Seq<char> {
    match oi {
        None => "UNKNOWN"@,
        Some(instr) => match instr {
            Instr::ClearScreen => "DISPLAY_CLEAR"@,
            Instr::Ret => "RETURN"@,
            Instr::Jump { .. } => "JUMP"@,
            Instr::Call { .. } => "SUBROUTINE"@,
            Instr::SkipEqImm { .. } => "SKIP_IF_EQUAL"@,
            Instr::SkipNeImm { .. } => "SKIP_IF_NOT_EQUAL"@,
            Instr::SkipEqReg { .. } => "SKIP_IF_EQUAL"@,
            Instr::SetImm { .. } => "SET"@,
            Instr::AddImm { .. } => "ADD"@,
            Instr::MovReg { .. } => "SET"@,
            Instr::OrReg { .. } => "OR"@,
            Instr::AndReg { .. } => "AND"@,
            Instr::XorReg { .. } => "XOR"@,
            Instr::AddReg { .. } => "ADD"@,
            Instr::SubReg { .. } => "SUB"@,
            Instr::ShrReg { .. } => "BITSHIFT_RIGHT"@,
            Instr::SubFrom { .. } => "SUB"@,
            Instr::ShlReg { .. } => "BITSHIFT_LEFT"@,
            Instr::SkipNeReg { .. } => "SKIP_IF_NOT_EQUAL"@,
            Instr::SetIndex { .. } => "SET_I"@,
            Instr::JumpOffset { .. } => "JUMP_TO_V0_ADD"@,
            Instr::Rand { .. } => "SET_TO_RANDOM_AND"@,
            Instr::Draw { .. } => "DRAW_SPRITE_XYH"@,
            Instr::SkipKey { .. } => "SKIP_IF_KEY_PRESSED"@,
            Instr::SkipNoKey { .. } => "SKIP_IF_KEY_NOT_PRESSED"@,
            Instr::GetDelay { .. } => "SET_TO_DELAY_TIMER"@,
            Instr::WaitKey { .. } => "WAIT_FOR_KEYPRESS_AND_STORE"@,
            Instr::SetDelay { .. } => "SET_DELAY_TIMER"@,
            Instr::SetSound { .. } => "SET_SOUND_TIMER"@,
            Instr::AddIndex { .. } => "ADD_TO_I"@,
            Instr::GlyphIndex { .. } => "SET_I_TO_SPRITE"@,
            Instr::StoreBcd { .. } => "STORE_BCD_AT_I"@,
            Instr::StoreRegs { .. } => "STORE_V0_TO_VX_AT_I"@,
            Instr::LoadRegs { .. } => "LOAD_V0_TO_VX_AT_I"@,
        },
    }
}

/// Build the mnemonic string for one decode result.
pub fn mnemonic(oi: Option<Instr>) -> (r: String)
    ensures
        r@ == mnemonic_of(oi),
{
    match oi {
        None => "UNKNOWN".to_owned(),
        Some(instr) => match instr {
            Instr::ClearScreen => "DISPLAY_CLEAR".to_owned(),
            Instr::Ret => "RETURN".to_owned(),
            Instr::Jump { .. } => "JUMP".to_owned(),
            Instr::Call { .. } => "SUBROUTINE".to_owned(),
            Instr::SkipEqImm { .. } => "SKIP_IF_EQUAL".to_owned(),
            Instr::SkipNeImm { .. } => "SKIP_IF_NOT_EQUAL".to_owned(),
            Instr::SkipEqReg { .. } => "SKIP_IF_EQUAL".to_owned(),
            Instr::SetImm { .. } => "SET".to_owned(),
            Instr::AddImm { .. } => "ADD".to_owned(),
            Instr::MovReg { .. } => "SET".to_owned(),
            Instr::OrReg { .. } => "OR".to_owned(),
            Instr::AndReg { .. } => "AND".to_owned(),
            Instr::XorReg { .. } => "XOR".to_owned(),
            Instr::AddReg { .. } => "ADD".to_owned(),
            Instr::SubReg { .. } => "SUB".to_owned(),
            Instr::ShrReg { .. } => "BITSHIFT_RIGHT".to_owned(),
            Instr::SubFrom { .. } => "SUB".to_owned(),
            Instr::ShlReg { .. } => "BITSHIFT_LEFT".to_owned(),
            Instr::SkipNeReg { .. } => "SKIP_IF_NOT_EQUAL".to_owned(),
            Instr::SetIndex { .. } => "SET_I".to_owned(),
            Instr::JumpOffset { .. } => "JUMP_TO_V0_ADD".to_owned(),
            Instr::Rand { .. } => "SET_TO_RANDOM_AND".to_owned(),
            Instr::Draw { .. } => "DRAW_SPRITE_XYH".to_owned(),
            Instr::SkipKey { .. } => "SKIP_IF_KEY_PRESSED".to_owned(),
            Instr::SkipNoKey { .. } => "SKIP_IF_KEY_NOT_PRESSED".to_owned(),
            Instr::GetDelay { .. } => "SET_TO_DELAY_TIMER".to_owned(),
            Instr::WaitKey { .. } => "WAIT_FOR_KEYPRESS_AND_STORE".to_owned(),
            Instr::SetDelay { .. } => "SET_DELAY_TIMER".to_owned(),
            Instr::SetSound { .. } => "SET_SOUND_TIMER".to_owned(),
            Instr::AddIndex { .. } => "ADD_TO_I".to_owned(),
            Instr::GlyphIndex { .. } => "SET_I_TO_SPRITE".to_owned(),
            Instr::StoreBcd { .. } => "STORE_BCD_AT_I".to_owned(),
            Instr::StoreRegs { .. } => "STORE_V0_TO_VX_AT_I".to_owned(),
            Instr::LoadRegs { .. } => "LOAD_V0_TO_VX_AT_I".to_owned(),
        },
    }
}

} // verus!
