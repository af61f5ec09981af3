//! General laws of the instruction semantics, stated and proved against
//! the model in [`crate::model`].

use vstd::prelude::*;

use crate::decode::Instr;
use crate::draw::{lemma_draw_round_trip, sprite_hits, toggle_all};
use crate::model::{MachineState, exec_instr, m_wf};

verus! {

/// 8XY4 adds Vy into Vx modulo 256 and sets VF to 1 exactly when the
/// unwrapped sum reaches 256, for every pair of register values.
/// VF itself cannot be the destination: the flag write follows the sum
/// and overwrites it.
pub proof fn lemma_add_with_carry(s: MachineState, x: u8, y: u8, rnd: u8)
    requires
        m_wf(s),
        x < 16,
        y < 16,
        x != 15,
    ensures
        exec_instr(s, Instr::AddReg { x, y }, rnd).regs[x as int] == (s.regs[x as int]
            + s.regs[y as int]) % 256,
        exec_instr(s, Instr::AddReg { x, y }, rnd).regs[15] == (if s.regs[x as int]
            + s.regs[y as int] >= 256 {
            1u8
        } else {
            0u8
        }),
{
}

/// 8XY5 subtracts Vy from Vx modulo 256 and sets VF to 0 exactly when the
/// subtraction borrows (Vx < Vy), else to 1, for every pair of register
/// values. VF itself cannot be the destination: the flag write follows
/// the difference and overwrites it.
pub proof fn lemma_sub_with_borrow(s: MachineState, x: u8, y: u8, rnd: u8)
    requires
        m_wf(s),
        x < 16,
        y < 16,
        x != 15,
    ensures
        exec_instr(s, Instr::SubReg { x, y }, rnd).regs[x as int] == (s.regs[x as int]
            - s.regs[y as int]) % 256,
        exec_instr(s, Instr::SubReg { x, y }, rnd).regs[15] == (if s.regs[x as int]
            < s.regs[y as int] {
            0u8
        } else {
            1u8
        }),
{
}

/// 00E0 leaves every framebuffer cell zero, whatever was drawn before.
pub proof fn lemma_clear_screen_blanks(s: MachineState, rnd: u8)
    ensures
        exec_instr(s, Instr::ClearScreen, rnd).gfx.len() == 2048,
        forall|p: int|
            0 <= p < 2048 ==> #[trigger] exec_instr(s, Instr::ClearScreen, rnd).gfx[p] == 0u8,
{
}

/// Drawing the same sprite at the same position twice restores the
/// framebuffer to its pre-draw state: the XOR draw is its own inverse.
/// The coordinate registers must not be VF, which the draw itself
/// overwrites between the two executions.
pub proof fn lemma_draw_twice(s: MachineState, x: u8, y: u8, n: u8, rnd1: u8, rnd2: u8)
    requires
        m_wf(s),
        x < 16,
        y < 16,
        n < 16,
        x != 15,
        y != 15,
    ensures
        exec_instr(exec_instr(s, Instr::Draw { x, y, n }, rnd1), Instr::Draw { x, y, n }, rnd2).gfx
            == s.gfx,
{
    let instr = Instr::Draw { x, y, n };
    let s1 = exec_instr(s, instr, rnd1);
    let regs0 = s.regs.update(15, 0u8);
    let vx = regs0[x as int];
    let vy = regs0[y as int];
    let ps = sprite_hits(s.mem, s.i as int, vx as int, vy as int, n as int);
    assert(s1.gfx == toggle_all(s.gfx, ps));
    assert(s1.regs.update(15, 0u8)[x as int] == vx);
    assert(s1.regs.update(15, 0u8)[y as int] == vy);
    assert(exec_instr(s1, instr, rnd2).gfx == toggle_all(toggle_all(s.gfx, ps), ps));
    lemma_draw_round_trip(s.gfx, s.mem, s.i as int, vx, vy, n);
}

/// FX55 then FX65 with the same X and I is an identity on the register
/// file: what the store wrote is exactly what the load reads back, and
/// the registers above X are untouched by both.
pub proof fn lemma_store_then_load(s: MachineState, x: u8, rnd1: u8, rnd2: u8)
    requires
        m_wf(s),
        x < 16,
        s.i + x <= 4095,
    ensures
        exec_instr(exec_instr(s, Instr::StoreRegs { x }, rnd1), Instr::LoadRegs { x }, rnd2).regs
            == s.regs,
{
    let s1 = exec_instr(s, Instr::StoreRegs { x }, rnd1);
    let s2 = exec_instr(s1, Instr::LoadRegs { x }, rnd2);
    assert(s2.regs =~= s.regs);
}

} // verus!
