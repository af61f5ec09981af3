//! The mathematical model of the machine: a ghost state record, the
//! fetch/decode/execute/tick semantics as spec functions, and the
//! classification of the fatal conditions a step can run into.

use vstd::prelude::*;

use crate::decode::{Instr, spec_decode};
use crate::draw::{any_lit, sprite_hits, toggle_all};

verus! {

/// The machine state the interpreter owns, as mathematical values.
/// The last-instruction trace is observability, not machine state, and is
/// deliberately not part of this record.
#[verifier::ext_equal]
pub ghost struct MachineState {
    /// 4096 bytes of memory; the glyph table sits at 0x000..0x050 and the
    /// program image at 0x200 onward.
    pub mem: Seq<u8>,
    /// The sixteen 8-bit registers V0..VF.
    pub regs: Seq<u8>,
    /// The 16-bit address register I.
    pub i: u16,
    /// The program counter.
    pub pc: u16,
    /// The 2048 framebuffer cells, row-major, each 0 or 1.
    pub gfx: Seq<u8>,
    /// The delay timer.
    pub delay: u8,
    /// The sound timer.
    pub sound: u8,
    /// The sixteen return-address slots of the call stack.
    pub stack: Seq<u16>,
    /// The stack pointer, 0..=16.
    pub sp: u16,
    /// The sixteen key states; nonzero means pressed.
    pub keypad: Seq<u8>,
}

/// Well-formedness: fixed array sizes, the stack pointer in range, and
/// every stored return address small enough that returning to it (plus 2)
/// stays a 16-bit value inside memory.
pub open spec fn m_wf(s: MachineState) -> bool {
    &&& s.mem.len() == 4096
    &&& s.regs.len() == 16
    &&& s.gfx.len() == 2048
    &&& s.stack.len() == 16
    &&& s.keypad.len() == 16
    &&& s.sp <= 16
    &&& forall|k: int| 0 <= k < 16 ==> #[trigger] s.stack[k] <= 4094
}

/// The two bytes at the program counter, combined big-endian.
pub open spec fn spec_fetch(s: MachineState) -> u16 {
    (s.mem[s.pc as int] * 256 + s.mem[s.pc as int + 1]) as u16
}

/// 8-bit wraparound addition.
pub open spec fn wrap_add8(a: u8, b: u8) -> u8 {
    ((a + b) % 256) as u8
}

/// 8-bit wraparound subtraction.
pub open spec fn wrap_sub8(a: u8, b: u8) -> u8 {
    ((a - b) % 256) as u8
}

/// 16-bit wraparound addition of a byte into the address register.
pub open spec fn wrap_add16(a: u16, b: u8) -> u16 {
    ((a + b) % 0x10000) as u16
}

/// 8-bit wraparound addition agrees with the branching form that the
/// executable `wrapping_add` is specified by.
pub proof fn lemma_wrap_add8(a: u8, b: u8)
    ensures
        wrap_add8(a, b) == if a + b > 255 {
            (a + b - 256) as u8
        } else {
            (a + b) as u8
        },
{
    assert((a + b) % 256 == if a + b > 255 {
        a + b - 256
    } else {
        a + b
    }) by (bit_vector);
}

/// 8-bit wraparound subtraction agrees with the branching form that the
/// executable `wrapping_sub` is specified by.
pub proof fn lemma_wrap_sub8(a: u8, b: u8)
    ensures
        wrap_sub8(a, b) == if a - b < 0 {
            (a - b + 256) as u8
        } else {
            (a - b) as u8
        },
{
    assert((a - b) % 256 == if a - b < 0 {
        a - b + 256
    } else {
        a - b
    }) by (bit_vector);
}

/// 16-bit wraparound addition agrees with the branching form that the
/// executable `wrapping_add` is specified by.
pub proof fn lemma_wrap_add16(a: u16, b: u8)
    ensures
        wrap_add16(a, b) == if a + (b as u16) > 65535 {
            (a + b - 65536) as u16
        } else {
            (a + b) as u16
        },
{
    assert((a + (b as u16)) % 65536 == if a + (b as u16) > 65535 {
        a + (b as u16) - 65536
    } else {
        a + (b as u16)
    }) by (bit_vector);
}

/// The first pressed key at index `k` or above, scanning upward.
pub open spec fn first_key_from(kp: Seq<u8>, k: int) -> Option<u8>
    decreases 16 - k,
{
    if k < 0 || k >= 16 {
        None
    } else if kp[k] != 0 {
        Some(k as u8)
    } else {
        first_key_from(kp, k + 1)
    }
}

/// The first pressed key, if any: the key FX0A stores.
pub open spec fn spec_first_key(kp: Seq<u8>) -> Option<u8> {
    first_key_from(kp, 0)
}

/// Memory with the first `cnt` registers copied to the bytes at `i`
/// onward, everything else untouched.
pub open spec fn store_upto(mem: Seq<u8>, regs: Seq<u8>, i: int, cnt: int) -> Seq<u8> {
    Seq::new(mem.len(), |j: int| if i <= j < i + cnt { regs[j - i] } else { mem[j] })
}

/// Memory after FX55: registers V0..=Vx overwrite the bytes at I..=I+x,
/// everything else untouched.
pub open spec fn store_regs_mem(mem: Seq<u8>, regs: Seq<u8>, i: int, x: int) -> Seq<u8> {
    store_upto(mem, regs, i, x + 1)
}

/// The register file with its first `cnt` registers loaded from the bytes
/// at `i` onward, the rest untouched.
pub open spec fn load_upto(regs: Seq<u8>, mem: Seq<u8>, i: int, cnt: int) -> Seq<u8> {
    Seq::new(regs.len(), |r: int| if r < cnt { mem[i + r] } else { regs[r] })
}

/// The register file after FX65: V0..=Vx are loaded from the bytes at
/// I..=I+x, the higher registers untouched.
pub open spec fn load_regs_file(regs: Seq<u8>, mem: Seq<u8>, i: int, x: int) -> Seq<u8> {
    load_upto(regs, mem, i, x + 1)
}

/// A fatal condition: the step stops the machine and reports it; the
/// machine state is left exactly as it was.
///
/// The reference behavior leaves the call stack, the fetch window and the
/// indirect memory and keypad accesses unchecked; this interpreter checks
/// them and surfaces a dedicated error instead of faulting.
#[derive(Clone, Copy, Debug, PartialEq, Eq, Structural)]
pub enum StepError {
    /// The opcode matches no recognized pattern.
    UnknownOpcode { opcode: u16, pc: u16 },
    /// The program counter does not leave room for a two-byte fetch.
    PcOutOfRange { pc: u16 },
    /// 00EE with an empty call stack.
    StackUnderflow { pc: u16 },
    /// 2NNN with all sixteen stack slots in use.
    StackOverflow { pc: u16 },
    /// A sprite row, BCD digit or register block would be read or written
    /// beyond address 0xFFF.
    MemoryOutOfRange { pc: u16, i: u16 },
    /// EX9E/EXA1 with a register value that is not a key index.
    KeyOutOfRange { pc: u16, key: u8 },
}

/// The fatal condition a decoded instruction runs into in state `s`,
/// if any.
pub open spec fn instr_fault(s: MachineState, instr: Instr) -> Option<StepError> {
    match instr {
        Instr::Ret => if s.sp == 0 {
            Some(StepError::StackUnderflow { pc: s.pc })
        } else {
            None
        },
        Instr::Call { nnn } => if s.sp >= 16 {
            Some(StepError::StackOverflow { pc: s.pc })
        } else {
            None
        },
        Instr::Draw { x, y, n } => if n > 0 && s.i + n > 4096 {
            Some(StepError::MemoryOutOfRange { pc: s.pc, i: s.i })
        } else {
            None
        },
        Instr::SkipKey { x } => if s.regs[x as int] >= 16 {
            Some(StepError::KeyOutOfRange { pc: s.pc, key: s.regs[x as int] })
        } else {
            None
        },
        Instr::SkipNoKey { x } => if s.regs[x as int] >= 16 {
            Some(StepError::KeyOutOfRange { pc: s.pc, key: s.regs[x as int] })
        } else {
            None
        },
        Instr::StoreBcd { x } => if s.i + 2 > 4095 {
            Some(StepError::MemoryOutOfRange { pc: s.pc, i: s.i })
        } else {
            None
        },
        Instr::StoreRegs { x } => if s.i + x > 4095 {
            Some(StepError::MemoryOutOfRange { pc: s.pc, i: s.i })
        } else {
            None
        },
        Instr::LoadRegs { x } => if s.i + x > 4095 {
            Some(StepError::MemoryOutOfRange { pc: s.pc, i: s.i })
        } else {
            None
        },
        _ => None,
    }
}

/// Execute one decoded, fault-free instruction. `rnd` is the byte the
/// random source handed CXNN; every other instruction ignores it.
pub open spec fn exec_instr(s: MachineState, instr: Instr, rnd: u8) -> MachineState {
    let pc2 = (s.pc + 2) as u16;
    let pc4 = (s.pc + 4) as u16;
    match instr {
        Instr::ClearScreen => MachineState {
            gfx: Seq::new(2048, |p: int| 0u8),
            pc: pc2,
            ..s
        },
        Instr::Ret => MachineState {
            sp: (s.sp - 1) as u16,
            pc: (s.stack[s.sp - 1] + 2) as u16,
            ..s
        },
        Instr::Jump { nnn } => MachineState { pc: nnn, ..s },
        Instr::Call { nnn } => MachineState {
            stack: s.stack.update(s.sp as int, s.pc),
            sp: (s.sp + 1) as u16,
            pc: nnn,
            ..s
        },
        Instr::SkipEqImm { x, nn } => MachineState {
            pc: if s.regs[x as int] == nn { pc4 } else { pc2 },
            ..s
        },
        Instr::SkipNeImm { x, nn } => MachineState {
            pc: if s.regs[x as int] != nn { pc4 } else { pc2 },
            ..s
        },
        Instr::SkipEqReg { x, y } => MachineState {
            pc: if s.regs[x as int] == s.regs[y as int] { pc4 } else { pc2 },
            ..s
        },
        Instr::SetImm { x, nn } => MachineState { regs: s.regs.update(x as int, nn), pc: pc2, ..s },
        Instr::AddImm { x, nn } => MachineState {
            regs: s.regs.update(x as int, wrap_add8(s.regs[x as int], nn)),
            pc: pc2,
            ..s
        },
        Instr::MovReg { x, y } => MachineState {
            regs: s.regs.update(x as int, s.regs[y as int]),
            pc: pc2,
            ..s
        },
        Instr::OrReg { x, y } => MachineState {
            regs: s.regs.update(x as int, s.regs[x as int] | s.regs[y as int]),
            pc: pc2,
            ..s
        },
        Instr::AndReg { x, y } => MachineState {
            regs: s.regs.update(x as int, s.regs[x as int] & s.regs[y as int]),
            pc: pc2,
            ..s
        },
        Instr::XorReg { x, y } => MachineState {
            regs: s.regs.update(x as int, s.regs[x as int] ^ s.regs[y as int]),
            pc: pc2,
            ..s
        },
        Instr::AddReg { x, y } => {
            let a = s.regs[x as int];
            let b = s.regs[y as int];
            let flag: u8 = if a + b >= 256 { 1 } else { 0 };
            MachineState {
                regs: s.regs.update(x as int, wrap_add8(a, b)).update(15, flag),
                pc: pc2,
                ..s
            }
        },
        Instr::SubReg { x, y } => {
            let a = s.regs[x as int];
            let b = s.regs[y as int];
            let flag: u8 = if a < b { 0 } else { 1 };
            MachineState {
                regs: s.regs.update(x as int, wrap_sub8(a, b)).update(15, flag),
                pc: pc2,
                ..s
            }
        },
        Instr::ShrReg { x } => {
            let r1 = s.regs.update(15, s.regs[x as int] & 1);
            MachineState { regs: r1.update(x as int, r1[x as int] >> 1), pc: pc2, ..s }
        },
        Instr::SubFrom { x, y } => {
            let a = s.regs[x as int];
            let b = s.regs[y as int];
            let flag: u8 = if b < a { 0 } else { 1 };
            MachineState {
                regs: s.regs.update(x as int, wrap_sub8(b, a)).update(15, flag),
                pc: pc2,
                ..s
            }
        },
        Instr::ShlReg { x } => {
            let r1 = s.regs.update(15, s.regs[x as int] >> 7);
            MachineState { regs: r1.update(x as int, r1[x as int] << 1), pc: pc2, ..s }
        },
        Instr::SkipNeReg { x, y } => MachineState {
            pc: if s.regs[x as int] != s.regs[y as int] { pc4 } else { pc2 },
            ..s
        },
        Instr::SetIndex { nnn } => MachineState { i: nnn, pc: pc2, ..s },
        Instr::JumpOffset { nnn } => MachineState { pc: (s.regs[0] + nnn + 2) as u16, ..s },
        Instr::Rand { x, nn } => MachineState {
            regs: s.regs.update(x as int, rnd & nn),
            pc: pc2,
            ..s
        },
        Instr::Draw { x, y, n } => {
            let regs0 = s.regs.update(15, 0u8);
            let vx = regs0[x as int];
            let vy = regs0[y as int];
            let ps = sprite_hits(s.mem, s.i as int, vx as int, vy as int, n as int);
            let flag: u8 = if any_lit(s.gfx, ps) { 1 } else { 0 };
            MachineState {
                gfx: toggle_all(s.gfx, ps),
                regs: regs0.update(15, flag),
                pc: pc2,
                ..s
            }
        },
        Instr::SkipKey { x } => MachineState {
            pc: if s.keypad[s.regs[x as int] as int] != 0 { pc4 } else { pc2 },
            ..s
        },
        Instr::SkipNoKey { x } => MachineState {
            pc: if s.keypad[s.regs[x as int] as int] == 0 { pc4 } else { pc2 },
            ..s
        },
        Instr::GetDelay { x } => MachineState {
            regs: s.regs.update(x as int, s.delay),
            pc: pc2,
            ..s
        },
        Instr::WaitKey { x } => match spec_first_key(s.keypad) {
            Some(k) => MachineState { regs: s.regs.update(x as int, k), pc: pc2, ..s },
            None => s,
        },
        Instr::SetDelay { x } => MachineState { delay: s.regs[x as int], pc: pc2, ..s },
        Instr::SetSound { x } => MachineState { sound: s.regs[x as int], pc: pc2, ..s },
        Instr::AddIndex { x } => MachineState {
            i: wrap_add16(s.i, s.regs[x as int]),
            pc: pc2,
            ..s
        },
        Instr::GlyphIndex { x } => MachineState {
            i: (s.regs[x as int] * 5) as u16,
            pc: pc2,
            ..s
        },
        Instr::StoreBcd { x } => {
            let v = s.regs[x as int];
            MachineState {
                mem: s.mem.update(s.i as int, (v / 100) as u8).update(
                    s.i as int + 1,
                    ((v % 100) / 10) as u8,
                ).update(s.i as int + 2, ((v % 100) % 10) as u8),
                pc: pc2,
                ..s
            }
        },
        Instr::StoreRegs { x } => MachineState {
            mem: store_regs_mem(s.mem, s.regs, s.i as int, x as int),
            pc: pc2,
            ..s
        },
        Instr::LoadRegs { x } => MachineState {
            regs: load_regs_file(s.regs, s.mem, s.i as int, x as int),
            pc: pc2,
            ..s
        },
    }
}

/// The timer tick that follows every executed instruction: each timer is
/// decremented once while nonzero.
pub open spec fn tick(s: MachineState) -> MachineState {
    MachineState {
        delay: if s.delay > 0 { (s.delay - 1) as u8 } else { s.delay },
        sound: if s.sound > 0 { (s.sound - 1) as u8 } else { s.sound },
        ..s
    }
}

/// Whether this step's tick drives the sound timer to exactly zero: the
/// edge-triggered tone request.
pub open spec fn tick_beeps(s: MachineState) -> bool {
    s.sound == 1
}

/// The fatal condition one whole step runs into in state `s`, if any:
/// fetch window first, then decoding, then the instruction's own checks.
pub open spec fn step_fault(s: MachineState) -> Option<StepError> {
    if s.pc + 1 >= 4096 {
        Some(StepError::PcOutOfRange { pc: s.pc })
    } else {
        match spec_decode(spec_fetch(s)) {
            None => Some(StepError::UnknownOpcode { opcode: spec_fetch(s), pc: s.pc }),
            Some(instr) => instr_fault(s, instr),
        }
    }
}

/// A step in state `s` completes without a fatal condition.
pub open spec fn step_ok(s: MachineState) -> bool {
    step_fault(s) is None
}

/// The machine state after one fault-free step: execute the fetched
/// instruction, then tick the timers.
pub open spec fn step_state(s: MachineState, rnd: u8) -> MachineState {
    tick(exec_instr(s, spec_decode(spec_fetch(s)).unwrap(), rnd))
}

/// Whether the step requests a redraw: exactly the draw instruction does.
pub open spec fn step_drew(s: MachineState) -> bool {
    spec_decode(spec_fetch(s)) matches Some(Instr::Draw { x, y, n })
}

/// Whether the step requests the tone: the sound timer reaches zero on
/// this step's tick.
pub open spec fn step_beeps(s: MachineState, rnd: u8) -> bool {
    tick_beeps(exec_instr(s, spec_decode(spec_fetch(s)).unwrap(), rnd))
}

} // verus!
