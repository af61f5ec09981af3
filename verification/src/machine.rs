//! The interpreter: the machine-state aggregate, its initialization from a
//! program image, and the single-step fetch-decode-execute operation.

use vstd::prelude::*;

use crate::decode::{Instr, decode, spec_decode};
use crate::draw::draw_sprite;
use crate::model::{
    MachineState, StepError, exec_instr, instr_fault, lemma_wrap_add16, lemma_wrap_add8,
    lemma_wrap_sub8, load_regs_file, load_upto, m_wf, spec_fetch, spec_first_key, first_key_from,
    step_beeps, step_drew, step_fault, step_ok, step_state, store_regs_mem, store_upto, tick,
};
use crate::trace::{mnemonic, mnemonic_of};
use crate::rng::random_byte;

verus! {

/// The built-in glyph table: sixteen 5-byte sprites for the hex digits
/// 0..=F, preloaded at addresses 0x000..0x050.
pub open spec fn glyph_table() -> Seq<u8> {
    seq![
        0xF0u8, 0x90, 0x90, 0x90, 0xF0, // 0
        0x20, 0x60, 0x20, 0x20, 0x70, // 1
        0xF0, 0x10, 0xF0, 0x80, 0xF0, // 2
        0xF0, 0x10, 0xF0, 0x10, 0xF0, // 3
        0x90, 0x90, 0xF0, 0x10, 0x10, // 4
        0xF0, 0x80, 0xF0, 0x10, 0xF0, // 5
        0xF0, 0x80, 0xF0, 0x90, 0xF0, // 6
        0xF0, 0x10, 0x20, 0x40, 0x40, // 7
        0xF0, 0x90, 0xF0, 0x90, 0xF0, // 8
        0xF0, 0x90, 0xF0, 0x10, 0xF0, // 9
        0xF0, 0x90, 0xF0, 0x90, 0x90, // A
        0xE0, 0x90, 0xE0, 0x90, 0xE0, // B
        0xF0, 0x80, 0x80, 0x80, 0xF0, // C
        0xE0, 0x90, 0x90, 0x90, 0xE0, // D
        0xF0, 0x80, 0xF0, 0x80, 0xF0, // E
        0xF0, 0x80, 0xF0, 0x80, 0x80, // F
    ]
}

/// The snapshot of the machine taken at the start of every step, for
/// debugging and inspection tooling.
pub struct DebugInfo {
    /// The opcode fetched this step.
    pub opcode: u16,
    /// The register file as the step began.
    pub v: [u8; 16],
    /// The address register as the step began.
    pub i: u16,
    /// The program counter the opcode was fetched from.
    pub pc: u16,
    /// The delay timer as the step began.
    pub delay_tmr: u8,
    /// The sound timer as the step began.
    pub sound_tmr: u8,
    /// The call stack as the step began.
    pub stack: [u16; 16],
    /// The stack pointer as the step began.
    pub sp: u16,
    /// A short human-readable mnemonic for the fetched opcode.
    pub opcode_trans: String,
    /// The key states as the step began.
    pub keypad: [u8; 16],
}

/// The virtual machine: all state the interpreter owns. Collaborators
/// write `keypad` and read `gfx` and `debug_info`; everything else is
/// mutated only by [`Chip8::cycle`].
pub struct Chip8 {
    opcode: u16,
    memory: [u8; 4096],
    v: [u8; 16],
    i: u16,
    pc: u16,
    /// The 64x32 framebuffer, row-major, one cell per byte, 0 or 1.
    pub gfx: [u8; 2048],
    delay_tmr: u8,
    sound_tmr: u8,
    stack: [u16; 16],
    sp: u16,
    /// The sixteen key states; the input layer writes them, the core only
    /// reads them. Nonzero means pressed.
    pub keypad: [u8; 16],
    /// The trace of the last executed step.
    pub debug_info: DebugInfo,
}

impl View for Chip8 {
    type V = MachineState;

    closed spec fn view(&self) -> MachineState {
        MachineState {
            mem: self.memory@,
            regs: self.v@,
            i: self.i,
            pc: self.pc,
            gfx: self.gfx@,
            delay: self.delay_tmr,
            sound: self.sound_tmr,
            stack: self.stack@,
            sp: self.sp,
            keypad: self.keypad@,
        }
    }
}

/// The trace holds the snapshot of state `s` and the mnemonic of the
/// opcode fetched from it.
pub open spec fn trace_matches(d: DebugInfo, s: MachineState) -> bool {
    &&& d.opcode == spec_fetch(s)
    &&& d.v@ == s.regs
    &&& d.i == s.i
    &&& d.pc == s.pc
    &&& d.delay_tmr == s.delay
    &&& d.sound_tmr == s.sound
    &&& d.stack@ == s.stack
    &&& d.sp == s.sp
    &&& d.keypad@ == s.keypad
    &&& d.opcode_trans@ == mnemonic_of(spec_decode(spec_fetch(s)))
}

impl Chip8 {
    /// The machine's invariant: array sizes, stack pointer in 0..=16, and
    /// every stored return address low enough to be returned to.
    pub open spec fn wf(&self) -> bool {
        m_wf(self@)
    }

    /// The last-step trace, for contracts about it.
    pub closed spec fn spec_trace(&self) -> DebugInfo {
        self.debug_info
    }

    /// Build a machine from a program image: memory holds the glyph table,
    /// then zeroes, then the image at 0x200; everything else is zeroed and
    /// the program counter starts at 0x200.
    pub fn init(rom: [u8; 3584]) -> (c: Chip8)
        ensures
            c.wf(),
            c@.mem == glyph_table() + Seq::new(432, |k: int| 0u8) + rom@,
            c@.regs == Seq::new(16, |k: int| 0u8),
            c@.gfx == Seq::new(2048, |k: int| 0u8),
            c@.stack == Seq::new(16, |k: int| 0u16),
            c@.keypad == Seq::new(16, |k: int| 0u8),
            c@.i == 0,
            c@.pc == 0x200,
            c@.sp == 0,
            c@.delay == 0,
            c@.sound == 0,
    {
        let font: [u8; 80] = [
            0xF0, 0x90, 0x90, 0x90, 0xF0, // 0
            0x20, 0x60, 0x20, 0x20, 0x70, // 1
            0xF0, 0x10, 0xF0, 0x80, 0xF0, // 2
            0xF0, 0x10, 0xF0, 0x10, 0xF0, // 3
            0x90, 0x90, 0xF0, 0x10, 0x10, // 4
            0xF0, 0x80, 0xF0, 0x10, 0xF0, // 5
            0xF0, 0x80, 0xF0, 0x90, 0xF0, // 6
            0xF0, 0x10, 0x20, 0x40, 0x40, // 7
            0xF0, 0x90, 0xF0, 0x90, 0xF0, // 8
            0xF0, 0x90, 0xF0, 0x10, 0xF0, // 9
            0xF0, 0x90, 0xF0, 0x90, 0x90, // A
            0xE0, 0x90, 0xE0, 0x90, 0xE0, // B
            0xF0, 0x80, 0x80, 0x80, 0xF0, // C
            0xE0, 0x90, 0x90, 0x90, 0xE0, // D
            0xF0, 0x80, 0xF0, 0x80, 0xF0, // E
            0xF0, 0x80, 0xF0, 0x80, 0x80, // F
        ];
        proof {
            assert(font@ =~= glyph_table());
        }
        let mut memory: [u8; 4096] = [0u8; 4096];
        let mut b: usize = 0;
        while b < 80
            invariant
                b <= 80,
                forall|j: int| 0 <= j < b ==> memory@[j] == font@[j],
                forall|j: int| b <= j < 4096 ==> memory@[j] == 0u8,
            decreases 80 - b,
        {
            memory[b] = font[b];
            b = b + 1;
        }
        let mut r: usize = 0;
        while r < 3584
            invariant
                r <= 3584,
                forall|j: int| 0 <= j < 80 ==> memory@[j] == font@[j],
                forall|j: int| 80 <= j < 512 ==> memory@[j] == 0u8,
                forall|j: int| 0 <= j < r ==> memory@[512 + j] == rom@[j],
                forall|j: int| 512 + r <= j < 4096 ==> memory@[j] == 0u8,
            decreases 3584 - r,
        {
            memory[512 + r] = rom[r];
            r = r + 1;
        }
        let c = Chip8 {
            opcode: 0,
            memory,
            v: [0u8; 16],
            i: 0,
            pc: 0x200,
            gfx: [0u8; 2048],
            delay_tmr: 0,
            sound_tmr: 0,
            stack: [0u16; 16],
            sp: 0,
            keypad: [0u8; 16],
            debug_info: DebugInfo {
                opcode: 0,
                v: [0u8; 16],
                i: 0,
                pc: 0,
                delay_tmr: 0,
                sound_tmr: 0,
                stack: [0u16; 16],
                sp: 0,
                opcode_trans: String::new(),
                keypad: [0u8; 16],
            },
        };
        proof {
            assert(c@.mem =~= glyph_table() + Seq::new(432, |k: int| 0u8) + rom@);
            assert(c@.regs =~= Seq::new(16, |k: int| 0u8));
            assert(c@.gfx =~= Seq::new(2048, |k: int| 0u8));
            assert(c@.stack =~= Seq::new(16, |k: int| 0u16));
            assert(c@.keypad =~= Seq::new(16, |k: int| 0u8));
        }
        c
    }

    /// One general-purpose register.
    pub fn reg(&self, x: usize) -> (r: u8)
        requires
            x < 16,
        ensures
            r == self@.regs[x as int],
    {
        self.v[x]
    }

    /// One byte of memory.
    pub fn mem_at(&self, addr: usize) -> (r: u8)
        requires
            addr < 4096,
        ensures
            r == self@.mem[addr as int],
    {
        self.memory[addr]
    }

    /// The program counter.
    pub fn program_counter(&self) -> (r: u16)
        ensures
            r == self@.pc,
    {
        self.pc
    }

    /// The address register I.
    pub fn address_register(&self) -> (r: u16)
        ensures
            r == self@.i,
    {
        self.i
    }

    /// The delay timer.
    pub fn delay_timer(&self) -> (r: u8)
        ensures
            r == self@.delay,
    {
        self.delay_tmr
    }

    /// The sound timer.
    pub fn sound_timer(&self) -> (r: u8)
        ensures
            r == self@.sound,
    {
        self.sound_tmr
    }

    /// The stack pointer.
    pub fn stack_pointer(&self) -> (r: u16)
        ensures
            r == self@.sp,
    {
        self.sp
    }

    /// One call-stack slot.
    pub fn stack_at(&self, k: usize) -> (r: u16)
        requires
            k < 16,
        ensures
            r == self@.stack[k as int],
    {
        self.stack[k]
    }
}

/// Build a machine from a program image; see [`Chip8::init`].
pub fn init(rom: [u8; 3584]) -> (c: Chip8)
    ensures
        c.wf(),
        c@.mem == glyph_table() + Seq::new(432, |k: int| 0u8) + rom@,
        c@.regs == Seq::new(16, |k: int| 0u8),
        c@.gfx == Seq::new(2048, |k: int| 0u8),
        c@.stack == Seq::new(16, |k: int| 0u16),
        c@.keypad == Seq::new(16, |k: int| 0u8),
        c@.i == 0,
        c@.pc == 0x200,
        c@.sp == 0,
        c@.delay == 0,
        c@.sound == 0,
{
    Chip8::init(rom)
}

/// FX55: copy registers V0..=Vx into memory at I..=I+x.
fn store_regs_exec(memory: &mut [u8; 4096], v: &[u8; 16], i: u16, x: u8)
    requires
        x < 16,
        i + x <= 4095,
    ensures
        final(memory)@ == store_regs_mem(old(memory)@, v@, i as int, x as int),
{
    let ghost mem0 = memory@;
    let iu = i as usize;
    proof {
        assert(memory@ =~= store_upto(mem0, v@, iu as int, 0));
    }
    let mut k: usize = 0;
    while k <= x as usize
        invariant
            x < 16,
            k <= x as usize + 1,
            iu == i,
            iu + x as usize <= 4095,
            v@.len() == 16,
            mem0.len() == 4096,
            memory@ == store_upto(mem0, v@, iu as int, k as int),
        decreases x as usize + 1 - k,
    {
        memory[iu + k] = v[k];
        k = k + 1;
        proof {
            assert(memory@ =~= store_upto(mem0, v@, iu as int, k as int));
        }
    }
    proof {
        assert(memory@ =~= store_regs_mem(mem0, v@, i as int, x as int));
    }
}

/// FX65: copy memory at I..=I+x into registers V0..=Vx.
fn load_regs_exec(v: &mut [u8; 16], memory: &[u8; 4096], i: u16, x: u8)
    requires
        x < 16,
        i + x <= 4095,
    ensures
        final(v)@ == load_regs_file(old(v)@, memory@, i as int, x as int),
{
    let ghost regs0 = v@;
    let iu = i as usize;
    proof {
        assert(v@ =~= load_upto(regs0, memory@, iu as int, 0));
    }
    let mut k: usize = 0;
    while k <= x as usize
        invariant
            x < 16,
            k <= x as usize + 1,
            iu == i,
            iu + x as usize <= 4095,
            regs0.len() == 16,
            v@ == load_upto(regs0, memory@, iu as int, k as int),
        decreases x as usize + 1 - k,
    {
        v[k] = memory[iu + k];
        k = k + 1;
        proof {
            assert(v@ =~= load_upto(regs0, memory@, iu as int, k as int));
        }
    }
    proof {
        assert(v@ =~= load_regs_file(regs0, memory@, i as int, x as int));
    }
}

impl Chip8 {
    /// Perform exactly one fetch-decode-execute cycle and timer tick.
    ///
    /// `draw` is set when the instruction requested a redraw (the sprite
    /// draw); `beep` is set when this step's timer tick drove the sound
    /// timer to exactly zero. Neither flag is ever cleared here.
    ///
    /// A fatal condition (an unrecognized opcode, or one of the accesses
    /// the reference behavior leaves unchecked) is returned as an error,
    /// with the machine state left exactly as it was.
    #[verifier::rlimit(40)]
    pub fn cycle(&mut self, draw: &mut bool, beep: &mut bool) -> (r: Result<(), StepError>)
        requires
            old(self).wf(),
        ensures
            final(self).wf(),
            match r {
                Ok(()) => {
                    &&& step_ok(old(self)@)
                    &&& (exists|rnd: u8|
                        final(self)@ == step_state(old(self)@, rnd) && *final(beep) == (*old(beep)
                            || step_beeps(old(self)@, rnd)))
                    &&& *final(draw) == (*old(draw) || step_drew(old(self)@))
                    &&& trace_matches(final(self).spec_trace(), old(self)@)
                },
                Err(e) => {
                    &&& step_fault(old(self)@) == Some(e)
                    &&& final(self)@ == old(self)@
                    &&& *final(draw) == *old(draw)
                    &&& *final(beep) == *old(beep)
                    &&& (old(self)@.pc + 1 < 4096 ==> trace_matches(
                        final(self).spec_trace(),
                        old(self)@,
                    ))
                    &&& (old(self)@.pc + 1 >= 4096 ==> final(self).spec_trace() == old(
                        self,
                    ).spec_trace())
                },
            },
    {
        let ghost pre = self@;
        if self.pc >= 4095 {
            return Err(StepError::PcOutOfRange { pc: self.pc });
        }
        let pcu = self.pc as usize;
        let op1 = self.memory[pcu];
        let op2 = self.memory[pcu + 1];
        let opcode = ((op1 as u16) << 8) | (op2 as u16);
        proof {
            assert(((op1 as u16) << 8) | (op2 as u16) == op1 * 256 + op2) by (bit_vector);
            assert(opcode == spec_fetch(pre));
        }
        self.opcode = opcode;
        self.debug_info.opcode = opcode;
        self.debug_info.v = self.v;
        self.debug_info.i = self.i;
        self.debug_info.pc = self.pc;
        self.debug_info.delay_tmr = self.delay_tmr;
        self.debug_info.sound_tmr = self.sound_tmr;
        self.debug_info.stack = self.stack;
        self.debug_info.sp = self.sp;
        self.debug_info.keypad = self.keypad;
        let inst = decode(opcode);
        self.debug_info.opcode_trans = mnemonic(inst);
        let instr = match inst {
            None => {
                return Err(StepError::UnknownOpcode { opcode, pc: self.pc });
            },
            Some(instr) => instr,
        };
        let ghost mut grnd: u8 = 0u8;
        match instr {
            Instr::ClearScreen => {
                self.gfx = [0u8; 2048];
                self.pc = self.pc + 2;
                proof {
                    assert(self@.gfx =~= Seq::new(2048, |p: int| 0u8));
                    assert(self@ =~~= exec_instr(pre, instr, grnd));
                }
            },
            Instr::Ret => {
                if self.sp == 0 {
                    return Err(StepError::StackUnderflow { pc: self.pc });
                }
                self.sp = self.sp - 1;
                let ret = self.stack[self.sp as usize];
                self.pc = ret + 2;
                proof {
                    assert(self@ =~~= exec_instr(pre, instr, grnd));
                }
            },
            Instr::Jump { nnn } => {
                self.pc = nnn;
                proof {
                    assert(self@ =~~= exec_instr(pre, instr, grnd));
                }
            },
            Instr::Call { nnn } => {
                if self.sp >= 16 {
                    return Err(StepError::StackOverflow { pc: self.pc });
                }
                self.stack[self.sp as usize] = self.pc;
                self.sp = self.sp + 1;
                self.pc = nnn;
                proof {
                    assert(self@ =~~= exec_instr(pre, instr, grnd));
                }
            },
            Instr::SkipEqImm { x, nn } => {
                self.pc = self.pc + 2;
                if self.v[x as usize] == nn {
                    self.pc = self.pc + 2;
                }
                proof {
                    assert(self@ =~~= exec_instr(pre, instr, grnd));
                }
            },
            Instr::SkipNeImm { x, nn } => {
                self.pc = self.pc + 2;
                if self.v[x as usize] != nn {
                    self.pc = self.pc + 2;
                }
                proof {
                    assert(self@ =~~= exec_instr(pre, instr, grnd));
                }
            },
            Instr::SkipEqReg { x, y } => {
                self.pc = self.pc + 2;
                if self.v[x as usize] == self.v[y as usize] {
                    self.pc = self.pc + 2;
                }
                proof {
                    assert(self@ =~~= exec_instr(pre, instr, grnd));
                }
            },
            Instr::SetImm { x, nn } => {
                self.v[x as usize] = nn;
                self.pc = self.pc + 2;
                proof {
                    assert(self@ =~~= exec_instr(pre, instr, grnd));
                }
            },
            Instr::AddImm { x, nn } => {
                let cur = self.v[x as usize];
                self.v[x as usize] = cur.wrapping_add(nn);
                self.pc = self.pc + 2;
                proof {
                    lemma_wrap_add8(cur, nn);
                    assert(self@ =~~= exec_instr(pre, instr, grnd));
                }
            },
            Instr::MovReg { x, y } => {
                self.v[x as usize] = self.v[y as usize];
                self.pc = self.pc + 2;
                proof {
                    assert(self@ =~~= exec_instr(pre, instr, grnd));
                }
            },
            Instr::OrReg { x, y } => {
                self.v[x as usize] = self.v[x as usize] | self.v[y as usize];
                self.pc = self.pc + 2;
                proof {
                    assert(self@ =~~= exec_instr(pre, instr, grnd));
                }
            },
            Instr::AndReg { x, y } => {
                self.v[x as usize] = self.v[x as usize] & self.v[y as usize];
                self.pc = self.pc + 2;
                proof {
                    assert(self@ =~~= exec_instr(pre, instr, grnd));
                }
            },
            Instr::XorReg { x, y } => {
                self.v[x as usize] = self.v[x as usize] ^ self.v[y as usize];
                self.pc = self.pc + 2;
                proof {
                    assert(self@ =~~= exec_instr(pre, instr, grnd));
                }
            },
            Instr::AddReg { x, y } => {
                let a = self.v[x as usize];
                let b = self.v[y as usize];
                self.v[x as usize] = a.wrapping_add(b);
                if (a as u16) + (b as u16) > 255 {
                    self.v[15] = 1;
                } else {
                    self.v[15] = 0;
                }
                self.pc = self.pc + 2;
                proof {
                    lemma_wrap_add8(a, b);
                    assert(self@ =~~= exec_instr(pre, instr, grnd));
                }
            },
            Instr::SubReg { x, y } => {
                let a = self.v[x as usize];
                let b = self.v[y as usize];
                self.v[x as usize] = a.wrapping_sub(b);
                if a < b {
                    self.v[15] = 0;
                } else {
                    self.v[15] = 1;
                }
                self.pc = self.pc + 2;
                proof {
                    lemma_wrap_sub8(a, b);
                    assert(self@ =~~= exec_instr(pre, instr, grnd));
                }
            },
            Instr::ShrReg { x } => {
                let vx0 = self.v[x as usize];
                self.v[15] = vx0 & 1;
                let cur = self.v[x as usize];
                self.v[x as usize] = cur >> 1;
                self.pc = self.pc + 2;
                proof {
                    assert(self@ =~~= exec_instr(pre, instr, grnd));
                }
            },
            Instr::SubFrom { x, y } => {
                let a = self.v[x as usize];
                let b = self.v[y as usize];
                self.v[x as usize] = b.wrapping_sub(a);
                if b < a {
                    self.v[15] = 0;
                } else {
                    self.v[15] = 1;
                }
                self.pc = self.pc + 2;
                proof {
                    lemma_wrap_sub8(b, a);
                    assert(self@ =~~= exec_instr(pre, instr, grnd));
                }
            },
            Instr::ShlReg { x } => {
                let vx0 = self.v[x as usize];
                self.v[15] = vx0 >> 7;
                let cur = self.v[x as usize];
                self.v[x as usize] = cur << 1;
                self.pc = self.pc + 2;
                proof {
                    assert(self@ =~~= exec_instr(pre, instr, grnd));
                }
            },
            Instr::SkipNeReg { x, y } => {
                self.pc = self.pc + 2;
                if self.v[x as usize] != self.v[y as usize] {
                    self.pc = self.pc + 2;
                }
                proof {
                    assert(self@ =~~= exec_instr(pre, instr, grnd));
                }
            },
            Instr::SetIndex { nnn } => {
                self.i = nnn;
                self.pc = self.pc + 2;
                proof {
                    assert(self@ =~~= exec_instr(pre, instr, grnd));
                }
            },
            Instr::JumpOffset { nnn } => {
                self.pc = (self.v[0] as u16) + nnn;
                self.pc = self.pc + 2;
                proof {
                    assert(self@ =~~= exec_instr(pre, instr, grnd));
                }
            },
            Instr::Rand { x, nn } => {
                let rb = random_byte();
                self.v[x as usize] = rb & nn;
                self.pc = self.pc + 2;
                proof {
                    grnd = rb;
                    assert(self@ =~~= exec_instr(pre, instr, grnd));
                }
            },
            Instr::Draw { x, y, n } => {
                if n > 0 && (self.i as usize) + (n as usize) > 4096 {
                    return Err(StepError::MemoryOutOfRange { pc: self.pc, i: self.i });
                }
                self.v[15] = 0;
                let vx = self.v[x as usize];
                let vy = self.v[y as usize];
                let col = draw_sprite(&mut self.gfx, &self.memory, self.i, vx, vy, n);
                if col {
                    self.v[15] = 1;
                } else {
                    self.v[15] = 0;
                }
                *draw = true;
                self.pc = self.pc + 2;
                proof {
                    assert(self@ =~~= exec_instr(pre, instr, grnd));
                }
            },
            Instr::SkipKey { x } => {
                let key = self.v[x as usize];
                if key >= 16 {
                    return Err(StepError::KeyOutOfRange { pc: self.pc, key });
                }
                self.pc = self.pc + 2;
                if self.keypad[key as usize] != 0 {
                    self.pc = self.pc + 2;
                }
                proof {
                    assert(self@ =~~= exec_instr(pre, instr, grnd));
                }
            },
            Instr::SkipNoKey { x } => {
                let key = self.v[x as usize];
                if key >= 16 {
                    return Err(StepError::KeyOutOfRange { pc: self.pc, key });
                }
                self.pc = self.pc + 2;
                if self.keypad[key as usize] == 0 {
                    self.pc = self.pc + 2;
                }
                proof {
                    assert(self@ =~~= exec_instr(pre, instr, grnd));
                }
            },
            Instr::GetDelay { x } => {
                self.v[x as usize] = self.delay_tmr;
                self.pc = self.pc + 2;
                proof {
                    assert(self@ =~~= exec_instr(pre, instr, grnd));
                }
            },
            Instr::WaitKey { x } => {
                match scan_key(&self.keypad) {
                    Some(k) => {
                        self.v[x as usize] = k;
                        self.pc = self.pc + 2;
                    },
                    None => {},
                }
                proof {
                    assert(self@ =~~= exec_instr(pre, instr, grnd));
                }
            },
            Instr::SetDelay { x } => {
                self.delay_tmr = self.v[x as usize];
                self.pc = self.pc + 2;
                proof {
                    assert(self@ =~~= exec_instr(pre, instr, grnd));
                }
            },
            Instr::SetSound { x } => {
                self.sound_tmr = self.v[x as usize];
                self.pc = self.pc + 2;
                proof {
                    assert(self@ =~~= exec_instr(pre, instr, grnd));
                }
            },
            Instr::AddIndex { x } => {
                let b = self.v[x as usize];
                self.i = self.i.wrapping_add(b as u16);
                self.pc = self.pc + 2;
                proof {
                    lemma_wrap_add16(pre.i, b);
                    assert(self@ =~~= exec_instr(pre, instr, grnd));
                }
            },
            Instr::GlyphIndex { x } => {
                self.i = (self.v[x as usize] as u16) * 5;
                self.pc = self.pc + 2;
                proof {
                    assert(self@ =~~= exec_instr(pre, instr, grnd));
                }
            },
            Instr::StoreBcd { x } => {
                if self.i >= 4094 {
                    return Err(StepError::MemoryOutOfRange { pc: self.pc, i: self.i });
                }
                let val = self.v[x as usize];
                let iu = self.i as usize;
                self.memory[iu] = val / 100;
                self.memory[iu + 1] = (val % 100) / 10;
                self.memory[iu + 2] = (val % 100) % 10;
                self.pc = self.pc + 2;
                proof {
                    assert(self@ =~~= exec_instr(pre, instr, grnd));
                }
            },
            Instr::StoreRegs { x } => {
                if (self.i as usize) + (x as usize) > 4095 {
                    return Err(StepError::MemoryOutOfRange { pc: self.pc, i: self.i });
                }
                store_regs_exec(&mut self.memory, &self.v, self.i, x);
                self.pc = self.pc + 2;
                proof {
                    assert(self@ =~~= exec_instr(pre, instr, grnd));
                }
            },
            Instr::LoadRegs { x } => {
                if (self.i as usize) + (x as usize) > 4095 {
                    return Err(StepError::MemoryOutOfRange { pc: self.pc, i: self.i });
                }
                load_regs_exec(&mut self.v, &self.memory, self.i, x);
                self.pc = self.pc + 2;
                proof {
                    assert(self@ =~~= exec_instr(pre, instr, grnd));
                }
            },
        }
        proof {
            assert(step_fault(pre) is None);
            assert(self@ == exec_instr(pre, instr, grnd));
        }
        let ghost mid = self@;
        if self.delay_tmr > 0 {
            self.delay_tmr = self.delay_tmr - 1;
        }
        if self.sound_tmr > 0 {
            self.sound_tmr = self.sound_tmr - 1;
            if self.sound_tmr == 0 {
                *beep = true;
            }
        }
        proof {
            assert(self@ =~~= tick(mid));
            assert(self@ == step_state(pre, grnd) && *beep == (*old(beep) || step_beeps(
                pre,
                grnd,
            )));
        }
        Ok(())
    }
}

/// Scan the keys 0..=15 upward and report the first pressed one.
fn scan_key(keypad: &[u8; 16]) -> (r: Option<u8>)
    ensures
        r == spec_first_key(keypad@),
{
    let mut k: u8 = 0;
    while k < 16
        invariant
            k <= 16,
            spec_first_key(keypad@) == first_key_from(keypad@, k as int),
        decreases 16 - k,
    {
        if keypad[k as usize] != 0 {
            return Some(k);
        }
        k = k + 1;
    }
    None
}

} // verus!
