//! The CPU: register file, flags, PC, SP and memory bus in one owner, with
//! the verified executor. `execute` performs one decoded instruction and
//! returns the next program counter; `step` fetches, decodes and executes,
//! surfacing unknown opcodes as a typed decode error.

use vstd::prelude::*;
use crate::alu;
use crate::decode::{
    AddHLTarget, Instruction, JumpTest, LoadType, Reg16, Reg8, StackTarget, Target,
    spec_resolves, spec_wf_instruction,
};
use crate::memory::{MemoryBus, MEMORY_SIZE};
use crate::reg::{FlagsRegister, Registers, spec_byte_to_flags, spec_flags_to_byte, spec_pair};
use crate::semantics::{
    CpuView, Loc, spec_execute, spec_imm8, spec_imm16, spec_jump_taken, spec_ld_source,
    spec_ld_target, spec_loc_read, spec_loc_wf, spec_loc_write, spec_pop16, spec_push16,
    spec_resolve, spec_signed8, wrap16, wrap_add16, wrap_sub16, lemma_wrap16_add,
};

verus! {

/// A snapshot of the whole machine state, as the conformance harness
/// exchanges it: registers, the packed flags byte, the two counters, three
/// bytes reserved for future interrupt support (not interpreted by the core),
/// and a sparse list of memory overrides applied in order.
pub struct CpuState {
    pub pc: u16,
    pub sp: u16,
    pub a: u8,
    pub b: u8,
    pub c: u8,
    pub d: u8,
    pub e: u8,
    pub f: u8,
    pub h: u8,
    pub l: u8,
    pub ime: u8,
    pub ie: u8,
    pub ei: u8,
    pub ram: Vec<(u16, u8)>,
}

/// One conformance case: a name, the state to load, and the state to expect.
pub struct CpuTest {
    pub name: String,
    pub initial_state: CpuState,
    pub final_state: CpuState,
}

/// A fetch met an opcode (under the given prefix flag) outside the
/// implemented opcode subset at this address.
#[derive(Clone, Copy, Debug, PartialEq, Eq, Structural)]
pub struct DecodeError {
    pub pc: u16,
    pub opcode: u8,
    pub prefixed: bool,
}

pub struct CPU {
    pub registers: Registers,
    pub sp: u16,
    pub pc: u16,
    pub bus: MemoryBus,
}

impl View for CPU {
    type V = CpuView;

    open spec fn view(&self) -> CpuView {
        CpuView { regs: self.registers, pc: self.pc, sp: self.sp, mem: self.bus.memory@ }
    }
}

/// The effect contract every executor path meets: the returned value is the
/// next program counter `spec_execute` dictates, and the rest of the state is
/// transformed exactly as it dictates, with PC itself left for the caller.
pub open spec fn spec_exec_effect(pre: CpuView, i: Instruction, post: CpuView, r: u16) -> bool {
    let t = spec_execute(pre, i);
    r == t.pc && post == t.with_pc(pre.pc)
}

/// Memory after applying a sparse override list in order; a later entry for
/// the same address wins.
pub open spec fn spec_apply_ram(mem: Seq<u8>, ram: Seq<(u16, u8)>) -> Seq<u8>
    decreases ram.len(),
{
    if ram.len() == 0 {
        mem
    } else {
        spec_apply_ram(mem, ram.drop_last()).update(ram.last().0 as int, ram.last().1)
    }
}

/// Whether a machine state agrees with a snapshot: every register, the
/// packed flags byte, PC, SP, and every listed memory byte, exactly.
pub open spec fn spec_state_matches(s: CpuView, st: &CpuState) -> bool {
    &&& s.regs.a == st.a
    &&& s.regs.b == st.b
    &&& s.regs.c == st.c
    &&& s.regs.d == st.d
    &&& s.regs.e == st.e
    &&& spec_flags_to_byte(s.regs.f) == st.f
    &&& s.regs.h == st.h
    &&& s.regs.l == st.l
    &&& s.pc == st.pc
    &&& s.sp == st.sp
    &&& forall|i: int|
        0 <= i < st.ram@.len() ==> s.mem[#[trigger] st.ram@[i].0 as int] == st.ram@[i].1
}

impl CPU {
    pub open spec fn inv(&self) -> bool {
        self.bus.inv()
    }

    /// A fresh CPU: every register, flag, counter and memory byte zero.
    pub fn new() -> (r: CPU)
        ensures
            r.inv(),
            r.registers == (Registers {
                a: 0u8,
                b: 0u8,
                c: 0u8,
                d: 0u8,
                e: 0u8,
                f: FlagsRegister { zero: false, subtract: false, half_carry: false, carry: false },
                h: 0u8,
                l: 0u8,
            }),
            r.pc == 0,
            r.sp == 0,
            r@.mem == Seq::new(MEMORY_SIZE as nat, |i: int| 0u8),
    {
        CPU {
            registers: Registers {
                a: 0,
                b: 0,
                c: 0,
                d: 0,
                e: 0,
                f: FlagsRegister { zero: false, subtract: false, half_carry: false, carry: false },
                h: 0,
                l: 0,
            },
            sp: 0,
            pc: 0,
            bus: MemoryBus::new(),
        }
    }

    /// Copy a 32 KiB image to the bottom of memory and start at the SM83
    /// entry point 0x100.
    pub fn load_rom(&mut self, rom: &Vec<u8>)
        requires
            old(self).inv(),
            rom@.len() == 0x8000,
        ensures
            final(self).inv(),
            final(self).registers == old(self).registers,
            final(self).sp == old(self).sp,
            final(self).pc == 0x100,
            final(self)@.mem.len() == MEMORY_SIZE,
            forall|i: int|
                0 <= i < MEMORY_SIZE ==> final(self)@.mem[i] == if i < 0x8000 {
                    rom@[i]
                } else {
                    old(self)@.mem[i]
                },
    {
        let mut i: usize = 0;
        while i < 0x8000
            invariant
                self.inv(),
                i <= 0x8000,
                rom@.len() == 0x8000,
                self.registers == old(self).registers,
                self.sp == old(self).sp,
                self.pc == old(self).pc,
                self.bus.memory@.len() == MEMORY_SIZE,
                forall|j: int|
                    0 <= j < MEMORY_SIZE ==> self.bus.memory@[j] == if j < i {
                        rom@[j]
                    } else {
                        old(self)@.mem[j]
                    },
            decreases 0x8000 - i,
        {
            self.bus.write_byte(i as u16, rom[i]);
            i = i + 1;
        }
        self.pc = 0x100;
    }

    /// Load a snapshot: registers, flags, PC and SP directly, then every
    /// memory override in list order.
    pub fn set_state(&mut self, state: &CpuState)
        requires
            old(self).inv(),
        ensures
            final(self).inv(),
            final(self).registers == (Registers {
                a: state.a,
                b: state.b,
                c: state.c,
                d: state.d,
                e: state.e,
                f: spec_byte_to_flags(state.f),
                h: state.h,
                l: state.l,
            }),
            final(self).sp == state.sp,
            final(self).pc == state.pc,
            final(self)@.mem == spec_apply_ram(old(self)@.mem, state.ram@),
    {
        self.registers.a = state.a;
        self.registers.b = state.b;
        self.registers.c = state.c;
        self.registers.d = state.d;
        self.registers.e = state.e;
        self.registers.f = FlagsRegister::from_byte(state.f);
        self.registers.h = state.h;
        self.registers.l = state.l;
        self.sp = state.sp;
        self.pc = state.pc;
        let ghost mem0 = self@.mem;
        let mut i: usize = 0;
        while i < state.ram.len()
            invariant
                self.inv(),
                i <= state.ram@.len(),
                self.registers == (Registers {
                    a: state.a,
                    b: state.b,
                    c: state.c,
                    d: state.d,
                    e: state.e,
                    f: spec_byte_to_flags(state.f),
                    h: state.h,
                    l: state.l,
                }),
                self.sp == state.sp,
                self.pc == state.pc,
                self.bus.memory@ == spec_apply_ram(mem0, state.ram@.take(i as int)),
            decreases state.ram@.len() - i,
        {
            let entry = state.ram[i];
            self.bus.write_byte(entry.0, entry.1);
            proof {
                let taken = state.ram@.take(i + 1int);
                assert(taken.drop_last() =~= state.ram@.take(i as int));
                assert(taken.last() == state.ram@[i as int]);
            }
            i = i + 1;
        }
        proof {
            assert(state.ram@.take(state.ram@.len() as int) =~= state.ram@);
        }
    }

    /// Compare the machine against a snapshot: true exactly when every
    /// register, the flags byte, PC, SP and every listed memory byte agree.
    pub fn compare_state(&self, state: &CpuState) -> (r: bool)
        requires
            self.inv(),
        ensures
            r == spec_state_matches(self@, state),
    {
        let regs_ok = self.registers.a == state.a && self.registers.b == state.b
            && self.registers.c == state.c && self.registers.d == state.d
            && self.registers.e == state.e && self.registers.f.to_byte() == state.f
            && self.registers.h == state.h && self.registers.l == state.l;
        let counters_ok = self.pc == state.pc && self.sp == state.sp;
        let mut ram_ok = true;
        let mut i: usize = 0;
        while i < state.ram.len()
            invariant
                self.inv(),
                i <= state.ram@.len(),
                ram_ok == forall|j: int|
                    0 <= j < i ==> self@.mem[#[trigger] state.ram@[j].0 as int] == state.ram@[j].1,
            decreases state.ram@.len() - i,
        {
            let entry = state.ram[i];
            if self.bus.read_byte(entry.0) != entry.1 {
                ram_ok = false;
            }
            i = i + 1;
        }
        regs_ok && counters_ok && ram_ok
    }

    /// Fetch, decode and execute the instruction at PC, adopting the next
    /// program counter; an unknown opcode leaves the state untouched and
    /// reports the offending address and byte.
    pub fn step(&mut self) -> (r: Result<(), DecodeError>)
        requires
            old(self).inv(),
        ensures
            final(self).inv(),
            ({
                let s = old(self)@;
                let b0 = s.read_mem(s.pc);
                let prefixed = b0 == 0xCB;
                let opcode = if prefixed {
                    s.read_mem(wrap16(s.pc + 1))
                } else {
                    b0
                };
                match crate::decode::spec_decode(opcode, prefixed) {
                    Some(i) => r is Ok && final(self)@ == spec_execute(s, i),
                    None => {
                        &&& r == Err::<(), DecodeError>(
                            DecodeError { pc: s.pc, opcode, prefixed },
                        )
                        &&& final(self)@ == s
                    },
                }
            }),
    {
        let b0 = self.bus.read_byte(self.pc);
        let prefixed = b0 == 0xCB;
        let opcode = if prefixed {
            self.bus.read_byte(wrap_add16(self.pc, 1))
        } else {
            b0
        };
        match Instruction::from_byte(opcode, prefixed) {
            Some(instruction) => {
                let next = self.execute(instruction);
                self.pc = next;
                Ok(())
            },
            None => Err(DecodeError { pc: self.pc, opcode, prefixed }),
        }
    }

    /// Execute one well-formed instruction: registers, flags, SP and memory
    /// are transformed exactly as `spec_execute` dictates, and the next
    /// program counter is returned without being adopted.
    #[verifier::rlimit(100)]
    pub fn execute(&mut self, instruction: Instruction) -> (r: u16)
        requires
            old(self).inv(),
            spec_wf_instruction(instruction),
        ensures
            final(self).inv(),
            spec_exec_effect(old(self)@, instruction, final(self)@, r),
    {
        match instruction {
            Instruction::JP(test) => self.jp_op(test),
            Instruction::JR(test) => self.jr_op(test),
            Instruction::JPHL => self.jphl_op(),
            Instruction::DI => self.advance_op(instruction),
            Instruction::LD(load_type) => self.ld(load_type),
            Instruction::CALL(test) => self.call_op(test),
            Instruction::RET(test) => self.ret_op(test),
            Instruction::PUSH(target) => self.push_op(target),
            Instruction::POP(target) => self.pop_op(target),
            Instruction::Nop => self.advance_op(instruction),
            Instruction::Cpl => self.cpl(),
            Instruction::Ccf => self.ccf(),
            Instruction::Scf => self.scf(),
            Instruction::Rlca => self.rlca(),
            Instruction::Rla => self.rla(),
            Instruction::Rrca => self.rrca(),
            Instruction::Rra => self.rra(),
            Instruction::HALT => self.advance_op(instruction),
            Instruction::Bit0(_) | Instruction::Bit1(_) | Instruction::Bit2(_)
            | Instruction::Bit3(_) | Instruction::Bit4(_) | Instruction::Bit5(_)
            | Instruction::Bit6(_) | Instruction::Bit7(_) | Instruction::Res0(_)
            | Instruction::Res1(_) | Instruction::Res2(_) | Instruction::Res3(_)
            | Instruction::Res4(_) | Instruction::Res5(_) | Instruction::Res6(_)
            | Instruction::Res7(_) | Instruction::Set0(_) | Instruction::Set1(_)
            | Instruction::Set2(_) | Instruction::Set3(_) | Instruction::Set4(_)
            | Instruction::Set5(_) | Instruction::Set6(_) | Instruction::Set7(_)
            | Instruction::Srl(_) | Instruction::Swap(_) | Instruction::Sra(_)
            | Instruction::Sla(_) | Instruction::Rr(_) | Instruction::Rl(_)
            | Instruction::Rrc(_) | Instruction::Rlc(_) => self.execute_cb(instruction),
            Instruction::Inc(target) => self.inc(target),
            Instruction::Dec(target) => self.dec(target),
            Instruction::Add(target) => self.add(target),
            Instruction::AddHL(target) => self.addhl(target),
            Instruction::Adc(target) => self.adc(target),
            Instruction::Sub(target) => self.sub(target),
            Instruction::Sbc(target) => self.sbc(target),
            Instruction::Or(target) => self.or(target),
            Instruction::And(target) => self.and(target),
            Instruction::Xor(target) => self.xor(target),
            Instruction::Cp(target) => self.cp(target),
        }
    }

    /// The CB-prefixed operations: rotates and shifts, SWAP, and the
    /// single-bit test/clear/set group.
    #[verifier::rlimit(100)]
    fn execute_cb(&mut self, instruction: Instruction) -> (r: u16)
        requires
            old(self).inv(),
            spec_wf_instruction(instruction),
            matches!(
                instruction,
                Instruction::Rlc(_) | Instruction::Rrc(_) | Instruction::Rl(_)
                | Instruction::Rr(_) | Instruction::Sla(_) | Instruction::Sra(_)
                | Instruction::Swap(_) | Instruction::Srl(_) | Instruction::Bit0(_)
                | Instruction::Bit1(_) | Instruction::Bit2(_) | Instruction::Bit3(_)
                | Instruction::Bit4(_) | Instruction::Bit5(_) | Instruction::Bit6(_)
                | Instruction::Bit7(_) | Instruction::Res0(_) | Instruction::Res1(_)
                | Instruction::Res2(_) | Instruction::Res3(_) | Instruction::Res4(_)
                | Instruction::Res5(_) | Instruction::Res6(_) | Instruction::Res7(_)
                | Instruction::Set0(_) | Instruction::Set1(_) | Instruction::Set2(_)
                | Instruction::Set3(_) | Instruction::Set4(_) | Instruction::Set5(_)
                | Instruction::Set6(_) | Instruction::Set7(_)
            ),
        ensures
            final(self).inv(),
            spec_exec_effect(old(self)@, instruction, final(self)@, r),
    {
        match instruction {
            Instruction::Bit0(target) => self.bit(target, 0),
            Instruction::Bit1(target) => self.bit(target, 1),
            Instruction::Bit2(target) => self.bit(target, 2),
            Instruction::Bit3(target) => self.bit(target, 3),
            Instruction::Bit4(target) => self.bit(target, 4),
            Instruction::Bit5(target) => self.bit(target, 5),
            Instruction::Bit6(target) => self.bit(target, 6),
            Instruction::Bit7(target) => self.bit(target, 7),
            Instruction::Res0(target) => self.res(target, 0),
            Instruction::Res1(target) => self.res(target, 1),
            Instruction::Res2(target) => self.res(target, 2),
            Instruction::Res3(target) => self.res(target, 3),
            Instruction::Res4(target) => self.res(target, 4),
            Instruction::Res5(target) => self.res(target, 5),
            Instruction::Res6(target) => self.res(target, 6),
            Instruction::Res7(target) => self.res(target, 7),
            Instruction::Set0(target) => self.set_bit_op(target, 0),
            Instruction::Set1(target) => self.set_bit_op(target, 1),
            Instruction::Set2(target) => self.set_bit_op(target, 2),
            Instruction::Set3(target) => self.set_bit_op(target, 3),
            Instruction::Set4(target) => self.set_bit_op(target, 4),
            Instruction::Set5(target) => self.set_bit_op(target, 5),
            Instruction::Set6(target) => self.set_bit_op(target, 6),
            Instruction::Set7(target) => self.set_bit_op(target, 7),
            Instruction::Srl(target) => self.srl(target),
            Instruction::Swap(target) => self.swap(target),
            Instruction::Sra(target) => self.sra(target),
            Instruction::Sla(target) => self.sla(target),
            Instruction::Rr(target) => self.rr(target),
            Instruction::Rl(target) => self.rl(target),
            Instruction::Rrc(target) => self.rrc(target),
            Instruction::Rlc(target) => self.rlc(target),
            // Unreachable: the requires admits only the arms above.
            _ => wrap_add16(self.pc, 1),
        }
    }

    fn jump_taken(&self, test: JumpTest) -> (r: bool)
        ensures
            r == spec_jump_taken(self.registers.f, test),
    {
        match test {
            JumpTest::Always => true,
            JumpTest::Carry => self.registers.f.carry,
            JumpTest::NotCarry => !self.registers.f.carry,
            JumpTest::Zero => self.registers.f.zero,
            JumpTest::NotZero => !self.registers.f.zero,
        }
    }

    fn jp_op(&self, test: JumpTest) -> (r: u16)
        requires
            self.inv(),
        ensures
            spec_exec_effect(self@, Instruction::JP(test), self@, r),
    {
        proof {
            reveal(crate::semantics::spec_execute);
        }
        let taken = self.jump_taken(test);
        self.jp(taken)
    }

    fn jr_op(&self, test: JumpTest) -> (r: u16)
        requires
            self.inv(),
        ensures
            spec_exec_effect(self@, Instruction::JR(test), self@, r),
    {
        proof {
            reveal(crate::semantics::spec_execute);
        }
        let taken = self.jump_taken(test);
        self.jr(taken)
    }

    fn jphl_op(&self) -> (r: u16)
        requires
            self.inv(),
        ensures
            spec_exec_effect(self@, Instruction::JPHL, self@, r),
    {
        proof {
            reveal(crate::semantics::spec_execute);
        }
        self.registers.get_hl()
    }

    /// The instructions that only step over their opcode: NOP, the stub
    /// HALT, and DI (no interrupt controller exists to disable).
    fn advance_op(&self, instruction: Instruction) -> (r: u16)
        requires
            self.inv(),
            instruction is Nop || instruction is HALT || instruction is DI,
        ensures
            spec_exec_effect(self@, instruction, self@, r),
    {
        proof {
            reveal(crate::semantics::spec_execute);
        }
        wrap_add16(self.pc, 1)
    }

    fn call_op(&mut self, test: JumpTest) -> (r: u16)
        requires
            old(self).inv(),
        ensures
            final(self).inv(),
            spec_exec_effect(old(self)@, Instruction::CALL(test), final(self)@, r),
    {
        proof {
            reveal(crate::semantics::spec_execute);
        }
        let taken = self.jump_taken(test);
        self.call(taken)
    }

    fn ret_op(&mut self, test: JumpTest) -> (r: u16)
        requires
            old(self).inv(),
        ensures
            final(self).inv(),
            spec_exec_effect(old(self)@, Instruction::RET(test), final(self)@, r),
    {
        proof {
            reveal(crate::semantics::spec_execute);
        }
        let taken = self.jump_taken(test);
        self.ret(taken)
    }

    fn push_op(&mut self, target: StackTarget) -> (r: u16)
        requires
            old(self).inv(),
        ensures
            final(self).inv(),
            spec_exec_effect(old(self)@, Instruction::PUSH(target), final(self)@, r),
    {
        proof {
            reveal(crate::semantics::spec_execute);
        }
        let value = match target {
            StackTarget::AF => self.registers.get_af(),
            StackTarget::BC => self.registers.get_bc(),
            StackTarget::DE => self.registers.get_de(),
            StackTarget::HL => self.registers.get_hl(),
        };
        self.push(value)
    }

    fn pop_op(&mut self, target: StackTarget) -> (r: u16)
        requires
            old(self).inv(),
        ensures
            final(self).inv(),
            spec_exec_effect(old(self)@, Instruction::POP(target), final(self)@, r),
    {
        proof {
            reveal(crate::semantics::spec_execute);
        }
        let (pc, value) = self.pop();
        match target {
            StackTarget::AF => self.registers.set_af(value),
            StackTarget::BC => self.registers.set_bc(value),
            StackTarget::DE => self.registers.set_de(value),
            StackTarget::HL => self.registers.set_hl(value),
        }
        pc
    }

    fn resolve_target(&self, target: Target) -> (loc: Loc)
        requires
            self.inv(),
            spec_resolves(target),
        ensures
            loc == spec_resolve(self@, target),
            spec_loc_wf(loc),
    {
        match target {
            Target::Reg8(reg) => Loc::Reg(reg),
            Target::Reg16Indirect(reg) => {
                let addr = match reg {
                    Reg16::AF => self.registers.get_af(),
                    Reg16::BC => self.registers.get_bc(),
                    Reg16::DE => self.registers.get_de(),
                    Reg16::HL => self.registers.get_hl(),
                    _ => 0,
                };
                Loc::Addr(addr)
            },
            Target::Value => Loc::Addr(wrap_add16(self.pc, 1)),
            Target::Reg16(_) => Loc::Reg(Reg8::A),
        }
    }

    fn read_loc(&self, loc: Loc) -> (v: u8)
        requires
            self.inv(),
            spec_loc_wf(loc),
        ensures
            v == spec_loc_read(self@, loc),
    {
        match loc {
            Loc::Reg(reg) => match reg {
                Reg8::A => self.registers.a,
                Reg8::B => self.registers.b,
                Reg8::C => self.registers.c,
                Reg8::D => self.registers.d,
                Reg8::E => self.registers.e,
                Reg8::H => self.registers.h,
                Reg8::L => self.registers.l,
                _ => 0,
            },
            Loc::Addr(addr) => self.bus.read_byte(addr),
        }
    }

    fn write_loc(&mut self, loc: Loc, v: u8)
        requires
            old(self).inv(),
            spec_loc_wf(loc),
        ensures
            final(self).inv(),
            final(self)@ == spec_loc_write(old(self)@, loc, v),
    {
        match loc {
            Loc::Reg(reg) => match reg {
                Reg8::A => self.registers.a = v,
                Reg8::B => self.registers.b = v,
                Reg8::C => self.registers.c = v,
                Reg8::D => self.registers.d = v,
                Reg8::E => self.registers.e = v,
                Reg8::H => self.registers.h = v,
                Reg8::L => self.registers.l = v,
                _ => {},
            },
            Loc::Addr(addr) => self.bus.write_byte(addr, v),
        }
    }

    /// The little-endian 16-bit immediate after the opcode.
    fn read_imm16(&self) -> (r: u16)
        requires
            self.inv(),
        ensures
            r == spec_imm16(self@),
    {
        let lsb = self.bus.read_byte(wrap_add16(self.pc, 1));
        let msb = self.bus.read_byte(wrap_add16(self.pc, 2));
        (msb as u16) * 256 + (lsb as u16)
    }

    fn call(&mut self, jump: bool) -> (r: u16)
        requires
            old(self).inv(),
        ensures
            final(self).inv(),
            ({
                let s = old(self)@;
                let ret = wrap16(s.pc + 3);
                if jump {
                    let s1 = spec_push16(s, ret);
                    final(self)@ == s1 && r == spec_pair(
                        s1.read_mem(wrap16(s.pc + 2)),
                        s1.read_mem(wrap16(s.pc + 1)),
                    )
                } else {
                    final(self)@ == s && r == ret
                }
            }),
    {
        let pc_next = wrap_add16(self.pc, 3);
        if jump {
            self.push(pc_next);
            let lsb = self.bus.read_byte(wrap_add16(self.pc, 1));
            let msb = self.bus.read_byte(wrap_add16(self.pc, 2));
            (msb as u16) * 256 + (lsb as u16)
        } else {
            pc_next
        }
    }

    fn ret(&mut self, jump: bool) -> (r: u16)
        requires
            old(self).inv(),
        ensures
            final(self).inv(),
            ({
                let s = old(self)@;
                if jump {
                    final(self)@ == spec_pop16(s).0 && r == spec_pop16(s).1
                } else {
                    final(self)@ == s && r == wrap16(s.pc + 1)
                }
            }),
    {
        if jump {
            self.pop().1
        } else {
            wrap_add16(self.pc, 1)
        }
    }

    /// Push a 16-bit value high byte first, decrementing SP before each
    /// write; the returned value is the fall-through program counter.
    fn push(&mut self, value: u16) -> (r: u16)
        requires
            old(self).inv(),
        ensures
            final(self).inv(),
            final(self)@ == spec_push16(old(self)@, value),
            r == wrap16(old(self)@.pc + 1),
    {
        let sp1 = wrap_sub16(self.sp, 1);
        self.sp = sp1;
        self.bus.write_byte(sp1, (value / 256) as u8);
        let sp2 = wrap_sub16(sp1, 1);
        self.sp = sp2;
        self.bus.write_byte(sp2, (value % 256) as u8);
        wrap_add16(self.pc, 1)
    }

    /// Pop a 16-bit value low byte first, incrementing SP after each read;
    /// returns the fall-through program counter and the value.
    fn pop(&mut self) -> (r: (u16, u16))
        requires
            old(self).inv(),
        ensures
            final(self).inv(),
            final(self)@ == spec_pop16(old(self)@).0,
            r.1 == spec_pop16(old(self)@).1,
            r.0 == wrap16(old(self)@.pc + 1),
    {
        let lsb = self.bus.read_byte(self.sp);
        self.sp = wrap_add16(self.sp, 1);
        let msb = self.bus.read_byte(self.sp);
        self.sp = wrap_add16(self.sp, 1);
        (wrap_add16(self.pc, 1), (msb as u16) * 256 + (lsb as u16))
    }

    fn ld(&mut self, load_type: LoadType) -> (r: u16)
        requires
            old(self).inv(),
            spec_wf_instruction(Instruction::LD(load_type)),
        ensures
            final(self).inv(),
            spec_exec_effect(old(self)@, Instruction::LD(load_type), final(self)@, r),
    {
        proof {
            reveal(crate::semantics::spec_execute);
        }
        match load_type {
            LoadType::Word(target, _) => {
                let v = self.read_imm16();
                match target {
                    Reg16::BC => self.registers.set_bc(v),
                    Reg16::DE => self.registers.set_de(v),
                    Reg16::HL => self.registers.set_hl(v),
                    _ => self.sp = v,
                }
                wrap_add16(self.pc, 3)
            },
            LoadType::Byte(target, source) => {
                let v = self.ld_read_source(source);
                self.ld_write_target(target, v);
                let len: u16 = if matches!(source, Reg8::D8) {
                    2
                } else if matches!(target, Reg8::D8I) {
                    2
                } else if matches!(source, Reg8::D8I) {
                    2
                } else if matches!(target, Reg8::D16I) {
                    3
                } else if matches!(source, Reg8::D16I) {
                    3
                } else {
                    1
                };
                wrap_add16(self.pc, len)
            },
        }
    }

    fn ld_read_source(&mut self, source: Reg8) -> (v: u8)
        requires
            old(self).inv(),
        ensures
            final(self).inv(),
            v == spec_ld_source(old(self)@, source).0,
            final(self)@ == spec_ld_source(old(self)@, source).1,
    {
        match source {
            Reg8::A => self.registers.a,
            Reg8::B => self.registers.b,
            Reg8::C => self.registers.c,
            Reg8::D => self.registers.d,
            Reg8::E => self.registers.e,
            Reg8::H => self.registers.h,
            Reg8::L => self.registers.l,
            Reg8::D8 => self.bus.read_byte(wrap_add16(self.pc, 1)),
            Reg8::BCI => {
                let addr = self.registers.get_bc();
                self.bus.read_byte(addr)
            },
            Reg8::DEI => {
                let addr = self.registers.get_de();
                self.bus.read_byte(addr)
            },
            Reg8::HLI => {
                let addr = self.registers.get_hl();
                self.bus.read_byte(addr)
            },
            Reg8::HLII => {
                let hl = self.registers.get_hl();
                let value = self.bus.read_byte(hl);
                self.registers.set_hl(wrap_add16(hl, 1));
                value
            },
            Reg8::HLDI => {
                let hl = self.registers.get_hl();
                let value = self.bus.read_byte(hl);
                self.registers.set_hl(wrap_sub16(hl, 1));
                value
            },
            Reg8::D16I => {
                let addr = self.read_imm16();
                self.bus.read_byte(addr)
            },
            Reg8::D8I => {
                let offset = self.bus.read_byte(wrap_add16(self.pc, 1));
                self.bus.read_byte(0xFF00 + offset as u16)
            },
            Reg8::CI => self.bus.read_byte(0xFF00 + self.registers.c as u16),
        }
    }

    fn ld_write_target(&mut self, target: Reg8, v: u8)
        requires
            old(self).inv(),
            !(target is D8),
        ensures
            final(self).inv(),
            final(self)@ == spec_ld_target(old(self)@, target, v),
    {
        match target {
            Reg8::A => self.registers.a = v,
            Reg8::B => self.registers.b = v,
            Reg8::C => self.registers.c = v,
            Reg8::D => self.registers.d = v,
            Reg8::E => self.registers.e = v,
            Reg8::H => self.registers.h = v,
            Reg8::L => self.registers.l = v,
            Reg8::BCI => {
                let addr = self.registers.get_bc();
                self.bus.write_byte(addr, v);
            },
            Reg8::DEI => {
                let addr = self.registers.get_de();
                self.bus.write_byte(addr, v);
            },
            Reg8::HLI => {
                let addr = self.registers.get_hl();
                self.bus.write_byte(addr, v);
            },
            Reg8::HLII => {
                let hl = self.registers.get_hl();
                self.bus.write_byte(hl, v);
                self.registers.set_hl(wrap_add16(hl, 1));
            },
            Reg8::HLDI => {
                let hl = self.registers.get_hl();
                self.bus.write_byte(hl, v);
                self.registers.set_hl(wrap_sub16(hl, 1));
            },
            Reg8::D16I => {
                let addr = self.read_imm16();
                self.bus.write_byte(addr, v);
            },
            Reg8::D8I => {
                let offset = self.bus.read_byte(wrap_add16(self.pc, 1));
                self.bus.write_byte(0xFF00 + offset as u16, v);
            },
            Reg8::CI => {
                let addr = 0xFF00 + self.registers.c as u16;
                self.bus.write_byte(addr, v);
            },
            Reg8::D8 => {},
        }
    }

    fn jp(&self, jump: bool) -> (r: u16)
        requires
            self.inv(),
        ensures
            r == if jump {
                spec_imm16(self@)
            } else {
                wrap16(self@.pc + 3)
            },
    {
        if jump {
            self.read_imm16()
        } else {
            wrap_add16(self.pc, 3)
        }
    }

    fn jr(&self, jump: bool) -> (r: u16)
        requires
            self.inv(),
        ensures
            r == if jump {
                wrap16(self@.pc + 2 + spec_signed8(spec_imm8(self@)))
            } else {
                wrap16(self@.pc + 2)
            },
    {
        if jump {
            let d = self.bus.read_byte(wrap_add16(self.pc, 1));
            let base = wrap_add16(self.pc, 2);
            if d >= 128 {
                proof {
                    lemma_wrap16_add(self.pc as int + 2, d as int - 256);
                }
                wrap_sub16(base, 256 - d as u16)
            } else {
                proof {
                    lemma_wrap16_add(self.pc as int + 2, d as int);
                }
                wrap_add16(base, d as u16)
            }
        } else {
            wrap_add16(self.pc, 2)
        }
    }

    fn addhl(&mut self, target: AddHLTarget) -> (r: u16)
        requires
            old(self).inv(),
        ensures
            final(self).inv(),
            spec_exec_effect(old(self)@, Instruction::AddHL(target), final(self)@, r),
    {
        proof {
            reveal(crate::semantics::spec_execute);
        }
        let source_value: u16 = match target {
            AddHLTarget::BC => self.registers.get_bc(),
            AddHLTarget::DE => self.registers.get_de(),
            AddHLTarget::HL => self.registers.get_hl(),
            AddHLTarget::SP => self.sp,
        };
        let hl = self.registers.get_hl();
        let sum: u32 = hl as u32 + source_value as u32;
        self.registers.f.subtract = false;
        self.registers.f.half_carry = hl % 4096 + source_value % 4096 > 4095;
        self.registers.f.carry = sum > 65535;
        self.registers.set_hl((sum % 65536) as u16);
        wrap_add16(self.pc, 1)
    }

    fn add(&mut self, target: Target) -> (r: u16)
        requires
            old(self).inv(),
            spec_resolves(target),
        ensures
            final(self).inv(),
            spec_exec_effect(old(self)@, Instruction::Add(target), final(self)@, r),
    {
        proof {
            reveal(crate::semantics::spec_execute);
        }
        let pc_update: u16 = if matches!(target, Target::Value) {
            2
        } else {
            1
        };
        let loc = self.resolve_target(target);
        let byte = self.read_loc(loc);
        let (result, f) = alu::alu_add(self.registers.a, byte);
        self.registers.a = result;
        self.registers.f = f;
        wrap_add16(self.pc, pc_update)
    }

    fn adc(&mut self, target: Target) -> (r: u16)
        requires
            old(self).inv(),
            spec_resolves(target),
        ensures
            final(self).inv(),
            spec_exec_effect(old(self)@, Instruction::Adc(target), final(self)@, r),
    {
        proof {
            reveal(crate::semantics::spec_execute);
        }
        let pc_update: u16 = if matches!(target, Target::Value) {
            2
        } else {
            1
        };
        let loc = self.resolve_target(target);
        let byte = self.read_loc(loc);
        let (result, f) = alu::alu_adc(self.registers.a, byte, self.registers.f.carry);
        self.registers.a = result;
        self.registers.f = f;
        wrap_add16(self.pc, pc_update)
    }

    fn sub(&mut self, target: Target) -> (r: u16)
        requires
            old(self).inv(),
            spec_resolves(target),
        ensures
            final(self).inv(),
            spec_exec_effect(old(self)@, Instruction::Sub(target), final(self)@, r),
    {
        proof {
            reveal(crate::semantics::spec_execute);
        }
        let pc_update: u16 = if matches!(target, Target::Value) {
            2
        } else {
            1
        };
        let loc = self.resolve_target(target);
        let byte = self.read_loc(loc);
        let (result, f) = alu::alu_sub(self.registers.a, byte);
        self.registers.a = result;
        self.registers.f = f;
        wrap_add16(self.pc, pc_update)
    }

    fn sbc(&mut self, target: Target) -> (r: u16)
        requires
            old(self).inv(),
            spec_resolves(target),
        ensures
            final(self).inv(),
            spec_exec_effect(old(self)@, Instruction::Sbc(target), final(self)@, r),
    {
        proof {
            reveal(crate::semantics::spec_execute);
        }
        let pc_update: u16 = if matches!(target, Target::Value) {
            2
        } else {
            1
        };
        let loc = self.resolve_target(target);
        let byte = self.read_loc(loc);
        let (result, f) = alu::alu_sbc(self.registers.a, byte, self.registers.f.carry);
        self.registers.a = result;
        self.registers.f = f;
        wrap_add16(self.pc, pc_update)
    }

    fn or(&mut self, target: Target) -> (r: u16)
        requires
            old(self).inv(),
            spec_resolves(target),
        ensures
            final(self).inv(),
            spec_exec_effect(old(self)@, Instruction::Or(target), final(self)@, r),
    {
        proof {
            reveal(crate::semantics::spec_execute);
        }
        let pc_update: u16 = if matches!(target, Target::Value) {
            2
        } else {
            1
        };
        let loc = self.resolve_target(target);
        let byte = self.read_loc(loc);
        let (result, f) = alu::alu_or(self.registers.a, byte);
        self.registers.a = result;
        self.registers.f = f;
        wrap_add16(self.pc, pc_update)
    }

    fn and(&mut self, target: Target) -> (r: u16)
        requires
            old(self).inv(),
            spec_resolves(target),
        ensures
            final(self).inv(),
            spec_exec_effect(old(self)@, Instruction::And(target), final(self)@, r),
    {
        proof {
            reveal(crate::semantics::spec_execute);
        }
        let pc_update: u16 = if matches!(target, Target::Value) {
            2
        } else {
            1
        };
        let loc = self.resolve_target(target);
        let byte = self.read_loc(loc);
        let (result, f) = alu::alu_and(self.registers.a, byte);
        self.registers.a = result;
        self.registers.f = f;
        wrap_add16(self.pc, pc_update)
    }

    fn xor(&mut self, target: Target) -> (r: u16)
        requires
            old(self).inv(),
            spec_resolves(target),
        ensures
            final(self).inv(),
            spec_exec_effect(old(self)@, Instruction::Xor(target), final(self)@, r),
    {
        proof {
            reveal(crate::semantics::spec_execute);
        }
        let pc_update: u16 = if matches!(target, Target::Value) {
            2
        } else {
            1
        };
        let loc = self.resolve_target(target);
        let byte = self.read_loc(loc);
        let (result, f) = alu::alu_xor(self.registers.a, byte);
        self.registers.a = result;
        self.registers.f = f;
        wrap_add16(self.pc, pc_update)
    }

    fn cp(&mut self, target: Target) -> (r: u16)
        requires
            old(self).inv(),
            spec_resolves(target),
        ensures
            final(self).inv(),
            spec_exec_effect(old(self)@, Instruction::Cp(target), final(self)@, r),
    {
        proof {
            reveal(crate::semantics::spec_execute);
        }
        let pc_update: u16 = if matches!(target, Target::Value) {
            2
        } else {
            1
        };
        let loc = self.resolve_target(target);
        let byte = self.read_loc(loc);
        let (_, f) = alu::alu_sub(self.registers.a, byte);
        self.registers.f = f;
        wrap_add16(self.pc, pc_update)
    }

    fn cpl(&mut self) -> (r: u16)
        requires
            old(self).inv(),
        ensures
            final(self).inv(),
            spec_exec_effect(old(self)@, Instruction::Cpl, final(self)@, r),
    {
        proof {
            reveal(crate::semantics::spec_execute);
        }
        self.registers.a = 255 - self.registers.a;
        self.registers.f.subtract = true;
        self.registers.f.half_carry = true;
        wrap_add16(self.pc, 1)
    }

    fn ccf(&mut self) -> (r: u16)
        requires
            old(self).inv(),
        ensures
            final(self).inv(),
            spec_exec_effect(old(self)@, Instruction::Ccf, final(self)@, r),
    {
        proof {
            reveal(crate::semantics::spec_execute);
        }
        self.registers.f.subtract = false;
        self.registers.f.carry = !self.registers.f.carry;
        self.registers.f.half_carry = false;
        wrap_add16(self.pc, 1)
    }

    fn scf(&mut self) -> (r: u16)
        requires
            old(self).inv(),
        ensures
            final(self).inv(),
            spec_exec_effect(old(self)@, Instruction::Scf, final(self)@, r),
    {
        proof {
            reveal(crate::semantics::spec_execute);
        }
        self.registers.f.subtract = false;
        self.registers.f.carry = true;
        self.registers.f.half_carry = false;
        wrap_add16(self.pc, 1)
    }

    fn rlca(&mut self) -> (r: u16)
        requires
            old(self).inv(),
        ensures
            final(self).inv(),
            spec_exec_effect(old(self)@, Instruction::Rlca, final(self)@, r),
    {
        proof {
            reveal(crate::semantics::spec_execute);
        }
        let a = self.registers.a;
        self.registers.a = (a % 128) * 2 + a / 128;
        self.registers.f.clear_all();
        self.registers.f.carry = a / 128 == 1;
        wrap_add16(self.pc, 1)
    }

    fn rla(&mut self) -> (r: u16)
        requires
            old(self).inv(),
        ensures
            final(self).inv(),
            spec_exec_effect(old(self)@, Instruction::Rla, final(self)@, r),
    {
        proof {
            reveal(crate::semantics::spec_execute);
        }
        let a = self.registers.a;
        let carry_bit: u8 = if self.registers.f.carry {
            1
        } else {
            0
        };
        self.registers.a = (a % 128) * 2 + carry_bit;
        self.registers.f.clear_all();
        self.registers.f.carry = a / 128 == 1;
        wrap_add16(self.pc, 1)
    }

    fn rrca(&mut self) -> (r: u16)
        requires
            old(self).inv(),
        ensures
            final(self).inv(),
            spec_exec_effect(old(self)@, Instruction::Rrca, final(self)@, r),
    {
        proof {
            reveal(crate::semantics::spec_execute);
        }
        let a = self.registers.a;
        self.registers.a = a / 2 + (a % 2) * 128;
        self.registers.f.clear_all();
        self.registers.f.carry = a % 2 == 1;
        wrap_add16(self.pc, 1)
    }

    fn rra(&mut self) -> (r: u16)
        requires
            old(self).inv(),
        ensures
            final(self).inv(),
            spec_exec_effect(old(self)@, Instruction::Rra, final(self)@, r),
    {
        proof {
            reveal(crate::semantics::spec_execute);
        }
        let a = self.registers.a;
        let carry_bit: u8 = if self.registers.f.carry {
            1
        } else {
            0
        };
        self.registers.a = a / 2 + carry_bit * 128;
        self.registers.f.clear_all();
        self.registers.f.carry = a % 2 == 1;
        wrap_add16(self.pc, 1)
    }

    /// INC: the four 16-bit pair forms touch no flag; the byte forms set
    /// zero, subtract and half-carry and leave carry alone.
    pub fn inc(&mut self, target: Target) -> (r: u16)
        requires
            old(self).inv(),
            spec_wf_instruction(Instruction::Inc(target)),
        ensures
            final(self).inv(),
            spec_exec_effect(old(self)@, Instruction::Inc(target), final(self)@, r),
    {
        proof {
            reveal(crate::semantics::spec_execute);
        }
        match target {
            Target::Reg16(pair) => {
                match pair {
                    Reg16::BC => {
                        let value = self.registers.get_bc();
                        self.registers.set_bc(wrap_add16(value, 1));
                    },
                    Reg16::DE => {
                        let value = self.registers.get_de();
                        self.registers.set_de(wrap_add16(value, 1));
                    },
                    Reg16::HL => {
                        let value = self.registers.get_hl();
                        self.registers.set_hl(wrap_add16(value, 1));
                    },
                    _ => {
                        self.sp = wrap_add16(self.sp, 1);
                    },
                }
            },
            _ => {
                let loc = self.resolve_target(target);
                let prior = self.read_loc(loc);
                let (result, f) = alu::alu_inc(prior, self.registers.f.carry);
                self.write_loc(loc, result);
                self.registers.f = f;
            },
        }
        wrap_add16(self.pc, 1)
    }

    fn dec(&mut self, target: Target) -> (r: u16)
        requires
            old(self).inv(),
            spec_resolves(target),
        ensures
            final(self).inv(),
            spec_exec_effect(old(self)@, Instruction::Dec(target), final(self)@, r),
    {
        proof {
            reveal(crate::semantics::spec_execute);
        }
        let loc = self.resolve_target(target);
        let prior = self.read_loc(loc);
        let (result, f) = alu::alu_dec(prior, self.registers.f.carry);
        self.write_loc(loc, result);
        self.registers.f = f;
        wrap_add16(self.pc, 1)
    }

    fn rlc(&mut self, target: Target) -> (r: u16)
        requires
            old(self).inv(),
            spec_resolves(target),
        ensures
            final(self).inv(),
            spec_exec_effect(old(self)@, Instruction::Rlc(target), final(self)@, r),
    {
        proof {
            reveal(crate::semantics::spec_execute);
        }
        let loc = self.resolve_target(target);
        let byte = self.read_loc(loc);
        let (result, f) = alu::alu_rlc(byte);
        self.write_loc(loc, result);
        self.registers.f = f;
        wrap_add16(self.pc, 2)
    }

    fn rrc(&mut self, target: Target) -> (r: u16)
        requires
            old(self).inv(),
            spec_resolves(target),
        ensures
            final(self).inv(),
            spec_exec_effect(old(self)@, Instruction::Rrc(target), final(self)@, r),
    {
        proof {
            reveal(crate::semantics::spec_execute);
        }
        let loc = self.resolve_target(target);
        let byte = self.read_loc(loc);
        let (result, f) = alu::alu_rrc(byte);
        self.write_loc(loc, result);
        self.registers.f = f;
        wrap_add16(self.pc, 2)
    }

    fn rl(&mut self, target: Target) -> (r: u16)
        requires
            old(self).inv(),
            spec_resolves(target),
        ensures
            final(self).inv(),
            spec_exec_effect(old(self)@, Instruction::Rl(target), final(self)@, r),
    {
        proof {
            reveal(crate::semantics::spec_execute);
        }
        let loc = self.resolve_target(target);
        let byte = self.read_loc(loc);
        let (result, f) = alu::alu_rl(byte, self.registers.f.carry);
        self.write_loc(loc, result);
        self.registers.f = f;
        wrap_add16(self.pc, 2)
    }

    fn rr(&mut self, target: Target) -> (r: u16)
        requires
            old(self).inv(),
            spec_resolves(target),
        ensures
            final(self).inv(),
            spec_exec_effect(old(self)@, Instruction::Rr(target), final(self)@, r),
    {
        proof {
            reveal(crate::semantics::spec_execute);
        }
        let loc = self.resolve_target(target);
        let byte = self.read_loc(loc);
        let (result, f) = alu::alu_rr(byte, self.registers.f.carry);
        self.write_loc(loc, result);
        self.registers.f = f;
        wrap_add16(self.pc, 2)
    }

    fn sla(&mut self, target: Target) -> (r: u16)
        requires
            old(self).inv(),
            spec_resolves(target),
        ensures
            final(self).inv(),
            spec_exec_effect(old(self)@, Instruction::Sla(target), final(self)@, r),
    {
        proof {
            reveal(crate::semantics::spec_execute);
        }
        let loc = self.resolve_target(target);
        let byte = self.read_loc(loc);
        let (result, f) = alu::alu_sla(byte);
        self.write_loc(loc, result);
        self.registers.f = f;
        wrap_add16(self.pc, 2)
    }

    fn sra(&mut self, target: Target) -> (r: u16)
        requires
            old(self).inv(),
            spec_resolves(target),
        ensures
            final(self).inv(),
            spec_exec_effect(old(self)@, Instruction::Sra(target), final(self)@, r),
    {
        proof {
            reveal(crate::semantics::spec_execute);
        }
        let loc = self.resolve_target(target);
        let byte = self.read_loc(loc);
        let (result, f) = alu::alu_sra(byte);
        self.write_loc(loc, result);
        self.registers.f = f;
        wrap_add16(self.pc, 2)
    }

    fn swap(&mut self, target: Target) -> (r: u16)
        requires
            old(self).inv(),
            spec_resolves(target),
        ensures
            final(self).inv(),
            spec_exec_effect(old(self)@, Instruction::Swap(target), final(self)@, r),
    {
        proof {
            reveal(crate::semantics::spec_execute);
        }
        let loc = self.resolve_target(target);
        let byte = self.read_loc(loc);
        let (result, f) = alu::alu_swap(byte);
        self.write_loc(loc, result);
        self.registers.f = f;
        wrap_add16(self.pc, 2)
    }

    fn srl(&mut self, target: Target) -> (r: u16)
        requires
            old(self).inv(),
            spec_resolves(target),
        ensures
            final(self).inv(),
            spec_exec_effect(old(self)@, Instruction::Srl(target), final(self)@, r),
    {
        proof {
            reveal(crate::semantics::spec_execute);
        }
        let loc = self.resolve_target(target);
        let byte = self.read_loc(loc);
        let (result, f) = alu::alu_srl(byte);
        self.write_loc(loc, result);
        self.registers.f = f;
        wrap_add16(self.pc, 2)
    }

    fn bit(&mut self, target: Target, n: u8) -> (r: u16)
        requires
            old(self).inv(),
            spec_resolves(target),
            n < 8,
        ensures
            final(self).inv(),
            spec_exec_effect(old(self)@, crate::semantics::spec_bit_instr(n, target), final(self)@, r),
    {
        proof {
            crate::semantics::lemma_bit_instr_effect(old(self)@, target, n);
        }
        let loc = self.resolve_target(target);
        let byte = self.read_loc(loc);
        self.registers.f.zero = !alu::bit_test(byte, n);
        self.registers.f.subtract = false;
        self.registers.f.half_carry = true;
        wrap_add16(self.pc, 2)
    }

    fn res(&mut self, target: Target, n: u8) -> (r: u16)
        requires
            old(self).inv(),
            spec_resolves(target),
            n < 8,
        ensures
            final(self).inv(),
            spec_exec_effect(old(self)@, crate::semantics::spec_res_instr(n, target), final(self)@, r),
    {
        proof {
            crate::semantics::lemma_res_instr_effect(old(self)@, target, n);
        }
        let loc = self.resolve_target(target);
        let byte = self.read_loc(loc);
        self.write_loc(loc, alu::clear_bit(byte, n));
        wrap_add16(self.pc, 2)
    }

    fn set_bit_op(&mut self, target: Target, n: u8) -> (r: u16)
        requires
            old(self).inv(),
            spec_resolves(target),
            n < 8,
        ensures
            final(self).inv(),
            spec_exec_effect(old(self)@, crate::semantics::spec_set_instr(n, target), final(self)@, r),
    {
        proof {
            crate::semantics::lemma_set_instr_effect(old(self)@, target, n);
        }
        let loc = self.resolve_target(target);
        let byte = self.read_loc(loc);
        self.write_loc(loc, alu::set_bit(byte, n));
        wrap_add16(self.pc, 2)
    }
}

} // verus!
