//! Machine-level semantics: a mathematical view of the whole CPU state and
//! one specification function, `spec_execute`, that gives the exact next
//! state (registers, flags, SP, memory, and the adopted program counter) for
//! every well-formed instruction. The executor is verified against it.

use vstd::prelude::*;
use crate::alu::{
    spec_alu_add, spec_alu_adc, spec_alu_sub, spec_alu_sbc, spec_alu_and, spec_alu_or,
    spec_alu_xor, spec_alu_inc, spec_alu_dec, spec_alu_rlc, spec_alu_rrc, spec_alu_rl,
    spec_alu_rr, spec_alu_sla, spec_alu_sra, spec_alu_swap, spec_alu_srl, spec_bit_test,
    spec_clear_bit, spec_set_bit,
};
use crate::decode::{
    AddHLTarget, Instruction, JumpTest, LoadType, Reg16, Reg8, StackTarget, Target,
    spec_is_plain_reg8,
};
use crate::reg::{FlagsRegister, Registers, spec_byte_to_flags, spec_pair};

verus! {

/// The full CPU state as mathematics: the register file, the two 16-bit
/// counters, and memory as a sequence of 65536 bytes.
pub struct CpuView {
    pub regs: Registers,
    pub pc: u16,
    pub sp: u16,
    pub mem: Seq<u8>,
}

/// Reduction of any integer to the 16-bit address space: all PC and SP
/// arithmetic wraps modulo 65536 and never faults.
pub open spec fn wrap16(x: int) -> u16 {
    (x % 0x10000) as u16
}

/// Wrapping 16-bit addition, pinned to `wrap16`.
pub fn wrap_add16(x: u16, y: u16) -> (r: u16)
    ensures
        r == wrap16(x + y),
{
    (((x as u32) + (y as u32)) % 65536) as u16
}

/// Wrapping 16-bit subtraction, pinned to `wrap16`.
pub fn wrap_sub16(x: u16, y: u16) -> (r: u16)
    ensures
        r == wrap16(x - y),
{
    proof {
        vstd::arithmetic::div_mod::lemma_mod_add_multiples_vanish(x as int - y as int, 65536);
    }
    (((x as u32) + 65536 - (y as u32)) % 65536) as u16
}

/// Reducing one operand of a sum modulo 65536 does not change the wrapped
/// result.
pub proof fn lemma_wrap16_add(x: int, y: int)
    ensures
        wrap16(wrap16(x) as int + y) == wrap16(x + y),
{
    vstd::arithmetic::div_mod::lemma_add_mod_noop_right(y, x, 65536);
}

/// The sign of an 8-bit displacement byte, read as two's complement.
pub open spec fn spec_signed8(d: u8) -> int {
    if d < 128 {
        d as int
    } else {
        d as int - 256
    }
}

impl CpuView {
    pub open spec fn wf(&self) -> bool {
        self.mem.len() == 0x10000
    }

    pub open spec fn read_mem(&self, addr: u16) -> u8 {
        self.mem[addr as int]
    }

    pub open spec fn write_mem(&self, addr: u16, v: u8) -> CpuView {
        CpuView { mem: self.mem.update(addr as int, v), ..*self }
    }

    pub open spec fn with_flags(&self, f: FlagsRegister) -> CpuView {
        CpuView { regs: Registers { f, ..self.regs }, ..*self }
    }

    pub open spec fn with_pc(&self, pc: u16) -> CpuView {
        CpuView { pc, ..*self }
    }

    pub open spec fn with_sp(&self, sp: u16) -> CpuView {
        CpuView { sp, ..*self }
    }

    pub open spec fn with_a(&self, v: u8) -> CpuView {
        CpuView { regs: Registers { a: v, ..self.regs }, ..*self }
    }

    /// Write a 16-bit value into the AF pair: A takes the high byte, the
    /// flags the low byte (its low nibble is discarded by the packing).
    pub open spec fn with_af(&self, v: u16) -> CpuView {
        CpuView {
            regs: Registers {
                a: (v as int / 256) as u8,
                f: spec_byte_to_flags((v as int % 256) as u8),
                ..self.regs
            },
            ..*self
        }
    }

    pub open spec fn with_bc(&self, v: u16) -> CpuView {
        CpuView {
            regs: Registers {
                b: (v as int / 256) as u8,
                c: (v as int % 256) as u8,
                ..self.regs
            },
            ..*self
        }
    }

    pub open spec fn with_de(&self, v: u16) -> CpuView {
        CpuView {
            regs: Registers {
                d: (v as int / 256) as u8,
                e: (v as int % 256) as u8,
                ..self.regs
            },
            ..*self
        }
    }

    pub open spec fn with_hl(&self, v: u16) -> CpuView {
        CpuView {
            regs: Registers {
                h: (v as int / 256) as u8,
                l: (v as int % 256) as u8,
                ..self.regs
            },
            ..*self
        }
    }
}

/// A resolved byte location: one of the seven plain registers, or one memory
/// address. Resolved afresh for each instruction, never stored.
#[derive(Clone, Copy, Debug, PartialEq, Eq, Structural)]
pub enum Loc {
    Reg(Reg8),
    Addr(u16),
}

/// Whether a location can be read and written: a register location must name
/// a plain register.
pub open spec fn spec_loc_wf(loc: Loc) -> bool {
    match loc {
        Loc::Reg(r) => spec_is_plain_reg8(r),
        Loc::Addr(_) => true,
    }
}

/// The value of a plain register.
pub open spec fn spec_reg8_read(s: CpuView, r: Reg8) -> u8 {
    match r {
        Reg8::A => s.regs.a,
        Reg8::B => s.regs.b,
        Reg8::C => s.regs.c,
        Reg8::D => s.regs.d,
        Reg8::E => s.regs.e,
        Reg8::H => s.regs.h,
        Reg8::L => s.regs.l,
        _ => 0,
    }
}

/// The state after writing a plain register.
pub open spec fn spec_reg8_write(s: CpuView, r: Reg8, v: u8) -> CpuView {
    match r {
        Reg8::A => CpuView { regs: Registers { a: v, ..s.regs }, ..s },
        Reg8::B => CpuView { regs: Registers { b: v, ..s.regs }, ..s },
        Reg8::C => CpuView { regs: Registers { c: v, ..s.regs }, ..s },
        Reg8::D => CpuView { regs: Registers { d: v, ..s.regs }, ..s },
        Reg8::E => CpuView { regs: Registers { e: v, ..s.regs }, ..s },
        Reg8::H => CpuView { regs: Registers { h: v, ..s.regs }, ..s },
        Reg8::L => CpuView { regs: Registers { l: v, ..s.regs }, ..s },
        _ => s,
    }
}

/// The address a 16-bit register operand stands for: one of the four pairs;
/// every other 16-bit form addresses location zero.
pub open spec fn spec_reg16_lookup(s: CpuView, r: Reg16) -> u16 {
    match r {
        Reg16::AF => s.regs.spec_af(),
        Reg16::BC => s.regs.spec_bc(),
        Reg16::DE => s.regs.spec_de(),
        Reg16::HL => s.regs.spec_hl(),
        _ => 0,
    }
}

/// Resolve a target to a byte location: a plain register, the byte addressed
/// by a pair, or the immediate byte just after the opcode. Meaningful exactly
/// when the target resolves (`spec_resolves`).
pub open spec fn spec_resolve(s: CpuView, t: Target) -> Loc {
    match t {
        Target::Reg8(r) => Loc::Reg(r),
        Target::Reg16Indirect(r) => Loc::Addr(spec_reg16_lookup(s, r)),
        Target::Value => Loc::Addr(wrap16(s.pc + 1)),
        Target::Reg16(_) => Loc::Reg(Reg8::A),
    }
}

pub open spec fn spec_loc_read(s: CpuView, loc: Loc) -> u8 {
    match loc {
        Loc::Reg(r) => spec_reg8_read(s, r),
        Loc::Addr(a) => s.read_mem(a),
    }
}

pub open spec fn spec_loc_write(s: CpuView, loc: Loc, v: u8) -> CpuView {
    match loc {
        Loc::Reg(r) => spec_reg8_write(s, r, v),
        Loc::Addr(a) => s.write_mem(a, v),
    }
}

/// The 8-bit immediate following the opcode.
pub open spec fn spec_imm8(s: CpuView) -> u8 {
    s.read_mem(wrap16(s.pc + 1))
}

/// The little-endian 16-bit immediate following the opcode.
pub open spec fn spec_imm16(s: CpuView) -> u16 {
    spec_pair(s.read_mem(wrap16(s.pc + 2)), s.read_mem(wrap16(s.pc + 1)))
}

/// Push a 16-bit value: decrement SP and write the high byte, decrement SP
/// and write the low byte. PC is untouched.
pub open spec fn spec_push16(s: CpuView, v: u16) -> CpuView {
    let sp1 = wrap16(s.sp - 1);
    let s1 = s.write_mem(sp1, (v as int / 256) as u8);
    let sp2 = wrap16(sp1 - 1);
    let s2 = s1.write_mem(sp2, (v as int % 256) as u8);
    s2.with_sp(sp2)
}

/// Pop a 16-bit value: read the low byte and increment SP, read the high
/// byte and increment SP. PC is untouched.
pub open spec fn spec_pop16(s: CpuView) -> (CpuView, u16) {
    let lo = s.read_mem(s.sp);
    let sp1 = wrap16(s.sp + 1);
    let hi = s.read_mem(sp1);
    let sp2 = wrap16(sp1 + 1);
    (s.with_sp(sp2), spec_pair(hi, lo))
}

/// Whether a conditional jump, call or return fires under the current flags.
pub open spec fn spec_jump_taken(f: FlagsRegister, t: JumpTest) -> bool {
    match t {
        JumpTest::Always => true,
        JumpTest::Carry => f.carry,
        JumpTest::NotCarry => !f.carry,
        JumpTest::Zero => f.zero,
        JumpTest::NotZero => !f.zero,
    }
}

/// Evaluate an 8-bit load source: the value read, and the state afterwards
/// (the auto-increment and auto-decrement forms move HL as a side effect).
pub open spec fn spec_ld_source(s: CpuView, src: Reg8) -> (u8, CpuView) {
    match src {
        Reg8::A => (s.regs.a, s),
        Reg8::B => (s.regs.b, s),
        Reg8::C => (s.regs.c, s),
        Reg8::D => (s.regs.d, s),
        Reg8::E => (s.regs.e, s),
        Reg8::H => (s.regs.h, s),
        Reg8::L => (s.regs.l, s),
        Reg8::D8 => (spec_imm8(s), s),
        Reg8::BCI => (s.read_mem(s.regs.spec_bc()), s),
        Reg8::DEI => (s.read_mem(s.regs.spec_de()), s),
        Reg8::HLI => (s.read_mem(s.regs.spec_hl()), s),
        Reg8::HLII => (
            s.read_mem(s.regs.spec_hl()),
            s.with_hl(wrap16(s.regs.spec_hl() + 1)),
        ),
        Reg8::HLDI => (
            s.read_mem(s.regs.spec_hl()),
            s.with_hl(wrap16(s.regs.spec_hl() - 1)),
        ),
        Reg8::D16I => (s.read_mem(spec_imm16(s)), s),
        Reg8::D8I => (s.read_mem((0xFF00 + spec_imm8(s) as int) as u16), s),
        Reg8::CI => (s.read_mem((0xFF00 + s.regs.c as int) as u16), s),
    }
}

/// Apply an 8-bit load target to a value. Meaningful for every form but the
/// immediate (`D8`), which is not writable.
pub open spec fn spec_ld_target(s: CpuView, tgt: Reg8, v: u8) -> CpuView {
    match tgt {
        Reg8::A => spec_reg8_write(s, Reg8::A, v),
        Reg8::B => spec_reg8_write(s, Reg8::B, v),
        Reg8::C => spec_reg8_write(s, Reg8::C, v),
        Reg8::D => spec_reg8_write(s, Reg8::D, v),
        Reg8::E => spec_reg8_write(s, Reg8::E, v),
        Reg8::H => spec_reg8_write(s, Reg8::H, v),
        Reg8::L => spec_reg8_write(s, Reg8::L, v),
        Reg8::BCI => s.write_mem(s.regs.spec_bc(), v),
        Reg8::DEI => s.write_mem(s.regs.spec_de(), v),
        Reg8::HLI => s.write_mem(s.regs.spec_hl(), v),
        Reg8::HLII => s.write_mem(s.regs.spec_hl(), v).with_hl(wrap16(s.regs.spec_hl() + 1)),
        Reg8::HLDI => s.write_mem(s.regs.spec_hl(), v).with_hl(wrap16(s.regs.spec_hl() - 1)),
        Reg8::D16I => s.write_mem(spec_imm16(s), v),
        Reg8::D8I => s.write_mem((0xFF00 + spec_imm8(s) as int) as u16, v),
        Reg8::CI => s.write_mem((0xFF00 + s.regs.c as int) as u16, v),
        Reg8::D8 => s,
    }
}

/// Bytes an 8-bit load occupies: one for the opcode, plus one for an 8-bit
/// immediate or high-page-immediate operand, plus two for an absolute
/// 16-bit-indirect operand.
pub open spec fn spec_ld_byte_len(tgt: Reg8, src: Reg8) -> int {
    if src is D8 {
        2
    } else if tgt is D8I {
        2
    } else if src is D8I {
        2
    } else if tgt is D16I {
        3
    } else if src is D16I {
        3
    } else {
        1
    }
}

/// An ALU instruction on the accumulator: read the operand, store the result
/// and flags, and step PC over the opcode (plus an immediate operand byte).
pub open spec fn spec_acc_op(s: CpuView, t: Target, r: (u8, FlagsRegister)) -> CpuView {
    let len: int = if t is Value {
        2
    } else {
        1
    };
    s.with_a(r.0).with_flags(r.1).with_pc(wrap16(s.pc + len))
}

/// A read-modify-write instruction: write the result back to the resolved
/// location, store the flags, and step PC by the instruction length.
pub open spec fn spec_rmw_op(s: CpuView, t: Target, r: (u8, FlagsRegister), len: int) -> CpuView {
    spec_loc_write(s, spec_resolve(s, t), r.0).with_flags(r.1).with_pc(wrap16(s.pc + len))
}

/// The operand byte a target currently holds.
pub open spec fn spec_operand(s: CpuView, t: Target) -> u8 {
    spec_loc_read(s, spec_resolve(s, t))
}

/// BIT n: zero is set iff bit `n` of the operand is clear, subtract cleared,
/// half-carry set; carry and the operand itself are untouched.
pub open spec fn spec_bit_op(s: CpuView, t: Target, n: u8) -> CpuView {
    let v = spec_operand(s, t);
    s.with_flags(
        FlagsRegister {
            zero: !spec_bit_test(v, n),
            subtract: false,
            half_carry: true,
            carry: s.regs.f.carry,
        },
    ).with_pc(wrap16(s.pc + 2))
}

/// RES n: clear bit `n` of the operand; no flag changes.
pub open spec fn spec_res_op(s: CpuView, t: Target, n: u8) -> CpuView {
    let v = spec_operand(s, t);
    spec_loc_write(s, spec_resolve(s, t), spec_clear_bit(v, n)).with_pc(wrap16(s.pc + 2))
}

/// SET n: set bit `n` of the operand; no flag changes.
pub open spec fn spec_set_op(s: CpuView, t: Target, n: u8) -> CpuView {
    let v = spec_operand(s, t);
    spec_loc_write(s, spec_resolve(s, t), spec_set_bit(v, n)).with_pc(wrap16(s.pc + 2))
}

/// The BIT instruction for a bit index.
pub open spec fn spec_bit_instr(n: u8, t: Target) -> Instruction {
    if n == 0 {
        Instruction::Bit0(t)
    } else if n == 1 {
        Instruction::Bit1(t)
    } else if n == 2 {
        Instruction::Bit2(t)
    } else if n == 3 {
        Instruction::Bit3(t)
    } else if n == 4 {
        Instruction::Bit4(t)
    } else if n == 5 {
        Instruction::Bit5(t)
    } else if n == 6 {
        Instruction::Bit6(t)
    } else {
        Instruction::Bit7(t)
    }
}

/// The RES instruction for a bit index.
pub open spec fn spec_res_instr(n: u8, t: Target) -> Instruction {
    if n == 0 {
        Instruction::Res0(t)
    } else if n == 1 {
        Instruction::Res1(t)
    } else if n == 2 {
        Instruction::Res2(t)
    } else if n == 3 {
        Instruction::Res3(t)
    } else if n == 4 {
        Instruction::Res4(t)
    } else if n == 5 {
        Instruction::Res5(t)
    } else if n == 6 {
        Instruction::Res6(t)
    } else {
        Instruction::Res7(t)
    }
}

/// The SET instruction for a bit index.
pub open spec fn spec_set_instr(n: u8, t: Target) -> Instruction {
    if n == 0 {
        Instruction::Set0(t)
    } else if n == 1 {
        Instruction::Set1(t)
    } else if n == 2 {
        Instruction::Set2(t)
    } else if n == 3 {
        Instruction::Set3(t)
    } else if n == 4 {
        Instruction::Set4(t)
    } else if n == 5 {
        Instruction::Set5(t)
    } else if n == 6 {
        Instruction::Set6(t)
    } else {
        Instruction::Set7(t)
    }
}

/// The complete transition relation: the state after executing one
/// well-formed instruction and adopting the returned program counter.
/// Opaque: proofs reveal it one instruction shape at a time.
#[verifier::opaque]
pub open spec fn spec_execute(s: CpuView, i: Instruction) -> CpuView {
    match i {
        Instruction::Add(t) => spec_acc_op(s, t, spec_alu_add(s.regs.a, spec_operand(s, t))),
        Instruction::Adc(t) => spec_acc_op(
            s,
            t,
            spec_alu_adc(s.regs.a, spec_operand(s, t), s.regs.f.carry),
        ),
        Instruction::Sub(t) => spec_acc_op(s, t, spec_alu_sub(s.regs.a, spec_operand(s, t))),
        Instruction::Sbc(t) => spec_acc_op(
            s,
            t,
            spec_alu_sbc(s.regs.a, spec_operand(s, t), s.regs.f.carry),
        ),
        Instruction::And(t) => spec_acc_op(s, t, spec_alu_and(s.regs.a, spec_operand(s, t))),
        Instruction::Or(t) => spec_acc_op(s, t, spec_alu_or(s.regs.a, spec_operand(s, t))),
        Instruction::Xor(t) => spec_acc_op(s, t, spec_alu_xor(s.regs.a, spec_operand(s, t))),
        Instruction::Cp(t) => {
            // CP discards the difference: flags only.
            let len: int = if t is Value {
                2
            } else {
                1
            };
            s.with_flags(spec_alu_sub(s.regs.a, spec_operand(s, t)).1).with_pc(wrap16(s.pc + len))
        },
        Instruction::AddHL(t) => {
            let hl = s.regs.spec_hl();
            let v: u16 = match t {
                AddHLTarget::BC => s.regs.spec_bc(),
                AddHLTarget::DE => s.regs.spec_de(),
                AddHLTarget::HL => s.regs.spec_hl(),
                AddHLTarget::SP => s.sp,
            };
            let f = FlagsRegister {
                zero: s.regs.f.zero,
                subtract: false,
                half_carry: hl as int % 4096 + v as int % 4096 > 4095,
                carry: hl as int + v as int > 65535,
            };
            s.with_hl(wrap16(hl + v)).with_flags(f).with_pc(wrap16(s.pc + 1))
        },
        Instruction::Inc(t) => match t {
            Target::Reg16(r) => {
                let s1 = match r {
                    Reg16::BC => s.with_bc(wrap16(s.regs.spec_bc() + 1)),
                    Reg16::DE => s.with_de(wrap16(s.regs.spec_de() + 1)),
                    Reg16::HL => s.with_hl(wrap16(s.regs.spec_hl() + 1)),
                    _ => s.with_sp(wrap16(s.sp + 1)),
                };
                s1.with_pc(wrap16(s.pc + 1))
            },
            _ => spec_rmw_op(s, t, spec_alu_inc(spec_operand(s, t), s.regs.f.carry), 1),
        },
        Instruction::Dec(t) => spec_rmw_op(s, t, spec_alu_dec(spec_operand(s, t), s.regs.f.carry), 1),
        Instruction::Rlc(t) => spec_rmw_op(s, t, spec_alu_rlc(spec_operand(s, t)), 2),
        Instruction::Rrc(t) => spec_rmw_op(s, t, spec_alu_rrc(spec_operand(s, t)), 2),
        Instruction::Rl(t) => spec_rmw_op(s, t, spec_alu_rl(spec_operand(s, t), s.regs.f.carry), 2),
        Instruction::Rr(t) => spec_rmw_op(s, t, spec_alu_rr(spec_operand(s, t), s.regs.f.carry), 2),
        Instruction::Sla(t) => spec_rmw_op(s, t, spec_alu_sla(spec_operand(s, t)), 2),
        Instruction::Sra(t) => spec_rmw_op(s, t, spec_alu_sra(spec_operand(s, t)), 2),
        Instruction::Swap(t) => spec_rmw_op(s, t, spec_alu_swap(spec_operand(s, t)), 2),
        Instruction::Srl(t) => spec_rmw_op(s, t, spec_alu_srl(spec_operand(s, t)), 2),
        Instruction::Bit0(t) => spec_bit_op(s, t, 0),
        Instruction::Bit1(t) => spec_bit_op(s, t, 1),
        Instruction::Bit2(t) => spec_bit_op(s, t, 2),
        Instruction::Bit3(t) => spec_bit_op(s, t, 3),
        Instruction::Bit4(t) => spec_bit_op(s, t, 4),
        Instruction::Bit5(t) => spec_bit_op(s, t, 5),
        Instruction::Bit6(t) => spec_bit_op(s, t, 6),
        Instruction::Bit7(t) => spec_bit_op(s, t, 7),
        Instruction::Res0(t) => spec_res_op(s, t, 0),
        Instruction::Res1(t) => spec_res_op(s, t, 1),
        Instruction::Res2(t) => spec_res_op(s, t, 2),
        Instruction::Res3(t) => spec_res_op(s, t, 3),
        Instruction::Res4(t) => spec_res_op(s, t, 4),
        Instruction::Res5(t) => spec_res_op(s, t, 5),
        Instruction::Res6(t) => spec_res_op(s, t, 6),
        Instruction::Res7(t) => spec_res_op(s, t, 7),
        Instruction::Set0(t) => spec_set_op(s, t, 0),
        Instruction::Set1(t) => spec_set_op(s, t, 1),
        Instruction::Set2(t) => spec_set_op(s, t, 2),
        Instruction::Set3(t) => spec_set_op(s, t, 3),
        Instruction::Set4(t) => spec_set_op(s, t, 4),
        Instruction::Set5(t) => spec_set_op(s, t, 5),
        Instruction::Set6(t) => spec_set_op(s, t, 6),
        Instruction::Set7(t) => spec_set_op(s, t, 7),
        Instruction::Cpl => {
            let f = FlagsRegister { subtract: true, half_carry: true, ..s.regs.f };
            s.with_a((255 - s.regs.a as int) as u8).with_flags(f).with_pc(wrap16(s.pc + 1))
        },
        Instruction::Ccf => {
            let f = FlagsRegister { subtract: false, half_carry: false, carry: !s.regs.f.carry, ..s.regs.f };
            s.with_flags(f).with_pc(wrap16(s.pc + 1))
        },
        Instruction::Scf => {
            let f = FlagsRegister { subtract: false, half_carry: false, carry: true, ..s.regs.f };
            s.with_flags(f).with_pc(wrap16(s.pc + 1))
        },
        Instruction::Nop => s.with_pc(wrap16(s.pc + 1)),
        Instruction::Rlca => {
            let a = s.regs.a;
            let r = ((a as int % 128) * 2 + a as int / 128) as u8;
            let f = FlagsRegister {
                zero: false,
                subtract: false,
                half_carry: false,
                carry: a as int / 128 == 1,
            };
            s.with_a(r).with_flags(f).with_pc(wrap16(s.pc + 1))
        },
        Instruction::Rla => {
            let a = s.regs.a;
            let cin: int = if s.regs.f.carry {
                1
            } else {
                0
            };
            let r = ((a as int % 128) * 2 + cin) as u8;
            let f = FlagsRegister {
                zero: false,
                subtract: false,
                half_carry: false,
                carry: a as int / 128 == 1,
            };
            s.with_a(r).with_flags(f).with_pc(wrap16(s.pc + 1))
        },
        Instruction::Rrca => {
            let a = s.regs.a;
            let r = (a as int / 2 + (a as int % 2) * 128) as u8;
            let f = FlagsRegister {
                zero: false,
                subtract: false,
                half_carry: false,
                carry: a as int % 2 == 1,
            };
            s.with_a(r).with_flags(f).with_pc(wrap16(s.pc + 1))
        },
        Instruction::Rra => {
            let a = s.regs.a;
            let cin: int = if s.regs.f.carry {
                1
            } else {
                0
            };
            let r = (a as int / 2 + cin * 128) as u8;
            let f = FlagsRegister {
                zero: false,
                subtract: false,
                half_carry: false,
                carry: a as int % 2 == 1,
            };
            s.with_a(r).with_flags(f).with_pc(wrap16(s.pc + 1))
        },
        Instruction::HALT => s.with_pc(wrap16(s.pc + 1)),
        Instruction::DI => s.with_pc(wrap16(s.pc + 1)),
        Instruction::JP(test) => {
            if spec_jump_taken(s.regs.f, test) {
                s.with_pc(spec_imm16(s))
            } else {
                s.with_pc(wrap16(s.pc + 3))
            }
        },
        Instruction::JR(test) => {
            if spec_jump_taken(s.regs.f, test) {
                s.with_pc(wrap16(s.pc + 2 + spec_signed8(spec_imm8(s))))
            } else {
                s.with_pc(wrap16(s.pc + 2))
            }
        },
        Instruction::JPHL => s.with_pc(s.regs.spec_hl()),
        Instruction::CALL(test) => {
            let ret = wrap16(s.pc + 3);
            if spec_jump_taken(s.regs.f, test) {
                // The target bytes are read after the push has written the
                // return address, exactly as the hardware sequence does.
                let s1 = spec_push16(s, ret);
                let target = spec_pair(
                    s1.read_mem(wrap16(s.pc + 2)),
                    s1.read_mem(wrap16(s.pc + 1)),
                );
                s1.with_pc(target)
            } else {
                s.with_pc(ret)
            }
        },
        Instruction::RET(test) => {
            if spec_jump_taken(s.regs.f, test) {
                let (s1, v) = spec_pop16(s);
                s1.with_pc(v)
            } else {
                s.with_pc(wrap16(s.pc + 1))
            }
        },
        Instruction::PUSH(st) => {
            let v: u16 = match st {
                StackTarget::AF => s.regs.spec_af(),
                StackTarget::BC => s.regs.spec_bc(),
                StackTarget::DE => s.regs.spec_de(),
                StackTarget::HL => s.regs.spec_hl(),
            };
            spec_push16(s, v).with_pc(wrap16(s.pc + 1))
        },
        Instruction::POP(st) => {
            let (s1, v) = spec_pop16(s);
            let s2 = match st {
                StackTarget::AF => s1.with_af(v),
                StackTarget::BC => s1.with_bc(v),
                StackTarget::DE => s1.with_de(v),
                StackTarget::HL => s1.with_hl(v),
            };
            s2.with_pc(wrap16(s.pc + 1))
        },
        Instruction::LD(lt) => match lt {
            LoadType::Word(target, _) => {
                let v = spec_imm16(s);
                let s1 = match target {
                    Reg16::BC => s.with_bc(v),
                    Reg16::DE => s.with_de(v),
                    Reg16::HL => s.with_hl(v),
                    _ => s.with_sp(v),
                };
                s1.with_pc(wrap16(s.pc + 3))
            },
            LoadType::Byte(target, source) => {
                let (v, s1) = spec_ld_source(s, source);
                let s2 = spec_ld_target(s1, target, v);
                s2.with_pc(wrap16(s.pc + spec_ld_byte_len(target, source)))
            },
        },
    }
}

/// Executing the BIT instruction of index `n` is `spec_bit_op` at `n`.
pub proof fn lemma_bit_instr_effect(s: CpuView, t: Target, n: u8)
    requires
        n < 8,
    ensures
        spec_execute(s, spec_bit_instr(n, t)) == spec_bit_op(s, t, n),
{
    reveal(spec_execute);
}

/// Executing the RES instruction of index `n` is `spec_res_op` at `n`.
pub proof fn lemma_res_instr_effect(s: CpuView, t: Target, n: u8)
    requires
        n < 8,
    ensures
        spec_execute(s, spec_res_instr(n, t)) == spec_res_op(s, t, n),
{
    reveal(spec_execute);
}

/// Executing the SET instruction of index `n` is `spec_set_op` at `n`.
pub proof fn lemma_set_instr_effect(s: CpuView, t: Target, n: u8)
    requires
        n < 8,
    ensures
        spec_execute(s, spec_set_instr(n, t)) == spec_set_op(s, t, n),
{
    reveal(spec_execute);
}

} // verus!
