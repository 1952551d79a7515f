//! Laws of the instruction semantics, stated over the transition relation
//! itself and proved for every machine state.

use vstd::prelude::*;
use crate::decode::{Instruction, Reg8, StackTarget, Target};
use crate::semantics::{CpuView, spec_execute, wrap16, lemma_wrap16_add};
use crate::reg::lemma_flags_roundtrip;

verus! {

/// ADD A,B in any state: A becomes the low byte of the sum, carry is set iff
/// the sum exceeds 255, half-carry iff the low nibbles sum past 15, zero iff
/// the low byte of the sum is zero, and subtract is cleared.
pub proof fn lemma_add_flag_rules(s: CpuView)
    ensures
        ({
            let t = spec_execute(s, Instruction::Add(Target::Reg8(Reg8::B)));
            &&& t.regs.a == (s.regs.a + s.regs.b) % 256
            &&& t.regs.f.carry <==> s.regs.a + s.regs.b > 255
            &&& t.regs.f.half_carry <==> s.regs.a % 16 + s.regs.b % 16 > 15
            &&& t.regs.f.zero <==> (s.regs.a + s.regs.b) % 256 == 0
            &&& !t.regs.f.subtract
        }),
{
    reveal(spec_execute);
}

/// SUB A,A in any state: whatever A held, the result is zero with zero and
/// subtract set and half-carry and carry clear.
pub proof fn lemma_sub_self(s: CpuView)
    ensures
        ({
            let t = spec_execute(s, Instruction::Sub(Target::Reg8(Reg8::A)));
            &&& t.regs.a == 0
            &&& t.regs.f.zero
            &&& t.regs.f.subtract
            &&& !t.regs.f.half_carry
            &&& !t.regs.f.carry
        }),
{
    reveal(spec_execute);
}

/// The 16-bit value a stack instruction moves for each pair choice.
pub open spec fn spec_stack_pair(s: CpuView, pair: StackTarget) -> u16 {
    match pair {
        StackTarget::AF => s.regs.spec_af(),
        StackTarget::BC => s.regs.spec_bc(),
        StackTarget::DE => s.regs.spec_de(),
        StackTarget::HL => s.regs.spec_hl(),
    }
}

/// PUSH then POP of any pair, from any state: the pair holds its old value
/// again, SP is back where it started (net zero stack effect), and the two
/// stack bytes hold the value's high byte at SP-1 and low byte at SP-2.
pub proof fn lemma_push_pop_roundtrip(s: CpuView, pair: StackTarget)
    requires
        s.wf(),
    ensures
        ({
            let v = spec_stack_pair(s, pair);
            let s1 = spec_execute(s, Instruction::PUSH(pair));
            let s2 = spec_execute(s1, Instruction::POP(pair));
            &&& spec_stack_pair(s2, pair) == v
            &&& s2.sp == s.sp
            &&& s2.mem[wrap16(s.sp - 1) as int] == v as int / 256
            &&& s2.mem[wrap16(s.sp - 2) as int] == v as int % 256
        }),
{
    reveal(spec_execute);
    let v = spec_stack_pair(s, pair);
    let hi = (v as int / 256) as u8;
    let lo = (v as int % 256) as u8;
    let sp1 = wrap16(s.sp - 1);
    lemma_wrap16_add(s.sp - 1, -1);
    let sp2 = wrap16(s.sp - 2);
    assert(wrap16(sp1 as int - 1) == sp2);
    assert(sp1 != sp2);
    let s1 = spec_execute(s, Instruction::PUSH(pair));
    assert(s1.sp == sp2);
    assert(s1.mem == s.mem.update(sp1 as int, hi).update(sp2 as int, lo));
    assert(s1.mem[sp2 as int] == lo);
    assert(s1.mem[sp1 as int] == hi);
    lemma_wrap16_add(s.sp - 2, 1);
    assert(wrap16(sp2 as int + 1) == sp1);
    lemma_wrap16_add(s.sp - 1, 1);
    assert(wrap16(sp1 as int + 1) == wrap16(s.sp as int));
    assert(wrap16(s.sp as int) == s.sp);
    let s2 = spec_execute(s1, Instruction::POP(pair));
    assert(s2.sp == s.sp);
    assert(crate::reg::spec_pair(hi, lo) == v) by {
        vstd::arithmetic::div_mod::lemma_fundamental_div_mod(v as int, 256);
    };
    if pair is AF {
        // The flags byte pushed has a zero low nibble, so unpacking and
        // repacking it is the identity.
        let fb = crate::reg::spec_flags_to_byte(s.regs.f);
        vstd::arithmetic::div_mod::lemma_fundamental_div_mod_converse(
            v as int,
            256,
            s.regs.a as int,
            fb as int,
        );
        lemma_flags_roundtrip(s.regs.f);
        assert(spec_stack_pair(s2, pair) == v);
    } else {
        vstd::arithmetic::div_mod::lemma_fundamental_div_mod(v as int, 256);
        assert(spec_stack_pair(s2, pair) == v);
    }
}

} // verus!
