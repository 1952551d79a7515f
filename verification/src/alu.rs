//! Pure 8-bit ALU: arithmetic, logic, rotate/shift and single-bit operations
//! together with their exact flag results. Every operation is total; each
//! executable function is pinned to its specification function.

use vstd::prelude::*;
use crate::reg::FlagsRegister;

verus! {

/// ADD: result is the low byte of the sum; carry on unsigned overflow,
/// half-carry on low-nibble overflow, zero from the result, subtract clear.
pub open spec fn spec_alu_add(a: u8, x: u8) -> (u8, FlagsRegister) {
    let r = ((a as int + x as int) % 256) as u8;
    (
        r,
        FlagsRegister {
            zero: r == 0,
            subtract: false,
            half_carry: a as int % 16 + x as int % 16 > 15,
            carry: a as int + x as int > 255,
        },
    )
}

/// ADC: as ADD but folding the incoming carry into both the sum and the two
/// carry-out conditions.
pub open spec fn spec_alu_adc(a: u8, x: u8, carry_in: bool) -> (u8, FlagsRegister) {
    let cin: int = if carry_in {
        1
    } else {
        0
    };
    let r = ((a as int + x as int + cin) % 256) as u8;
    (
        r,
        FlagsRegister {
            zero: r == 0,
            subtract: false,
            half_carry: a as int % 16 + x as int % 16 + cin > 15,
            carry: a as int + x as int + cin > 255,
        },
    )
}

/// SUB and CP: result is the low byte of the difference; carry on unsigned
/// underflow, half-carry on low-nibble borrow, subtract set.
pub open spec fn spec_alu_sub(a: u8, x: u8) -> (u8, FlagsRegister) {
    let r = ((a as int - x as int) % 256) as u8;
    (
        r,
        FlagsRegister {
            zero: r == 0,
            subtract: true,
            half_carry: (a as int % 16 - x as int % 16) < 0,
            carry: (a as int - x as int) < 0,
        },
    )
}

/// SBC: as SUB but folding the incoming carry into both the difference and
/// the two borrow conditions.
pub open spec fn spec_alu_sbc(a: u8, x: u8, carry_in: bool) -> (u8, FlagsRegister) {
    let cin: int = if carry_in {
        1
    } else {
        0
    };
    let r = ((a as int - x as int - cin) % 256) as u8;
    (
        r,
        FlagsRegister {
            zero: r == 0,
            subtract: true,
            half_carry: (a as int % 16 - x as int % 16 - cin) < 0,
            carry: (a as int - x as int - cin) < 0,
        },
    )
}

/// AND: zero from the result, half-carry set, subtract and carry clear.
pub open spec fn spec_alu_and(a: u8, x: u8) -> (u8, FlagsRegister) {
    let r = a & x;
    (r, FlagsRegister { zero: r == 0, subtract: false, half_carry: true, carry: false })
}

/// OR: zero from the result, all other flags clear.
pub open spec fn spec_alu_or(a: u8, x: u8) -> (u8, FlagsRegister) {
    let r = a | x;
    (r, FlagsRegister { zero: r == 0, subtract: false, half_carry: false, carry: false })
}

/// XOR: zero from the result, all other flags clear.
pub open spec fn spec_alu_xor(a: u8, x: u8) -> (u8, FlagsRegister) {
    let r = a ^ x;
    (r, FlagsRegister { zero: r == 0, subtract: false, half_carry: false, carry: false })
}

/// INC on a byte: carry is unaffected (threaded through), half-carry on
/// low-nibble overflow, subtract clear.
pub open spec fn spec_alu_inc(v: u8, carry: bool) -> (u8, FlagsRegister) {
    let r = ((v as int + 1) % 256) as u8;
    (r, FlagsRegister { zero: r == 0, subtract: false, half_carry: v as int % 16 == 15, carry })
}

/// DEC on a byte: carry is unaffected, half-carry on low-nibble borrow,
/// subtract set.
pub open spec fn spec_alu_dec(v: u8, carry: bool) -> (u8, FlagsRegister) {
    let r = ((v as int - 1) % 256) as u8;
    (r, FlagsRegister { zero: r == 0, subtract: true, half_carry: v as int % 16 == 0, carry })
}

/// Flag layout shared by the CB rotate/shift group: zero from the result,
/// subtract and half-carry clear, carry from the bit shifted out.
pub open spec fn spec_shift_flags(r: u8, carry: bool) -> FlagsRegister {
    FlagsRegister { zero: r == 0, subtract: false, half_carry: false, carry }
}

/// Rotate left, re-inserting the bit that falls out (true rotate).
pub open spec fn spec_alu_rlc(v: u8) -> (u8, FlagsRegister) {
    let r = ((v as int % 128) * 2 + v as int / 128) as u8;
    (r, spec_shift_flags(r, v as int / 128 == 1))
}

/// Rotate right, re-inserting the bit that falls out (true rotate).
pub open spec fn spec_alu_rrc(v: u8) -> (u8, FlagsRegister) {
    let r = (v as int / 2 + (v as int % 2) * 128) as u8;
    (r, spec_shift_flags(r, v as int % 2 == 1))
}

/// Rotate left through carry: the old carry enters bit 0.
pub open spec fn spec_alu_rl(v: u8, carry_in: bool) -> (u8, FlagsRegister) {
    let cin: int = if carry_in {
        1
    } else {
        0
    };
    let r = ((v as int % 128) * 2 + cin) as u8;
    (r, spec_shift_flags(r, v as int / 128 == 1))
}

/// Rotate right through carry: the old carry enters bit 7.
pub open spec fn spec_alu_rr(v: u8, carry_in: bool) -> (u8, FlagsRegister) {
    let cin: int = if carry_in {
        1
    } else {
        0
    };
    let r = (v as int / 2 + cin * 128) as u8;
    (r, spec_shift_flags(r, v as int % 2 == 1))
}

/// Arithmetic shift left: bit 0 becomes 0, bit 7 falls into carry.
pub open spec fn spec_alu_sla(v: u8) -> (u8, FlagsRegister) {
    let r = ((v as int % 128) * 2) as u8;
    (r, spec_shift_flags(r, v as int / 128 == 1))
}

/// Arithmetic shift right: bit 7 is kept, bit 0 falls into carry.
pub open spec fn spec_alu_sra(v: u8) -> (u8, FlagsRegister) {
    let r = (v as int / 2 + (v as int / 128) * 128) as u8;
    (r, spec_shift_flags(r, v as int % 2 == 1))
}

/// SWAP: exchange the two nibbles; carry is cleared unconditionally.
pub open spec fn spec_alu_swap(v: u8) -> (u8, FlagsRegister) {
    let r = ((v as int % 16) * 16 + v as int / 16) as u8;
    (r, spec_shift_flags(r, false))
}

/// Logical shift right: bit 7 becomes 0, bit 0 falls into carry.
pub open spec fn spec_alu_srl(v: u8) -> (u8, FlagsRegister) {
    let r = (v as int / 2) as u8;
    (r, spec_shift_flags(r, v as int % 2 == 1))
}

/// Two to the power of a bit index below 8.
pub open spec fn spec_pow2(n: u8) -> u8 {
    if n == 0 {
        1
    } else if n == 1 {
        2
    } else if n == 2 {
        4
    } else if n == 3 {
        8
    } else if n == 4 {
        16
    } else if n == 5 {
        32
    } else if n == 6 {
        64
    } else {
        128
    }
}

/// Whether bit `n` of `v` is one.
pub open spec fn spec_bit_test(v: u8, n: u8) -> bool {
    (v as int / spec_pow2(n) as int) % 2 == 1
}

/// `v` with bit `n` forced to zero.
pub open spec fn spec_clear_bit(v: u8, n: u8) -> u8 {
    if spec_bit_test(v, n) {
        (v - spec_pow2(n)) as u8
    } else {
        v
    }
}

/// `v` with bit `n` forced to one.
pub open spec fn spec_set_bit(v: u8, n: u8) -> u8 {
    if spec_bit_test(v, n) {
        v
    } else {
        (v + spec_pow2(n)) as u8
    }
}

pub fn alu_add(a: u8, x: u8) -> (r: (u8, FlagsRegister))
    ensures
        r == spec_alu_add(a, x),
{
    let sum: u16 = a as u16 + x as u16;
    (
        (sum % 256) as u8,
        FlagsRegister {
            zero: sum % 256 == 0,
            subtract: false,
            half_carry: a % 16 + x % 16 > 15,
            carry: sum > 255,
        },
    )
}

pub fn alu_adc(a: u8, x: u8, carry_in: bool) -> (r: (u8, FlagsRegister))
    ensures
        r == spec_alu_adc(a, x, carry_in),
{
    let cin: u16 = if carry_in {
        1
    } else {
        0
    };
    let sum: u16 = a as u16 + x as u16 + cin;
    (
        (sum % 256) as u8,
        FlagsRegister {
            zero: sum % 256 == 0,
            subtract: false,
            half_carry: a as u16 % 16 + x as u16 % 16 + cin > 15,
            carry: sum > 255,
        },
    )
}

pub fn alu_sub(a: u8, x: u8) -> (r: (u8, FlagsRegister))
    ensures
        r == spec_alu_sub(a, x),
{
    let diff: u16 = (a as u16 + 256) - x as u16;
    let r8: u8 = (diff % 256) as u8;
    proof {
        vstd::arithmetic::div_mod::lemma_mod_add_multiples_vanish(a as int - x as int, 256);
    }
    (
        r8,
        FlagsRegister {
            zero: r8 == 0,
            subtract: true,
            half_carry: a % 16 < x % 16,
            carry: a < x,
        },
    )
}

pub fn alu_sbc(a: u8, x: u8, carry_in: bool) -> (r: (u8, FlagsRegister))
    ensures
        r == spec_alu_sbc(a, x, carry_in),
{
    let cin: u16 = if carry_in {
        1
    } else {
        0
    };
    let diff: u16 = (a as u16 + 512) - x as u16 - cin;
    let r8: u8 = (diff % 256) as u8;
    proof {
        let d = a as int - x as int - (if carry_in { 1int } else { 0int });
        vstd::arithmetic::div_mod::lemma_mod_add_multiples_vanish(d + 256, 256);
        vstd::arithmetic::div_mod::lemma_mod_add_multiples_vanish(d, 256);
    }
    (
        r8,
        FlagsRegister {
            zero: r8 == 0,
            subtract: true,
            half_carry: (a as u16 % 16) < (x as u16 % 16) + cin,
            carry: (a as u16) < (x as u16) + cin,
        },
    )
}

pub fn alu_and(a: u8, x: u8) -> (r: (u8, FlagsRegister))
    ensures
        r == spec_alu_and(a, x),
{
    let v = a & x;
    (v, FlagsRegister { zero: v == 0, subtract: false, half_carry: true, carry: false })
}

pub fn alu_or(a: u8, x: u8) -> (r: (u8, FlagsRegister))
    ensures
        r == spec_alu_or(a, x),
{
    let v = a | x;
    (v, FlagsRegister { zero: v == 0, subtract: false, half_carry: false, carry: false })
}

pub fn alu_xor(a: u8, x: u8) -> (r: (u8, FlagsRegister))
    ensures
        r == spec_alu_xor(a, x),
{
    let v = a ^ x;
    (v, FlagsRegister { zero: v == 0, subtract: false, half_carry: false, carry: false })
}

pub fn alu_inc(v: u8, carry: bool) -> (r: (u8, FlagsRegister))
    ensures
        r == spec_alu_inc(v, carry),
{
    let sum: u16 = v as u16 + 1;
    (
        (sum % 256) as u8,
        FlagsRegister { zero: sum % 256 == 0, subtract: false, half_carry: v % 16 == 15, carry },
    )
}

pub fn alu_dec(v: u8, carry: bool) -> (r: (u8, FlagsRegister))
    ensures
        r == spec_alu_dec(v, carry),
{
    let diff: u16 = (v as u16 + 256) - 1;
    let r8: u8 = (diff % 256) as u8;
    proof {
        vstd::arithmetic::div_mod::lemma_mod_add_multiples_vanish(v as int - 1, 256);
    }
    (r8, FlagsRegister { zero: r8 == 0, subtract: true, half_carry: v % 16 == 0, carry })
}

pub fn alu_rlc(v: u8) -> (r: (u8, FlagsRegister))
    ensures
        r == spec_alu_rlc(v),
{
    let r8: u8 = (v % 128) * 2 + v / 128;
    (r8, FlagsRegister { zero: r8 == 0, subtract: false, half_carry: false, carry: v / 128 == 1 })
}

pub fn alu_rrc(v: u8) -> (r: (u8, FlagsRegister))
    ensures
        r == spec_alu_rrc(v),
{
    let r8: u8 = v / 2 + (v % 2) * 128;
    (r8, FlagsRegister { zero: r8 == 0, subtract: false, half_carry: false, carry: v % 2 == 1 })
}

pub fn alu_rl(v: u8, carry_in: bool) -> (r: (u8, FlagsRegister))
    ensures
        r == spec_alu_rl(v, carry_in),
{
    let cin: u8 = if carry_in {
        1
    } else {
        0
    };
    let r8: u8 = (v % 128) * 2 + cin;
    (r8, FlagsRegister { zero: r8 == 0, subtract: false, half_carry: false, carry: v / 128 == 1 })
}

pub fn alu_rr(v: u8, carry_in: bool) -> (r: (u8, FlagsRegister))
    ensures
        r == spec_alu_rr(v, carry_in),
{
    let cin: u8 = if carry_in {
        1
    } else {
        0
    };
    let r8: u8 = v / 2 + cin * 128;
    (r8, FlagsRegister { zero: r8 == 0, subtract: false, half_carry: false, carry: v % 2 == 1 })
}

pub fn alu_sla(v: u8) -> (r: (u8, FlagsRegister))
    ensures
        r == spec_alu_sla(v),
{
    let r8: u8 = (v % 128) * 2;
    (r8, FlagsRegister { zero: r8 == 0, subtract: false, half_carry: false, carry: v / 128 == 1 })
}

pub fn alu_sra(v: u8) -> (r: (u8, FlagsRegister))
    ensures
        r == spec_alu_sra(v),
{
    let r8: u8 = v / 2 + (v / 128) * 128;
    (r8, FlagsRegister { zero: r8 == 0, subtract: false, half_carry: false, carry: v % 2 == 1 })
}

pub fn alu_swap(v: u8) -> (r: (u8, FlagsRegister))
    ensures
        r == spec_alu_swap(v),
{
    let r8: u8 = (v % 16) * 16 + v / 16;
    (r8, FlagsRegister { zero: r8 == 0, subtract: false, half_carry: false, carry: false })
}

pub fn alu_srl(v: u8) -> (r: (u8, FlagsRegister))
    ensures
        r == spec_alu_srl(v),
{
    let r8: u8 = v / 2;
    (r8, FlagsRegister { zero: r8 == 0, subtract: false, half_carry: false, carry: v % 2 == 1 })
}

pub fn pow2(n: u8) -> (r: u8)
    requires
        n < 8,
    ensures
        r == spec_pow2(n),
{
    if n == 0 {
        1
    } else if n == 1 {
        2
    } else if n == 2 {
        4
    } else if n == 3 {
        8
    } else if n == 4 {
        16
    } else if n == 5 {
        32
    } else if n == 6 {
        64
    } else {
        128
    }
}

pub fn bit_test(v: u8, n: u8) -> (r: bool)
    requires
        n < 8,
    ensures
        r == spec_bit_test(v, n),
{
    let p = pow2(n);
    (v / p) % 2 == 1
}

pub fn clear_bit(v: u8, n: u8) -> (r: u8)
    requires
        n < 8,
    ensures
        r == spec_clear_bit(v, n),
{
    let p = pow2(n);
    if (v / p) % 2 == 1 {
        v - p
    } else {
        v
    }
}

pub fn set_bit(v: u8, n: u8) -> (r: u8)
    requires
        n < 8,
    ensures
        r == spec_set_bit(v, n),
{
    let p = pow2(n);
    if (v / p) % 2 == 1 {
        v
    } else {
        proof {
            lemma_bit_clear_headroom(v, n);
        }
        v + p
    }
}

/// A byte whose bit `n` is clear leaves room to add two to the `n`.
proof fn lemma_bit_clear_headroom(v: u8, n: u8)
    requires
        n < 8,
        !spec_bit_test(v, n),
    ensures
        v + spec_pow2(n) <= 255,
{
    let w = v as int;
    if n == 0 {
        assert(w % 2 != 1);
        assert(w / 1 == w) by (nonlinear_arith);
        assert(v + spec_pow2(n) <= 255);
    } else if n == 1 {
        assert((w / 2) % 2 != 1);
        assert((w / 2) % 2 != 1 && w <= 255 ==> w + 2 <= 255) by (nonlinear_arith);
        assert(v + spec_pow2(n) <= 255);
    } else if n == 2 {
        assert((w / 4) % 2 != 1);
        assert((w / 4) % 2 != 1 && w <= 255 ==> w + 4 <= 255) by (nonlinear_arith);
        assert(v + spec_pow2(n) <= 255);
    } else if n == 3 {
        assert((w / 8) % 2 != 1);
        assert((w / 8) % 2 != 1 && w <= 255 ==> w + 8 <= 255) by (nonlinear_arith);
        assert(v + spec_pow2(n) <= 255);
    } else if n == 4 {
        assert((w / 16) % 2 != 1);
        assert((w / 16) % 2 != 1 && w <= 255 ==> w + 16 <= 255) by (nonlinear_arith);
        assert(v + spec_pow2(n) <= 255);
    } else if n == 5 {
        assert((w / 32) % 2 != 1);
        assert((w / 32) % 2 != 1 && w <= 255 ==> w + 32 <= 255) by (nonlinear_arith);
        assert(v + spec_pow2(n) <= 255);
    } else if n == 6 {
        assert((w / 64) % 2 != 1);
        assert((w / 64) % 2 != 1 && w <= 255 ==> w + 64 <= 255) by (nonlinear_arith);
        assert(v + spec_pow2(n) <= 255);
    } else {
        assert((w / 128) % 2 != 1);
        assert((w / 128) % 2 != 1 && w <= 255 ==> w + 128 <= 255) by (nonlinear_arith);
        assert(v + spec_pow2(n) <= 255);
    }
}

} // verus!
