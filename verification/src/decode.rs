//! Instruction set and decoder: a pure map from an opcode byte (plus the
//! 0xCB-prefix flag) to a typed instruction, or `None` for a byte outside the
//! implemented subset of the SM83 opcode map. The tables below implement the
//! documented subset exactly; unlisted opcodes are a decode error for the
//! caller to surface, never silently skipped.

use vstd::prelude::*;

verus! {

/// An operand location descriptor for one instruction.
#[derive(Clone, Copy, Debug, PartialEq, Eq, Structural)]
pub enum Target {
    /// An 8-bit addressing form (register or byte-sized memory form).
    Reg8(Reg8),
    /// A 16-bit register pair, used only by the 16-bit INC forms.
    Reg16(Reg16),
    /// The byte in memory at the address held by a 16-bit pair.
    Reg16Indirect(Reg16),
    /// The 8-bit immediate following the opcode.
    Value,
}

/// 8-bit operand forms: the seven plain registers, an 8-bit immediate (D8),
/// pair-indirect forms (HLI, BCI, DEI), HL-indirect with post-increment
/// (HLII) or post-decrement (HLDI), absolute 16-bit indirect (D16I), and the
/// high-page forms 0xFF00+imm8 (D8I) and 0xFF00+C (CI).
#[derive(Clone, Copy, Debug, PartialEq, Eq, Structural)]
pub enum Reg8 {
    A,
    B,
    C,
    D,
    E,
    H,
    L,
    D8,
    HLI,
    BCI,
    DEI,
    HLII,
    HLDI,
    D16I,
    CI,
    D8I,
}

/// 16-bit operand forms: the four pairs, the stack pointer, and a 16-bit
/// immediate (D16) or immediate-indirect (I16).
#[derive(Clone, Copy, Debug, PartialEq, Eq, Structural)]
pub enum Reg16 {
    AF,
    BC,
    DE,
    HL,
    SP,
    D16,
    I16,
}

/// The pairs PUSH and POP can move to and from the stack.
#[derive(Clone, Copy, Debug, PartialEq, Eq, Structural)]
pub enum StackTarget {
    AF,
    BC,
    DE,
    HL,
}

/// The 16-bit sources ADD HL accepts.
#[derive(Clone, Copy, Debug, PartialEq, Eq, Structural)]
pub enum AddHLTarget {
    BC,
    DE,
    HL,
    SP,
}

/// The condition a jump, call or return is tested against.
#[derive(Clone, Copy, Debug, PartialEq, Eq, Structural)]
pub enum JumpTest {
    NotZero,
    Zero,
    NotCarry,
    Carry,
    Always,
}

/// The two load shapes: a 16-bit immediate load into a pair or SP, and the
/// general 8-bit load between two byte-sized operand forms.
#[derive(Clone, Copy, Debug, PartialEq, Eq, Structural)]
pub enum LoadType {
    Word(Reg16, Reg16),
    Byte(Reg8, Reg8),
}

/// One decoded instruction: an operation tag with its operand descriptors.
#[derive(Clone, Copy, Debug, PartialEq, Eq, Structural)]
pub enum Instruction {
    Add(Target),
    AddHL(AddHLTarget),
    Adc(Target),
    Sub(Target),
    Sbc(Target),
    Or(Target),
    And(Target),
    Xor(Target),
    Cp(Target),
    Inc(Target),
    Dec(Target),
    Rlc(Target),
    Rrc(Target),
    Rl(Target),
    Rr(Target),
    Sla(Target),
    Sra(Target),
    Swap(Target),
    Srl(Target),
    Bit0(Target),
    Bit1(Target),
    Bit2(Target),
    Bit3(Target),
    Bit4(Target),
    Bit5(Target),
    Bit6(Target),
    Bit7(Target),
    Res0(Target),
    Res1(Target),
    Res2(Target),
    Res3(Target),
    Res4(Target),
    Res5(Target),
    Res6(Target),
    Res7(Target),
    Set0(Target),
    Set1(Target),
    Set2(Target),
    Set3(Target),
    Set4(Target),
    Set5(Target),
    Set6(Target),
    Set7(Target),
    Cpl,
    Ccf,
    Scf,
    Nop,
    Rlca,
    Rla,
    Rrca,
    Rra,
    HALT,
    DI,
    JP(JumpTest),
    JR(JumpTest),
    JPHL,
    LD(LoadType),
    POP(StackTarget),
    PUSH(StackTarget),
    CALL(JumpTest),
    RET(JumpTest),
}

/// The seven plain registers: the 8-bit forms an ALU or read-modify-write
/// operand may directly name.
pub open spec fn spec_is_plain_reg8(r: Reg8) -> bool {
    match r {
        Reg8::A | Reg8::B | Reg8::C | Reg8::D | Reg8::E | Reg8::H | Reg8::L => true,
        _ => false,
    }
}

/// Whether a target resolves to a readable/writable byte location: a plain
/// register, a pair-indirect byte, or the immediate byte after the opcode.
/// A 16-bit register target does not.
pub open spec fn spec_resolves(t: Target) -> bool {
    match t {
        Target::Reg8(r) => spec_is_plain_reg8(r),
        Target::Reg16Indirect(_) => true,
        Target::Value => true,
        Target::Reg16(_) => false,
    }
}

/// Whether an instruction pairs its operation with addressing modes the
/// executor defines: every instruction the decoder emits is well formed, and
/// the executor requires well-formedness instead of faulting at run time.
pub open spec fn spec_wf_instruction(i: Instruction) -> bool {
    match i {
        Instruction::Add(t) | Instruction::Adc(t) | Instruction::Sub(t) | Instruction::Sbc(t)
        | Instruction::Or(t) | Instruction::And(t) | Instruction::Xor(t) | Instruction::Cp(t)
        | Instruction::Dec(t) | Instruction::Rlc(t) | Instruction::Rrc(t) | Instruction::Rl(t)
        | Instruction::Rr(t) | Instruction::Sla(t) | Instruction::Sra(t) | Instruction::Swap(t)
        | Instruction::Srl(t) | Instruction::Bit0(t) | Instruction::Bit1(t) | Instruction::Bit2(t)
        | Instruction::Bit3(t) | Instruction::Bit4(t) | Instruction::Bit5(t) | Instruction::Bit6(t)
        | Instruction::Bit7(t) | Instruction::Res0(t) | Instruction::Res1(t) | Instruction::Res2(t)
        | Instruction::Res3(t) | Instruction::Res4(t) | Instruction::Res5(t) | Instruction::Res6(t)
        | Instruction::Res7(t) | Instruction::Set0(t) | Instruction::Set1(t) | Instruction::Set2(t)
        | Instruction::Set3(t) | Instruction::Set4(t) | Instruction::Set5(t) | Instruction::Set6(t)
        | Instruction::Set7(t) => spec_resolves(t),
        Instruction::Inc(t) => match t {
            Target::Reg16(r) => match r {
                Reg16::BC | Reg16::DE | Reg16::HL | Reg16::SP => true,
                _ => false,
            },
            _ => spec_resolves(t),
        },
        Instruction::LD(lt) => match lt {
            LoadType::Word(target, source) => {
                &&& source is D16
                &&& match target {
                    Reg16::BC | Reg16::DE | Reg16::HL | Reg16::SP => true,
                    _ => false,
                }
            },
            LoadType::Byte(target, _) => !(target is D8),
        },
        _ => true,
    }
}

/// The operand column shared by the CB table, the LD block and the ALU block:
/// columns 0..=5 and 7 are plain registers, column 6 is the HL-indirect byte.
pub open spec fn spec_column_target(col: u8) -> Target {
    if col == 0 {
        Target::Reg8(Reg8::B)
    } else if col == 1 {
        Target::Reg8(Reg8::C)
    } else if col == 2 {
        Target::Reg8(Reg8::D)
    } else if col == 3 {
        Target::Reg8(Reg8::E)
    } else if col == 4 {
        Target::Reg8(Reg8::H)
    } else if col == 5 {
        Target::Reg8(Reg8::L)
    } else if col == 6 {
        Target::Reg16Indirect(Reg16::HL)
    } else {
        Target::Reg8(Reg8::A)
    }
}

/// The same column for the LD block, as an 8-bit operand form.
pub open spec fn spec_column_reg8(col: u8) -> Reg8 {
    if col == 0 {
        Reg8::B
    } else if col == 1 {
        Reg8::C
    } else if col == 2 {
        Reg8::D
    } else if col == 3 {
        Reg8::E
    } else if col == 4 {
        Reg8::H
    } else if col == 5 {
        Reg8::L
    } else if col == 6 {
        Reg8::HLI
    } else {
        Reg8::A
    }
}

/// The CB-prefixed table: row `byte / 8` selects the operation, column
/// `byte % 8` the operand. Every prefixed byte decodes.
pub open spec fn spec_decode_prefixed(byte: u8) -> Option<Instruction> {
    let t = spec_column_target((byte as int % 8) as u8);
    let row = byte as int / 8;
    if row == 0 {
        Some(Instruction::Rlc(t))
    } else if row == 1 {
        Some(Instruction::Rrc(t))
    } else if row == 2 {
        Some(Instruction::Rl(t))
    } else if row == 3 {
        Some(Instruction::Rr(t))
    } else if row == 4 {
        Some(Instruction::Sla(t))
    } else if row == 5 {
        Some(Instruction::Sra(t))
    } else if row == 6 {
        Some(Instruction::Swap(t))
    } else if row == 7 {
        Some(Instruction::Srl(t))
    } else if row == 8 {
        Some(Instruction::Bit0(t))
    } else if row == 9 {
        Some(Instruction::Bit1(t))
    } else if row == 10 {
        Some(Instruction::Bit2(t))
    } else if row == 11 {
        Some(Instruction::Bit3(t))
    } else if row == 12 {
        Some(Instruction::Bit4(t))
    } else if row == 13 {
        Some(Instruction::Bit5(t))
    } else if row == 14 {
        Some(Instruction::Bit6(t))
    } else if row == 15 {
        Some(Instruction::Bit7(t))
    } else if row == 16 {
        Some(Instruction::Res0(t))
    } else if row == 17 {
        Some(Instruction::Res1(t))
    } else if row == 18 {
        Some(Instruction::Res2(t))
    } else if row == 19 {
        Some(Instruction::Res3(t))
    } else if row == 20 {
        Some(Instruction::Res4(t))
    } else if row == 21 {
        Some(Instruction::Res5(t))
    } else if row == 22 {
        Some(Instruction::Res6(t))
    } else if row == 23 {
        Some(Instruction::Res7(t))
    } else if row == 24 {
        Some(Instruction::Set0(t))
    } else if row == 25 {
        Some(Instruction::Set1(t))
    } else if row == 26 {
        Some(Instruction::Set2(t))
    } else if row == 27 {
        Some(Instruction::Set3(t))
    } else if row == 28 {
        Some(Instruction::Set4(t))
    } else if row == 29 {
        Some(Instruction::Set5(t))
    } else if row == 30 {
        Some(Instruction::Set6(t))
    } else {
        Some(Instruction::Set7(t))
    }
}

/// The ALU block 0x80..=0xBF: row `(byte - 0x80) / 8` selects the operation,
/// column `byte % 8` the operand.
pub open spec fn spec_decode_alu_block(byte: u8) -> Instruction {
    let t = spec_column_target((byte as int % 8) as u8);
    let row = (byte as int - 0x80) / 8;
    if row == 0 {
        Instruction::Add(t)
    } else if row == 1 {
        Instruction::Adc(t)
    } else if row == 2 {
        Instruction::Sub(t)
    } else if row == 3 {
        Instruction::Sbc(t)
    } else if row == 4 {
        Instruction::And(t)
    } else if row == 5 {
        Instruction::Xor(t)
    } else if row == 6 {
        Instruction::Or(t)
    } else {
        Instruction::Cp(t)
    }
}

/// The plain table: the LD block 0x40..=0x7F (0x76 is HALT) and the ALU block
/// 0x80..=0xBF are regular; the rest is listed entry by entry. Unlisted bytes
/// yield `None`.
pub open spec fn spec_decode_not_prefixed(byte: u8) -> Option<Instruction> {
    if 0x40 <= byte && byte <= 0x7F {
        if byte == 0x76 {
            Some(Instruction::HALT)
        } else {
            Some(Instruction::LD(LoadType::Byte(
                spec_column_reg8(((byte as int - 0x40) / 8) as u8),
                spec_column_reg8((byte as int % 8) as u8),
            )))
        }
    } else if 0x80 <= byte && byte <= 0xBF {
        Some(spec_decode_alu_block(byte))
    } else {
        match byte {
            0x00 => Some(Instruction::Nop),
            0x07 => Some(Instruction::Rlca),
            0x0F => Some(Instruction::Rrca),
            0x17 => Some(Instruction::Rla),
            0x1F => Some(Instruction::Rra),
            0x2F => Some(Instruction::Cpl),
            0x37 => Some(Instruction::Scf),
            0x3F => Some(Instruction::Ccf),
            0x04 => Some(Instruction::Inc(Target::Reg8(Reg8::B))),
            0x0C => Some(Instruction::Inc(Target::Reg8(Reg8::C))),
            0x14 => Some(Instruction::Inc(Target::Reg8(Reg8::D))),
            0x1C => Some(Instruction::Inc(Target::Reg8(Reg8::E))),
            0x24 => Some(Instruction::Inc(Target::Reg8(Reg8::H))),
            0x2C => Some(Instruction::Inc(Target::Reg8(Reg8::L))),
            0x34 => Some(Instruction::Inc(Target::Reg16Indirect(Reg16::HL))),
            0x3C => Some(Instruction::Inc(Target::Reg8(Reg8::A))),
            0x03 => Some(Instruction::Inc(Target::Reg16(Reg16::BC))),
            0x13 => Some(Instruction::Inc(Target::Reg16(Reg16::DE))),
            0x23 => Some(Instruction::Inc(Target::Reg16(Reg16::HL))),
            0x33 => Some(Instruction::Inc(Target::Reg16(Reg16::SP))),
            0x05 => Some(Instruction::Dec(Target::Reg8(Reg8::B))),
            0x0D => Some(Instruction::Dec(Target::Reg8(Reg8::C))),
            0x15 => Some(Instruction::Dec(Target::Reg8(Reg8::D))),
            0x1D => Some(Instruction::Dec(Target::Reg8(Reg8::E))),
            0x25 => Some(Instruction::Dec(Target::Reg8(Reg8::H))),
            0x2D => Some(Instruction::Dec(Target::Reg8(Reg8::L))),
            0x35 => Some(Instruction::Dec(Target::Reg16Indirect(Reg16::HL))),
            0x3D => Some(Instruction::Dec(Target::Reg8(Reg8::A))),
            0xC6 => Some(Instruction::Add(Target::Value)),
            0x09 => Some(Instruction::AddHL(AddHLTarget::BC)),
            0x19 => Some(Instruction::AddHL(AddHLTarget::DE)),
            0x29 => Some(Instruction::AddHL(AddHLTarget::HL)),
            0x39 => Some(Instruction::AddHL(AddHLTarget::SP)),
            0xCE => Some(Instruction::Adc(Target::Value)),
            0xD6 => Some(Instruction::Sub(Target::Value)),
            0xDE => Some(Instruction::Sbc(Target::Value)),
            0xE6 => Some(Instruction::And(Target::Value)),
            0xEE => Some(Instruction::Xor(Target::Value)),
            0xF6 => Some(Instruction::Or(Target::Value)),
            0xFE => Some(Instruction::Cp(Target::Value)),
            0xC2 => Some(Instruction::JP(JumpTest::NotZero)),
            0xC3 => Some(Instruction::JP(JumpTest::Always)),
            0xD2 => Some(Instruction::JP(JumpTest::NotCarry)),
            0xCA => Some(Instruction::JP(JumpTest::Zero)),
            0xDA => Some(Instruction::JP(JumpTest::Carry)),
            0xE9 => Some(Instruction::JPHL),
            0x20 => Some(Instruction::JR(JumpTest::NotZero)),
            0x18 => Some(Instruction::JR(JumpTest::Always)),
            0x30 => Some(Instruction::JR(JumpTest::NotCarry)),
            0x28 => Some(Instruction::JR(JumpTest::Zero)),
            0x38 => Some(Instruction::JR(JumpTest::Carry)),
            0x01 => Some(Instruction::LD(LoadType::Word(Reg16::BC, Reg16::D16))),
            0x11 => Some(Instruction::LD(LoadType::Word(Reg16::DE, Reg16::D16))),
            0x21 => Some(Instruction::LD(LoadType::Word(Reg16::HL, Reg16::D16))),
            0x31 => Some(Instruction::LD(LoadType::Word(Reg16::SP, Reg16::D16))),
            0x06 => Some(Instruction::LD(LoadType::Byte(Reg8::B, Reg8::D8))),
            0x16 => Some(Instruction::LD(LoadType::Byte(Reg8::D, Reg8::D8))),
            0x26 => Some(Instruction::LD(LoadType::Byte(Reg8::H, Reg8::D8))),
            0x36 => Some(Instruction::LD(LoadType::Byte(Reg8::HLI, Reg8::D8))),
            0x0E => Some(Instruction::LD(LoadType::Byte(Reg8::C, Reg8::D8))),
            0x1E => Some(Instruction::LD(LoadType::Byte(Reg8::E, Reg8::D8))),
            0x2E => Some(Instruction::LD(LoadType::Byte(Reg8::L, Reg8::D8))),
            0x3E => Some(Instruction::LD(LoadType::Byte(Reg8::A, Reg8::D8))),
            0x02 => Some(Instruction::LD(LoadType::Byte(Reg8::BCI, Reg8::A))),
            0x12 => Some(Instruction::LD(LoadType::Byte(Reg8::DEI, Reg8::A))),
            0x22 => Some(Instruction::LD(LoadType::Byte(Reg8::HLII, Reg8::A))),
            0x32 => Some(Instruction::LD(LoadType::Byte(Reg8::HLDI, Reg8::A))),
            0x0A => Some(Instruction::LD(LoadType::Byte(Reg8::A, Reg8::BCI))),
            0x1A => Some(Instruction::LD(LoadType::Byte(Reg8::A, Reg8::DEI))),
            0x2A => Some(Instruction::LD(LoadType::Byte(Reg8::A, Reg8::HLII))),
            0x3A => Some(Instruction::LD(LoadType::Byte(Reg8::A, Reg8::HLDI))),
            0xEA => Some(Instruction::LD(LoadType::Byte(Reg8::D16I, Reg8::A))),
            0xFA => Some(Instruction::LD(LoadType::Byte(Reg8::A, Reg8::D16I))),
            0xE0 => Some(Instruction::LD(LoadType::Byte(Reg8::D8I, Reg8::A))),
            0xE2 => Some(Instruction::LD(LoadType::Byte(Reg8::CI, Reg8::A))),
            0xF0 => Some(Instruction::LD(LoadType::Byte(Reg8::A, Reg8::D8I))),
            0xF2 => Some(Instruction::LD(LoadType::Byte(Reg8::A, Reg8::CI))),
            0xF3 => Some(Instruction::DI),
            0xC1 => Some(Instruction::POP(StackTarget::BC)),
            0xD1 => Some(Instruction::POP(StackTarget::DE)),
            0xE1 => Some(Instruction::POP(StackTarget::HL)),
            0xF1 => Some(Instruction::POP(StackTarget::AF)),
            0xC5 => Some(Instruction::PUSH(StackTarget::BC)),
            0xD5 => Some(Instruction::PUSH(StackTarget::DE)),
            0xE5 => Some(Instruction::PUSH(StackTarget::HL)),
            0xF5 => Some(Instruction::PUSH(StackTarget::AF)),
            0xC4 => Some(Instruction::CALL(JumpTest::NotZero)),
            0xCD => Some(Instruction::CALL(JumpTest::Always)),
            0xD4 => Some(Instruction::CALL(JumpTest::NotCarry)),
            0xCC => Some(Instruction::CALL(JumpTest::Zero)),
            0xDC => Some(Instruction::CALL(JumpTest::Carry)),
            0xC0 => Some(Instruction::RET(JumpTest::NotZero)),
            0xC9 => Some(Instruction::RET(JumpTest::Always)),
            0xD0 => Some(Instruction::RET(JumpTest::NotCarry)),
            0xC8 => Some(Instruction::RET(JumpTest::Zero)),
            0xD8 => Some(Instruction::RET(JumpTest::Carry)),
            _ => None,
        }
    }
}

/// The full decode map over both tables.
pub open spec fn spec_decode(byte: u8, prefixed: bool) -> Option<Instruction> {
    if prefixed {
        spec_decode_prefixed(byte)
    } else {
        spec_decode_not_prefixed(byte)
    }
}

fn column_target(col: u8) -> (r: Target)
    requires
        col < 8,
    ensures
        r == spec_column_target(col),
{
    if col == 0 {
        Target::Reg8(Reg8::B)
    } else if col == 1 {
        Target::Reg8(Reg8::C)
    } else if col == 2 {
        Target::Reg8(Reg8::D)
    } else if col == 3 {
        Target::Reg8(Reg8::E)
    } else if col == 4 {
        Target::Reg8(Reg8::H)
    } else if col == 5 {
        Target::Reg8(Reg8::L)
    } else if col == 6 {
        Target::Reg16Indirect(Reg16::HL)
    } else {
        Target::Reg8(Reg8::A)
    }
}

fn column_reg8(col: u8) -> (r: Reg8)
    requires
        col < 8,
    ensures
        r == spec_column_reg8(col),
{
    if col == 0 {
        Reg8::B
    } else if col == 1 {
        Reg8::C
    } else if col == 2 {
        Reg8::D
    } else if col == 3 {
        Reg8::E
    } else if col == 4 {
        Reg8::H
    } else if col == 5 {
        Reg8::L
    } else if col == 6 {
        Reg8::HLI
    } else {
        Reg8::A
    }
}

impl Instruction {
    /// Decode one opcode byte under the given prefix flag. `None` means the
    /// byte has no entry in the implemented opcode subset.
    pub fn from_byte(byte: u8, prefixed: bool) -> (r: Option<Instruction>)
        ensures
            r == spec_decode(byte, prefixed),
            r is Some ==> spec_wf_instruction(r.unwrap()),
    {
        if prefixed {
            Instruction::from_byte_prefixed(byte)
        } else {
            Instruction::from_byte_not_prefixed(byte)
        }
    }

    fn from_byte_prefixed(byte: u8) -> (r: Option<Instruction>)
        ensures
            r == spec_decode_prefixed(byte),
            r is Some ==> spec_wf_instruction(r.unwrap()),
    {
        let t = column_target(byte % 8);
        let row = byte / 8;
        if row == 0 {
            Some(Instruction::Rlc(t))
        } else if row == 1 {
            Some(Instruction::Rrc(t))
        } else if row == 2 {
            Some(Instruction::Rl(t))
        } else if row == 3 {
            Some(Instruction::Rr(t))
        } else if row == 4 {
            Some(Instruction::Sla(t))
        } else if row == 5 {
            Some(Instruction::Sra(t))
        } else if row == 6 {
            Some(Instruction::Swap(t))
        } else if row == 7 {
            Some(Instruction::Srl(t))
        } else if row == 8 {
            Some(Instruction::Bit0(t))
        } else if row == 9 {
            Some(Instruction::Bit1(t))
        } else if row == 10 {
            Some(Instruction::Bit2(t))
        } else if row == 11 {
            Some(Instruction::Bit3(t))
        } else if row == 12 {
            Some(Instruction::Bit4(t))
        } else if row == 13 {
            Some(Instruction::Bit5(t))
        } else if row == 14 {
            Some(Instruction::Bit6(t))
        } else if row == 15 {
            Some(Instruction::Bit7(t))
        } else if row == 16 {
            Some(Instruction::Res0(t))
        } else if row == 17 {
            Some(Instruction::Res1(t))
        } else if row == 18 {
            Some(Instruction::Res2(t))
        } else if row == 19 {
            Some(Instruction::Res3(t))
        } else if row == 20 {
            Some(Instruction::Res4(t))
        } else if row == 21 {
            Some(Instruction::Res5(t))
        } else if row == 22 {
            Some(Instruction::Res6(t))
        } else if row == 23 {
            Some(Instruction::Res7(t))
        } else if row == 24 {
            Some(Instruction::Set0(t))
        } else if row == 25 {
            Some(Instruction::Set1(t))
        } else if row == 26 {
            Some(Instruction::Set2(t))
        } else if row == 27 {
            Some(Instruction::Set3(t))
        } else if row == 28 {
            Some(Instruction::Set4(t))
        } else if row == 29 {
            Some(Instruction::Set5(t))
        } else if row == 30 {
            Some(Instruction::Set6(t))
        } else {
            Some(Instruction::Set7(t))
        }
    }

    fn from_byte_not_prefixed(byte: u8) -> (r: Option<Instruction>)
        ensures
            r == spec_decode_not_prefixed(byte),
            r is Some ==> spec_wf_instruction(r.unwrap()),
    {
        if 0x40 <= byte && byte <= 0x7F {
            if byte == 0x76 {
                Some(Instruction::HALT)
            } else {
                Some(Instruction::LD(LoadType::Byte(
                    column_reg8((byte - 0x40) / 8),
                    column_reg8(byte % 8),
                )))
            }
        } else if 0x80 <= byte && byte <= 0xBF {
            let t = column_target(byte % 8);
            let row = (byte - 0x80) / 8;
            if row == 0 {
                Some(Instruction::Add(t))
            } else if row == 1 {
                Some(Instruction::Adc(t))
            } else if row == 2 {
                Some(Instruction::Sub(t))
            } else if row == 3 {
                Some(Instruction::Sbc(t))
            } else if row == 4 {
                Some(Instruction::And(t))
            } else if row == 5 {
                Some(Instruction::Xor(t))
            } else if row == 6 {
                Some(Instruction::Or(t))
            } else {
                Some(Instruction::Cp(t))
            }
        } else {
            match byte {
                0x00 => Some(Instruction::Nop),
                0x07 => Some(Instruction::Rlca),
                0x0F => Some(Instruction::Rrca),
                0x17 => Some(Instruction::Rla),
                0x1F => Some(Instruction::Rra),
                0x2F => Some(Instruction::Cpl),
                0x37 => Some(Instruction::Scf),
                0x3F => Some(Instruction::Ccf),
                0x04 => Some(Instruction::Inc(Target::Reg8(Reg8::B))),
                0x0C => Some(Instruction::Inc(Target::Reg8(Reg8::C))),
                0x14 => Some(Instruction::Inc(Target::Reg8(Reg8::D))),
                0x1C => Some(Instruction::Inc(Target::Reg8(Reg8::E))),
                0x24 => Some(Instruction::Inc(Target::Reg8(Reg8::H))),
                0x2C => Some(Instruction::Inc(Target::Reg8(Reg8::L))),
                0x34 => Some(Instruction::Inc(Target::Reg16Indirect(Reg16::HL))),
                0x3C => Some(Instruction::Inc(Target::Reg8(Reg8::A))),
                0x03 => Some(Instruction::Inc(Target::Reg16(Reg16::BC))),
                0x13 => Some(Instruction::Inc(Target::Reg16(Reg16::DE))),
                0x23 => Some(Instruction::Inc(Target::Reg16(Reg16::HL))),
                0x33 => Some(Instruction::Inc(Target::Reg16(Reg16::SP))),
                0x05 => Some(Instruction::Dec(Target::Reg8(Reg8::B))),
                0x0D => Some(Instruction::Dec(Target::Reg8(Reg8::C))),
                0x15 => Some(Instruction::Dec(Target::Reg8(Reg8::D))),
                0x1D => Some(Instruction::Dec(Target::Reg8(Reg8::E))),
                0x25 => Some(Instruction::Dec(Target::Reg8(Reg8::H))),
                0x2D => Some(Instruction::Dec(Target::Reg8(Reg8::L))),
                0x35 => Some(Instruction::Dec(Target::Reg16Indirect(Reg16::HL))),
                0x3D => Some(Instruction::Dec(Target::Reg8(Reg8::A))),
                0xC6 => Some(Instruction::Add(Target::Value)),
                0x09 => Some(Instruction::AddHL(AddHLTarget::BC)),
                0x19 => Some(Instruction::AddHL(AddHLTarget::DE)),
                0x29 => Some(Instruction::AddHL(AddHLTarget::HL)),
                0x39 => Some(Instruction::AddHL(AddHLTarget::SP)),
                0xCE => Some(Instruction::Adc(Target::Value)),
                0xD6 => Some(Instruction::Sub(Target::Value)),
                0xDE => Some(Instruction::Sbc(Target::Value)),
                0xE6 => Some(Instruction::And(Target::Value)),
                0xEE => Some(Instruction::Xor(Target::Value)),
                0xF6 => Some(Instruction::Or(Target::Value)),
                0xFE => Some(Instruction::Cp(Target::Value)),
                0xC2 => Some(Instruction::JP(JumpTest::NotZero)),
                0xC3 => Some(Instruction::JP(JumpTest::Always)),
                0xD2 => Some(Instruction::JP(JumpTest::NotCarry)),
                0xCA => Some(Instruction::JP(JumpTest::Zero)),
                0xDA => Some(Instruction::JP(JumpTest::Carry)),
                0xE9 => Some(Instruction::JPHL),
                0x20 => Some(Instruction::JR(JumpTest::NotZero)),
                0x18 => Some(Instruction::JR(JumpTest::Always)),
                0x30 => Some(Instruction::JR(JumpTest::NotCarry)),
                0x28 => Some(Instruction::JR(JumpTest::Zero)),
                0x38 => Some(Instruction::JR(JumpTest::Carry)),
                0x01 => Some(Instruction::LD(LoadType::Word(Reg16::BC, Reg16::D16))),
                0x11 => Some(Instruction::LD(LoadType::Word(Reg16::DE, Reg16::D16))),
                0x21 => Some(Instruction::LD(LoadType::Word(Reg16::HL, Reg16::D16))),
                0x31 => Some(Instruction::LD(LoadType::Word(Reg16::SP, Reg16::D16))),
                0x06 => Some(Instruction::LD(LoadType::Byte(Reg8::B, Reg8::D8))),
                0x16 => Some(Instruction::LD(LoadType::Byte(Reg8::D, Reg8::D8))),
                0x26 => Some(Instruction::LD(LoadType::Byte(Reg8::H, Reg8::D8))),
                0x36 => Some(Instruction::LD(LoadType::Byte(Reg8::HLI, Reg8::D8))),
                0x0E => Some(Instruction::LD(LoadType::Byte(Reg8::C, Reg8::D8))),
                0x1E => Some(Instruction::LD(LoadType::Byte(Reg8::E, Reg8::D8))),
                0x2E => Some(Instruction::LD(LoadType::Byte(Reg8::L, Reg8::D8))),
                0x3E => Some(Instruction::LD(LoadType::Byte(Reg8::A, Reg8::D8))),
                0x02 => Some(Instruction::LD(LoadType::Byte(Reg8::BCI, Reg8::A))),
                0x12 => Some(Instruction::LD(LoadType::Byte(Reg8::DEI, Reg8::A))),
                0x22 => Some(Instruction::LD(LoadType::Byte(Reg8::HLII, Reg8::A))),
                0x32 => Some(Instruction::LD(LoadType::Byte(Reg8::HLDI, Reg8::A))),
                0x0A => Some(Instruction::LD(LoadType::Byte(Reg8::A, Reg8::BCI))),
                0x1A => Some(Instruction::LD(LoadType::Byte(Reg8::A, Reg8::DEI))),
                0x2A => Some(Instruction::LD(LoadType::Byte(Reg8::A, Reg8::HLII))),
                0x3A => Some(Instruction::LD(LoadType::Byte(Reg8::A, Reg8::HLDI))),
                0xEA => Some(Instruction::LD(LoadType::Byte(Reg8::D16I, Reg8::A))),
                0xFA => Some(Instruction::LD(LoadType::Byte(Reg8::A, Reg8::D16I))),
                0xE0 => Some(Instruction::LD(LoadType::Byte(Reg8::D8I, Reg8::A))),
                0xE2 => Some(Instruction::LD(LoadType::Byte(Reg8::CI, Reg8::A))),
                0xF0 => Some(Instruction::LD(LoadType::Byte(Reg8::A, Reg8::D8I))),
                0xF2 => Some(Instruction::LD(LoadType::Byte(Reg8::A, Reg8::CI))),
                0xF3 => Some(Instruction::DI),
                0xC1 => Some(Instruction::POP(StackTarget::BC)),
                0xD1 => Some(Instruction::POP(StackTarget::DE)),
                0xE1 => Some(Instruction::POP(StackTarget::HL)),
                0xF1 => Some(Instruction::POP(StackTarget::AF)),
                0xC5 => Some(Instruction::PUSH(StackTarget::BC)),
                0xD5 => Some(Instruction::PUSH(StackTarget::DE)),
                0xE5 => Some(Instruction::PUSH(StackTarget::HL)),
                0xF5 => Some(Instruction::PUSH(StackTarget::AF)),
                0xC4 => Some(Instruction::CALL(JumpTest::NotZero)),
                0xCD => Some(Instruction::CALL(JumpTest::Always)),
                0xD4 => Some(Instruction::CALL(JumpTest::NotCarry)),
                0xCC => Some(Instruction::CALL(JumpTest::Zero)),
                0xDC => Some(Instruction::CALL(JumpTest::Carry)),
                0xC0 => Some(Instruction::RET(JumpTest::NotZero)),
                0xC9 => Some(Instruction::RET(JumpTest::Always)),
                0xD0 => Some(Instruction::RET(JumpTest::NotCarry)),
                0xC8 => Some(Instruction::RET(JumpTest::Zero)),
                0xD8 => Some(Instruction::RET(JumpTest::Carry)),
                _ => None,
            }
        }
    }

    /// Whether this instruction pairs its operation with addressing modes the
    /// executor defines; true of everything the decoder emits.
    pub fn well_formed(&self) -> (r: bool)
        ensures
            r == spec_wf_instruction(*self),
    {
        match *self {
            Instruction::Add(t) | Instruction::Adc(t) | Instruction::Sub(t)
            | Instruction::Sbc(t) | Instruction::Or(t) | Instruction::And(t)
            | Instruction::Xor(t) | Instruction::Cp(t) | Instruction::Dec(t)
            | Instruction::Rlc(t) | Instruction::Rrc(t) | Instruction::Rl(t)
            | Instruction::Rr(t) | Instruction::Sla(t) | Instruction::Sra(t)
            | Instruction::Swap(t) | Instruction::Srl(t) | Instruction::Bit0(t)
            | Instruction::Bit1(t) | Instruction::Bit2(t) | Instruction::Bit3(t)
            | Instruction::Bit4(t) | Instruction::Bit5(t) | Instruction::Bit6(t)
            | Instruction::Bit7(t) | Instruction::Res0(t) | Instruction::Res1(t)
            | Instruction::Res2(t) | Instruction::Res3(t) | Instruction::Res4(t)
            | Instruction::Res5(t) | Instruction::Res6(t) | Instruction::Res7(t)
            | Instruction::Set0(t) | Instruction::Set1(t) | Instruction::Set2(t)
            | Instruction::Set3(t) | Instruction::Set4(t) | Instruction::Set5(t)
            | Instruction::Set6(t) | Instruction::Set7(t) => Instruction::target_resolves(t),
            Instruction::Inc(t) => match t {
                Target::Reg16(r) => matches!(r, Reg16::BC | Reg16::DE | Reg16::HL | Reg16::SP),
                _ => Instruction::target_resolves(t),
            },
            Instruction::LD(lt) => match lt {
                LoadType::Word(target, source) => matches!(source, Reg16::D16) && matches!(
                    target,
                    Reg16::BC | Reg16::DE | Reg16::HL | Reg16::SP,
                ),
                LoadType::Byte(target, _) => !matches!(target, Reg8::D8),
            },
            _ => true,
        }
    }

    fn target_resolves(t: Target) -> (r: bool)
        ensures
            r == spec_resolves(t),
    {
        match t {
            Target::Reg8(r) => matches!(
                r,
                Reg8::A | Reg8::B | Reg8::C | Reg8::D | Reg8::E | Reg8::H | Reg8::L,
            ),
            Target::Reg16Indirect(_) => true,
            Target::Value => true,
            Target::Reg16(_) => false,
        }
    }
}

} // verus!
