use sm83_core::cpu::{CpuState, CPU};
use sm83_core::decode::{Instruction, LoadType, Reg16, Reg8, Target};

fn blank_state() -> CpuState {
    CpuState {
        pc: 0,
        sp: 0,
        a: 0,
        b: 0,
        c: 0,
        d: 0,
        e: 0,
        f: 0,
        h: 0,
        l: 0,
        ime: 0,
        ie: 0,
        ei: 0,
        ram: Vec::new(),
    }
}

fn run_opcode(cpu: &mut CPU, opcode: u8, prefixed: bool) {
    let instruction = Instruction::from_byte(opcode, prefixed).unwrap();
    assert!(instruction.well_formed());
    let pc = cpu.execute(instruction);
    cpu.pc = pc;
}

#[test]
fn every_prefixed_opcode_decodes_and_is_well_formed() {
    for byte in 0u16..256 {
        let instruction = Instruction::from_byte(byte as u8, true).unwrap();
        assert!(instruction.well_formed());
    }
}

#[test]
fn unlisted_plain_opcodes_decode_to_none() {
    for byte in [0x08u8, 0x10, 0x27, 0xC7, 0xD3, 0xD9, 0xE3, 0xE4, 0xE8, 0xF4, 0xF8, 0xF9, 0xFB] {
        assert!(Instruction::from_byte(byte, false).is_none());
    }
}

#[test]
fn decoded_plain_opcodes_are_well_formed() {
    for byte in 0u16..256 {
        if let Some(instruction) = Instruction::from_byte(byte as u8, false) {
            assert!(instruction.well_formed());
        }
    }
}

#[test]
fn decode_spot_checks() {
    assert!(matches!(
        Instruction::from_byte(0x80, false),
        Some(Instruction::Add(Target::Reg8(Reg8::B)))
    ));
    assert!(matches!(
        Instruction::from_byte(0x86, false),
        Some(Instruction::Add(Target::Reg16Indirect(_)))
    ));
    assert!(matches!(Instruction::from_byte(0x76, false), Some(Instruction::HALT)));
    assert!(matches!(
        Instruction::from_byte(0x36, false),
        Some(Instruction::LD(LoadType::Byte(Reg8::HLI, Reg8::D8)))
    ));
    assert!(matches!(
        Instruction::from_byte(0x7C, true),
        Some(Instruction::Bit7(Target::Reg8(Reg8::H)))
    ));
    assert!(matches!(
        Instruction::from_byte(0xFE, true),
        Some(Instruction::Set7(Target::Reg16Indirect(_)))
    ));
}

#[test]
fn bit_seven_of_h_sets_flags_and_keeps_operand() {
    let mut cpu = CPU::new();
    let mut st = blank_state();
    st.pc = 0x100;
    st.h = 0x80;
    st.f = 0x10;
    cpu.set_state(&st);
    run_opcode(&mut cpu, 0x7C, true);
    assert!(!cpu.registers.f.zero);
    assert!(cpu.registers.f.half_carry);
    assert!(!cpu.registers.f.subtract);
    assert!(cpu.registers.f.carry);
    assert_eq!(cpu.registers.h, 0x80);
    assert_eq!(cpu.pc, 0x102);
}

#[test]
fn bit_on_clear_bit_sets_zero() {
    let mut cpu = CPU::new();
    let mut st = blank_state();
    st.h = 0x7F;
    cpu.set_state(&st);
    run_opcode(&mut cpu, 0x7C, true);
    assert!(cpu.registers.f.zero);
}

#[test]
fn res_and_set_change_exactly_one_bit() {
    let mut cpu = CPU::new();
    let mut st = blank_state();
    st.b = 0xFF;
    st.f = 0xF0;
    cpu.set_state(&st);
    run_opcode(&mut cpu, 0x90, true);
    assert_eq!(cpu.registers.b, 0xFB);
    assert_eq!(cpu.registers.f.to_byte(), 0xF0);
    run_opcode(&mut cpu, 0xD0, true);
    assert_eq!(cpu.registers.b, 0xFF);
}

#[test]
fn res_set_on_hl_indirect_byte() {
    let mut cpu = CPU::new();
    let mut st = blank_state();
    st.h = 0xC0;
    st.l = 0x10;
    st.ram = vec![(0xC010, 0b0000_0001)];
    cpu.set_state(&st);
    run_opcode(&mut cpu, 0x86, true);
    assert_eq!(cpu.bus.read_byte(0xC010), 0x00);
    run_opcode(&mut cpu, 0xFE, true);
    assert_eq!(cpu.bus.read_byte(0xC010), 0x80);
}

#[test]
fn rlca_rotates_and_clears_zero() {
    let mut cpu = CPU::new();
    let mut st = blank_state();
    st.a = 0x85;
    st.f = 0x80;
    cpu.set_state(&st);
    run_opcode(&mut cpu, 0x07, false);
    assert_eq!(cpu.registers.a, 0x0B);
    assert!(cpu.registers.f.carry);
    assert!(!cpu.registers.f.zero);
    assert_eq!(cpu.pc, 1);
}

#[test]
fn rla_routes_old_carry_into_bit_zero() {
    let mut cpu = CPU::new();
    let mut st = blank_state();
    st.a = 0x80;
    st.f = 0x00;
    cpu.set_state(&st);
    run_opcode(&mut cpu, 0x17, false);
    assert_eq!(cpu.registers.a, 0x00);
    assert!(cpu.registers.f.carry);

    let mut st2 = blank_state();
    st2.a = 0x00;
    st2.f = 0x10;
    cpu.set_state(&st2);
    run_opcode(&mut cpu, 0x17, false);
    assert_eq!(cpu.registers.a, 0x01);
    assert!(!cpu.registers.f.carry);
}

#[test]
fn rrca_and_rra() {
    let mut cpu = CPU::new();
    let mut st = blank_state();
    st.a = 0x01;
    cpu.set_state(&st);
    run_opcode(&mut cpu, 0x0F, false);
    assert_eq!(cpu.registers.a, 0x80);
    assert!(cpu.registers.f.carry);

    let mut st2 = blank_state();
    st2.a = 0x02;
    st2.f = 0x10;
    cpu.set_state(&st2);
    run_opcode(&mut cpu, 0x1F, false);
    assert_eq!(cpu.registers.a, 0x81);
    assert!(!cpu.registers.f.carry);
}

#[test]
fn cb_rlc_sets_zero_from_result() {
    let mut cpu = CPU::new();
    let st = blank_state();
    cpu.set_state(&st);
    run_opcode(&mut cpu, 0x00, true);
    assert_eq!(cpu.registers.b, 0);
    assert!(cpu.registers.f.zero);
    assert!(!cpu.registers.f.carry);
    assert_eq!(cpu.pc, 2);
}

#[test]
fn cb_rl_and_rr_use_carry_chain() {
    let mut cpu = CPU::new();
    let mut st = blank_state();
    st.d = 0x80;
    st.f = 0x00;
    cpu.set_state(&st);
    run_opcode(&mut cpu, 0x12, true);
    assert_eq!(cpu.registers.d, 0x00);
    assert!(cpu.registers.f.zero);
    assert!(cpu.registers.f.carry);

    let mut st2 = blank_state();
    st2.d = 0x01;
    st2.f = 0x10;
    cpu.set_state(&st2);
    run_opcode(&mut cpu, 0x1A, true);
    assert_eq!(cpu.registers.d, 0x80);
    assert!(cpu.registers.f.carry);
}

#[test]
fn cb_sla_sra_srl() {
    let mut cpu = CPU::new();
    let mut st = blank_state();
    st.e = 0xC1;
    cpu.set_state(&st);
    run_opcode(&mut cpu, 0x23, true);
    assert_eq!(cpu.registers.e, 0x82);
    assert!(cpu.registers.f.carry);

    let mut st2 = blank_state();
    st2.e = 0x81;
    cpu.set_state(&st2);
    run_opcode(&mut cpu, 0x2B, true);
    assert_eq!(cpu.registers.e, 0xC0);
    assert!(cpu.registers.f.carry);

    let mut st3 = blank_state();
    st3.e = 0x81;
    cpu.set_state(&st3);
    run_opcode(&mut cpu, 0x3B, true);
    assert_eq!(cpu.registers.e, 0x40);
    assert!(cpu.registers.f.carry);
}

#[test]
fn cb_swap_exchanges_nibbles_and_clears_carry() {
    let mut cpu = CPU::new();
    let mut st = blank_state();
    st.a = 0xAB;
    st.f = 0x10;
    cpu.set_state(&st);
    run_opcode(&mut cpu, 0x37, true);
    assert_eq!(cpu.registers.a, 0xBA);
    assert!(!cpu.registers.f.carry);
    assert!(!cpu.registers.f.zero);
}

#[test]
fn well_formed_rejects_invalid_pairings() {
    let bad = Instruction::Add(Target::Reg8(Reg8::D8));
    assert!(!bad.well_formed());
    let bad_ld = Instruction::LD(LoadType::Byte(Reg8::D8, Reg8::A));
    assert!(!bad_ld.well_formed());
    let bad_dec = Instruction::Dec(Target::Reg16(Reg16::BC));
    assert!(!bad_dec.well_formed());
    let good = Instruction::Inc(Target::Reg16(Reg16::BC));
    assert!(good.well_formed());
}
