use sm83_core::cpu::{CpuState, CPU};
use sm83_core::decode::Instruction;
use sm83_core::reg::FlagsRegister;

fn blank_state() -> CpuState {
    CpuState {
        pc: 0,
        sp: 0,
        a: 0,
        b: 0,
        c: 0,
        d: 0,
        e: 0,
        f: 0,
        h: 0,
        l: 0,
        ime: 0,
        ie: 0,
        ei: 0,
        ram: Vec::new(),
    }
}

fn run_opcode(cpu: &mut CPU, opcode: u8, prefixed: bool) {
    let instruction = Instruction::from_byte(opcode, prefixed).unwrap();
    assert!(instruction.well_formed());
    let pc = cpu.execute(instruction);
    cpu.pc = pc;
}

#[test]
fn flags_roundtrip_all_sixteen_combinations() {
    for bits in 0u8..16 {
        let flags = FlagsRegister {
            zero: bits & 8 != 0,
            subtract: bits & 4 != 0,
            half_carry: bits & 2 != 0,
            carry: bits & 1 != 0,
        };
        let byte = flags.to_byte();
        assert_eq!(byte & 0x0F, 0);
        assert_eq!(FlagsRegister::from_byte(byte), flags);
    }
}

#[test]
fn flags_from_byte_ignores_low_nibble() {
    let f = FlagsRegister::from_byte(0b1010_1111);
    assert!(f.zero);
    assert!(!f.subtract);
    assert!(f.half_carry);
    assert!(!f.carry);
    assert_eq!(f.to_byte(), 0b1010_0000);
}

#[test]
fn add_flag_rules_exhaustive() {
    let mut cpu = CPU::new();
    for a in 0u16..256 {
        for b in 0u16..256 {
            let mut st = blank_state();
            st.a = a as u8;
            st.b = b as u8;
            cpu.set_state(&st);
            run_opcode(&mut cpu, 0x80, false);
            let sum = a + b;
            assert_eq!(cpu.registers.a, (sum % 256) as u8);
            assert_eq!(cpu.registers.f.carry, sum > 255);
            assert_eq!(cpu.registers.f.half_carry, (a & 0xF) + (b & 0xF) > 0xF);
            assert_eq!(cpu.registers.f.zero, sum % 256 == 0);
            assert!(!cpu.registers.f.subtract);
            assert_eq!(cpu.pc, 1);
        }
    }
}

#[test]
fn sub_a_a_always_zero() {
    let mut cpu = CPU::new();
    for a in 0u16..256 {
        let mut st = blank_state();
        st.a = a as u8;
        st.f = 0xF0;
        cpu.set_state(&st);
        run_opcode(&mut cpu, 0x97, false);
        assert_eq!(cpu.registers.a, 0);
        assert!(cpu.registers.f.zero);
        assert!(cpu.registers.f.subtract);
        assert!(!cpu.registers.f.half_carry);
        assert!(!cpu.registers.f.carry);
    }
}

#[test]
fn adc_uses_incoming_carry() {
    let mut cpu = CPU::new();
    let mut st = blank_state();
    st.a = 0xFF;
    st.b = 0x00;
    st.f = 0x10;
    cpu.set_state(&st);
    run_opcode(&mut cpu, 0x88, false);
    assert_eq!(cpu.registers.a, 0x00);
    assert!(cpu.registers.f.zero);
    assert!(cpu.registers.f.carry);
    assert!(cpu.registers.f.half_carry);
    assert!(!cpu.registers.f.subtract);
}

#[test]
fn sbc_borrows_through_carry() {
    let mut cpu = CPU::new();
    let mut st = blank_state();
    st.a = 0x00;
    st.b = 0x00;
    st.f = 0x10;
    cpu.set_state(&st);
    run_opcode(&mut cpu, 0x98, false);
    assert_eq!(cpu.registers.a, 0xFF);
    assert!(!cpu.registers.f.zero);
    assert!(cpu.registers.f.carry);
    assert!(cpu.registers.f.half_carry);
    assert!(cpu.registers.f.subtract);
}

#[test]
fn and_sets_half_carry_only() {
    let mut cpu = CPU::new();
    let mut st = blank_state();
    st.a = 0xF0;
    st.c = 0x0F;
    st.f = 0x10;
    cpu.set_state(&st);
    run_opcode(&mut cpu, 0xA1, false);
    assert_eq!(cpu.registers.a, 0x00);
    assert!(cpu.registers.f.zero);
    assert!(cpu.registers.f.half_carry);
    assert!(!cpu.registers.f.carry);
    assert!(!cpu.registers.f.subtract);
}

#[test]
fn xor_a_clears_accumulator() {
    let mut cpu = CPU::new();
    let mut st = blank_state();
    st.a = 0x5A;
    st.f = 0xF0;
    cpu.set_state(&st);
    run_opcode(&mut cpu, 0xAF, false);
    assert_eq!(cpu.registers.a, 0);
    assert_eq!(cpu.registers.f.to_byte(), 0x80);
}

#[test]
fn or_immediate_advances_two_bytes() {
    let mut cpu = CPU::new();
    let mut st = blank_state();
    st.pc = 0x200;
    st.a = 0x10;
    st.ram = vec![(0x201, 0x03)];
    cpu.set_state(&st);
    run_opcode(&mut cpu, 0xF6, false);
    assert_eq!(cpu.registers.a, 0x13);
    assert_eq!(cpu.pc, 0x202);
}

#[test]
fn cp_leaves_accumulator() {
    let mut cpu = CPU::new();
    let mut st = blank_state();
    st.a = 0x3C;
    st.b = 0x40;
    cpu.set_state(&st);
    run_opcode(&mut cpu, 0xB8, false);
    assert_eq!(cpu.registers.a, 0x3C);
    assert!(cpu.registers.f.carry);
    assert!(cpu.registers.f.subtract);
    assert!(!cpu.registers.f.zero);
}

#[test]
fn inc_preserves_carry_and_sets_half() {
    let mut cpu = CPU::new();
    let mut st = blank_state();
    st.b = 0x0F;
    st.f = 0x10;
    cpu.set_state(&st);
    run_opcode(&mut cpu, 0x04, false);
    assert_eq!(cpu.registers.b, 0x10);
    assert!(cpu.registers.f.half_carry);
    assert!(cpu.registers.f.carry);
    assert!(!cpu.registers.f.zero);
    assert!(!cpu.registers.f.subtract);
}

#[test]
fn dec_wraps_and_borrows() {
    let mut cpu = CPU::new();
    let mut st = blank_state();
    st.c = 0x00;
    cpu.set_state(&st);
    run_opcode(&mut cpu, 0x0D, false);
    assert_eq!(cpu.registers.c, 0xFF);
    assert!(cpu.registers.f.half_carry);
    assert!(cpu.registers.f.subtract);
    assert!(!cpu.registers.f.zero);

    let mut st2 = blank_state();
    st2.c = 0x01;
    cpu.set_state(&st2);
    run_opcode(&mut cpu, 0x0D, false);
    assert_eq!(cpu.registers.c, 0x00);
    assert!(cpu.registers.f.zero);
    assert!(!cpu.registers.f.half_carry);
}

#[test]
fn add_hl_bc_half_carry_from_bit_eleven() {
    let mut cpu = CPU::new();
    let mut st = blank_state();
    st.h = 0x0F;
    st.l = 0xFF;
    st.b = 0x00;
    st.c = 0x01;
    st.f = 0x80;
    cpu.set_state(&st);
    run_opcode(&mut cpu, 0x09, false);
    assert_eq!(cpu.registers.get_hl(), 0x1000);
    assert!(cpu.registers.f.half_carry);
    assert!(!cpu.registers.f.carry);
    assert!(!cpu.registers.f.subtract);
    assert!(cpu.registers.f.zero);
    assert_eq!(cpu.pc, 1);
}

#[test]
fn add_hl_sp_sets_carry_on_overflow() {
    let mut cpu = CPU::new();
    let mut st = blank_state();
    st.h = 0xFF;
    st.l = 0xFF;
    st.sp = 0x0002;
    cpu.set_state(&st);
    run_opcode(&mut cpu, 0x39, false);
    assert_eq!(cpu.registers.get_hl(), 0x0001);
    assert!(cpu.registers.f.carry);
    assert!(cpu.registers.f.half_carry);
}

#[test]
fn cpl_ccf_scf() {
    let mut cpu = CPU::new();
    let mut st = blank_state();
    st.a = 0x35;
    st.f = 0x90;
    cpu.set_state(&st);
    run_opcode(&mut cpu, 0x2F, false);
    assert_eq!(cpu.registers.a, 0xCA);
    assert!(cpu.registers.f.zero);
    assert!(cpu.registers.f.subtract);
    assert!(cpu.registers.f.half_carry);
    assert!(cpu.registers.f.carry);

    run_opcode(&mut cpu, 0x3F, false);
    assert!(!cpu.registers.f.carry);
    assert!(!cpu.registers.f.subtract);
    assert!(!cpu.registers.f.half_carry);
    assert!(cpu.registers.f.zero);

    run_opcode(&mut cpu, 0x37, false);
    assert!(cpu.registers.f.carry);
    assert!(cpu.registers.f.zero);
}
