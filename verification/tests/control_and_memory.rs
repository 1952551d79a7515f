use sm83_core::cpu::{CpuState, DecodeError, CPU};
use sm83_core::decode::Instruction;

fn blank_state() -> CpuState {
    CpuState {
        pc: 0,
        sp: 0,
        a: 0,
        b: 0,
        c: 0,
        d: 0,
        e: 0,
        f: 0,
        h: 0,
        l: 0,
        ime: 0,
        ie: 0,
        ei: 0,
        ram: Vec::new(),
    }
}

fn run_opcode(cpu: &mut CPU, opcode: u8, prefixed: bool) {
    let instruction = Instruction::from_byte(opcode, prefixed).unwrap();
    assert!(instruction.well_formed());
    let pc = cpu.execute(instruction);
    cpu.pc = pc;
}

#[test]
fn push_pop_round_trips_bc() {
    let mut cpu = CPU::new();
    let mut st = blank_state();
    st.b = 0xBE;
    st.c = 0xEF;
    st.sp = 0xFFFE;
    cpu.set_state(&st);
    run_opcode(&mut cpu, 0xC5, false);
    assert_eq!(cpu.sp, 0xFFFC);
    assert_eq!(cpu.bus.read_byte(0xFFFD), 0xBE);
    assert_eq!(cpu.bus.read_byte(0xFFFC), 0xEF);
    cpu.registers.b = 0;
    cpu.registers.c = 0;
    run_opcode(&mut cpu, 0xC1, false);
    assert_eq!(cpu.registers.get_bc(), 0xBEEF);
    assert_eq!(cpu.sp, 0xFFFE);
    assert_eq!(cpu.pc, 2);
}

#[test]
fn push_pop_af_masks_low_nibble() {
    let mut cpu = CPU::new();
    let mut st = blank_state();
    st.a = 0x12;
    st.f = 0xB0;
    st.sp = 0xC100;
    cpu.set_state(&st);
    run_opcode(&mut cpu, 0xF5, false);
    run_opcode(&mut cpu, 0xF1, false);
    assert_eq!(cpu.registers.get_af(), 0x12B0);
    assert_eq!(cpu.sp, 0xC100);
}

#[test]
fn jr_minus_two_is_a_self_loop() {
    let mut cpu = CPU::new();
    let mut st = blank_state();
    st.pc = 0x100;
    st.ram = vec![(0x101, 0xFE)];
    cpu.set_state(&st);
    run_opcode(&mut cpu, 0x18, false);
    assert_eq!(cpu.pc, 0x100);
}

#[test]
fn jr_forward_and_not_taken() {
    let mut cpu = CPU::new();
    let mut st = blank_state();
    st.pc = 0x200;
    st.ram = vec![(0x201, 0x05)];
    cpu.set_state(&st);
    run_opcode(&mut cpu, 0x18, false);
    assert_eq!(cpu.pc, 0x207);

    let mut st2 = blank_state();
    st2.pc = 0x200;
    st2.f = 0x00;
    st2.ram = vec![(0x201, 0x05)];
    cpu.set_state(&st2);
    run_opcode(&mut cpu, 0x28, false);
    assert_eq!(cpu.pc, 0x202);
}

#[test]
fn jp_reads_little_endian_target() {
    let mut cpu = CPU::new();
    let mut st = blank_state();
    st.pc = 0x150;
    st.ram = vec![(0x151, 0x34), (0x152, 0x12)];
    cpu.set_state(&st);
    run_opcode(&mut cpu, 0xC3, false);
    assert_eq!(cpu.pc, 0x1234);
}

#[test]
fn jp_conditional_not_taken_advances_three() {
    let mut cpu = CPU::new();
    let mut st = blank_state();
    st.pc = 0x150;
    st.f = 0x00;
    st.ram = vec![(0x151, 0x34), (0x152, 0x12)];
    cpu.set_state(&st);
    run_opcode(&mut cpu, 0xCA, false);
    assert_eq!(cpu.pc, 0x153);
}

#[test]
fn jp_hl_jumps_to_pair() {
    let mut cpu = CPU::new();
    let mut st = blank_state();
    st.h = 0x43;
    st.l = 0x21;
    cpu.set_state(&st);
    run_opcode(&mut cpu, 0xE9, false);
    assert_eq!(cpu.pc, 0x4321);
}

#[test]
fn call_pushes_return_address_then_ret_restores() {
    let mut cpu = CPU::new();
    let mut st = blank_state();
    st.pc = 0x0200;
    st.sp = 0xFFFE;
    st.ram = vec![(0x0201, 0x00), (0x0202, 0x03)];
    cpu.set_state(&st);
    run_opcode(&mut cpu, 0xCD, false);
    assert_eq!(cpu.pc, 0x0300);
    assert_eq!(cpu.sp, 0xFFFC);
    assert_eq!(cpu.bus.read_byte(0xFFFD), 0x02);
    assert_eq!(cpu.bus.read_byte(0xFFFC), 0x03);
    run_opcode(&mut cpu, 0xC9, false);
    assert_eq!(cpu.pc, 0x0203);
    assert_eq!(cpu.sp, 0xFFFE);
}

#[test]
fn ret_not_taken_advances_one() {
    let mut cpu = CPU::new();
    let mut st = blank_state();
    st.pc = 0x400;
    st.f = 0x80;
    cpu.set_state(&st);
    run_opcode(&mut cpu, 0xC0, false);
    assert_eq!(cpu.pc, 0x401);
}

#[test]
fn ld_hl_plus_stores_and_increments() {
    let mut cpu = CPU::new();
    let mut st = blank_state();
    st.h = 0xC0;
    st.l = 0x00;
    st.a = 0x42;
    cpu.set_state(&st);
    run_opcode(&mut cpu, 0x22, false);
    assert_eq!(cpu.bus.read_byte(0xC000), 0x42);
    assert_eq!(cpu.registers.get_hl(), 0xC001);
    assert_eq!(cpu.pc, 1);
}

#[test]
fn ld_a_hl_minus_fetches_then_decrements() {
    let mut cpu = CPU::new();
    let mut st = blank_state();
    st.h = 0xC0;
    st.l = 0x00;
    st.ram = vec![(0xC000, 0x77)];
    cpu.set_state(&st);
    run_opcode(&mut cpu, 0x3A, false);
    assert_eq!(cpu.registers.a, 0x77);
    assert_eq!(cpu.registers.get_hl(), 0xBFFF);
}

#[test]
fn ld_word_immediate_sets_sp() {
    let mut cpu = CPU::new();
    let mut st = blank_state();
    st.pc = 0x100;
    st.ram = vec![(0x101, 0xFE), (0x102, 0xCA)];
    cpu.set_state(&st);
    run_opcode(&mut cpu, 0x31, false);
    assert_eq!(cpu.sp, 0xCAFE);
    assert_eq!(cpu.pc, 0x103);
}

#[test]
fn high_page_store_and_load() {
    let mut cpu = CPU::new();
    let mut st = blank_state();
    st.pc = 0x300;
    st.a = 0x5A;
    st.ram = vec![(0x301, 0x80)];
    cpu.set_state(&st);
    run_opcode(&mut cpu, 0xE0, false);
    assert_eq!(cpu.bus.read_byte(0xFF80), 0x5A);
    assert_eq!(cpu.pc, 0x302);

    cpu.registers.a = 0;
    cpu.pc = 0x300;
    run_opcode(&mut cpu, 0xF0, false);
    assert_eq!(cpu.registers.a, 0x5A);
    assert_eq!(cpu.pc, 0x302);
}

#[test]
fn high_page_via_c_register() {
    let mut cpu = CPU::new();
    let mut st = blank_state();
    st.a = 0x99;
    st.c = 0x44;
    cpu.set_state(&st);
    run_opcode(&mut cpu, 0xE2, false);
    assert_eq!(cpu.bus.read_byte(0xFF44), 0x99);
    assert_eq!(cpu.pc, 1);
}

#[test]
fn ld_absolute_sixteen_bit_indirect() {
    let mut cpu = CPU::new();
    let mut st = blank_state();
    st.pc = 0x100;
    st.a = 0x7E;
    st.ram = vec![(0x101, 0x00), (0x102, 0xD0)];
    cpu.set_state(&st);
    run_opcode(&mut cpu, 0xEA, false);
    assert_eq!(cpu.bus.read_byte(0xD000), 0x7E);
    assert_eq!(cpu.pc, 0x103);
}

#[test]
fn ld_register_to_register_and_immediate() {
    let mut cpu = CPU::new();
    let mut st = blank_state();
    st.b = 0x11;
    cpu.set_state(&st);
    run_opcode(&mut cpu, 0x78, false);
    assert_eq!(cpu.registers.a, 0x11);
    assert_eq!(cpu.pc, 1);

    let mut st2 = blank_state();
    st2.pc = 0x100;
    st2.ram = vec![(0x101, 0x66)];
    cpu.set_state(&st2);
    run_opcode(&mut cpu, 0x06, false);
    assert_eq!(cpu.registers.b, 0x66);
    assert_eq!(cpu.pc, 0x102);
}

#[test]
fn inc_sixteen_bit_wraps_without_flags() {
    let mut cpu = CPU::new();
    let mut st = blank_state();
    st.h = 0xFF;
    st.l = 0xFF;
    st.f = 0xF0;
    cpu.set_state(&st);
    run_opcode(&mut cpu, 0x23, false);
    assert_eq!(cpu.registers.get_hl(), 0x0000);
    assert_eq!(cpu.registers.f.to_byte(), 0xF0);
}

#[test]
fn sp_push_wraps_below_zero() {
    let mut cpu = CPU::new();
    let mut st = blank_state();
    st.sp = 0x0001;
    st.b = 0xAB;
    st.c = 0xCD;
    cpu.set_state(&st);
    run_opcode(&mut cpu, 0xC5, false);
    assert_eq!(cpu.sp, 0xFFFF);
    assert_eq!(cpu.bus.read_byte(0x0000), 0xAB);
    assert_eq!(cpu.bus.read_byte(0xFFFF), 0xCD);
}

#[test]
fn step_executes_instruction_at_pc() {
    let mut cpu = CPU::new();
    let mut st = blank_state();
    st.pc = 0x100;
    st.ram = vec![(0x100, 0x3C)];
    cpu.set_state(&st);
    assert!(cpu.step().is_ok());
    assert_eq!(cpu.registers.a, 1);
    assert_eq!(cpu.pc, 0x101);
}

#[test]
fn step_handles_cb_prefix() {
    let mut cpu = CPU::new();
    let mut st = blank_state();
    st.pc = 0x100;
    st.a = 0xAB;
    st.ram = vec![(0x100, 0xCB), (0x101, 0x37)];
    cpu.set_state(&st);
    assert!(cpu.step().is_ok());
    assert_eq!(cpu.registers.a, 0xBA);
    assert_eq!(cpu.pc, 0x102);
}

#[test]
fn step_reports_unknown_opcode() {
    let mut cpu = CPU::new();
    let mut st = blank_state();
    st.pc = 0x100;
    st.a = 0x55;
    st.ram = vec![(0x100, 0x27)];
    cpu.set_state(&st);
    let err = cpu.step().unwrap_err();
    assert_eq!(err, DecodeError { pc: 0x100, opcode: 0x27, prefixed: false });
    assert_eq!(cpu.pc, 0x100);
    assert_eq!(cpu.registers.a, 0x55);
}

#[test]
fn set_state_later_ram_entries_win() {
    let mut cpu = CPU::new();
    let mut st = blank_state();
    st.ram = vec![(0xC000, 0x01), (0xC000, 0x02)];
    cpu.set_state(&st);
    assert_eq!(cpu.bus.read_byte(0xC000), 0x02);
}

#[test]
fn compare_state_checks_every_field() {
    let mut cpu = CPU::new();
    let mut st = blank_state();
    st.a = 0x10;
    st.f = 0x80;
    st.ram = vec![(0xC000, 0x33)];
    cpu.set_state(&st);
    assert!(cpu.compare_state(&st));
    let mut wrong = blank_state();
    wrong.a = 0x10;
    wrong.f = 0x80;
    wrong.ram = vec![(0xC000, 0x34)];
    assert!(!cpu.compare_state(&wrong));
    let mut wrong_reg = blank_state();
    wrong_reg.a = 0x11;
    wrong_reg.f = 0x80;
    assert!(!cpu.compare_state(&wrong_reg));
}

#[test]
fn load_rom_copies_image_and_sets_entry_point() {
    let mut cpu = CPU::new();
    let mut rom = vec![0u8; 0x8000];
    rom[0] = 0xAA;
    rom[0x7FFF] = 0xBB;
    cpu.load_rom(&rom);
    assert_eq!(cpu.pc, 0x100);
    assert_eq!(cpu.bus.read_byte(0x0000), 0xAA);
    assert_eq!(cpu.bus.read_byte(0x7FFF), 0xBB);
    assert_eq!(cpu.bus.read_byte(0x8000), 0x00);
}
