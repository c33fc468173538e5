use nes_core::cpu::{StatusFlags, CPU};
use nes_core::memory::Memory;

fn from_program(program: Vec<u8>) -> CPU {
    let mem = Memory::from_buffer(program);
    CPU::new(Box::new(mem))
}

#[test]
fn adc_imm() {
    let mut cpu = from_program(vec![0x69, 0x02]);
    cpu.ticks(2);
    assert_eq!(cpu.registers.a, 2);
}

#[test]
fn adc_imm_multiple() {
    let mut cpu = from_program(vec![0x69, 0x02, 0x69, 0x03, 0x69, 0x04]);

    cpu.ticks(6);

    assert_eq!(cpu.registers.a, 9);
}

#[test]
fn adc_imm_z_flag_set() {
    let mut cpu = from_program(vec![0x69, 0xFF, 0x69, 0x01]);

    cpu.ticks(4);

    assert!(cpu.registers.get_flag(StatusFlags::Z));
}

#[test]
fn adc_imm_z_flag_unset() {
    let mut cpu = from_program(vec![0x69, 0x01, 0x69, 0x02]);

    cpu.ticks(4);

    assert!(!cpu.registers.get_flag(StatusFlags::Z));
}

#[test]
fn adc_imm_v_flag_set() {
    let mut cpu = from_program(vec![0x69, 0x7F, 0x69, 0x01]);

    cpu.ticks(4);

    assert_eq!(cpu.registers.a as i8, -128);
    assert!(cpu.registers.get_flag(StatusFlags::V));
}

#[test]
fn adc_imm_v_flag_unset() {
    let mut cpu = from_program(vec![0x69, 0x02, 0x69, 0x02]);

    cpu.ticks(4);

    assert!(!cpu.registers.get_flag(StatusFlags::V));
}

#[test]
fn adc_imm_n_flag_set() {
    let mut cpu = from_program(vec![0x69, 0xF0, 0x69, 0x02]);

    cpu.ticks(4);

    assert!(cpu.registers.get_flag(StatusFlags::N));
}

#[test]
fn adc_imm_n_flag_unset() {
    let mut cpu = from_program(vec![0x69, 0x02, 0x69, 0x02]);

    cpu.ticks(4);

    assert!(!cpu.registers.get_flag(StatusFlags::N));
}

#[test]
fn adc_imm_carry_feeds_next_add() {
    // 0xFF + 0x01 wraps to zero with carry out; the carry feeds the next add.
    let mut cpu = from_program(vec![0x69, 0xFF, 0x69, 0x01, 0x69, 0x05]);

    cpu.ticks(4);
    assert!(cpu.registers.get_flag(StatusFlags::C));

    cpu.ticks(2);
    assert_eq!(cpu.registers.a, 6);
    assert!(!cpu.registers.get_flag(StatusFlags::C));
}

#[test]
fn adc_zp_reads_zero_page() {
    // ADC $10 with 5 stored at 0x10: three cycles, then the add commits.
    let mut program = vec![0x56, 0x10];
    program.resize(0x10, 0);
    program.push(0x05);
    let mut cpu = from_program(program);

    cpu.ticks(3);

    assert_eq!(cpu.registers.a, 5);
}

#[test]
fn undefined_opcode_is_one_cycle_nop() {
    let mut cpu = from_program(vec![0x00, 0x69, 0x03]);

    cpu.ticks(1);
    assert_eq!(cpu.registers.a, 0);

    cpu.ticks(2);
    assert_eq!(cpu.registers.a, 3);
}

#[test]
fn set_flag_touches_only_its_bit() {
    let mut cpu = from_program(vec![]);

    cpu.registers.set_flag(StatusFlags::C, true);
    cpu.registers.set_flag(StatusFlags::N, true);

    assert!(cpu.registers.get_flag(StatusFlags::C));
    assert!(cpu.registers.get_flag(StatusFlags::N));
    assert!(!cpu.registers.get_flag(StatusFlags::Z));
    assert!(!cpu.registers.get_flag(StatusFlags::V));

    cpu.registers.set_flag(StatusFlags::C, false);

    assert!(!cpu.registers.get_flag(StatusFlags::C));
    assert!(cpu.registers.get_flag(StatusFlags::N));
}

#[test]
fn status_flag_masks() {
    assert_eq!(StatusFlags::C.mask(), 0b00000001);
    assert_eq!(StatusFlags::Z.mask(), 0b00000010);
    assert_eq!(StatusFlags::I.mask(), 0b00000100);
    assert_eq!(StatusFlags::D.mask(), 0b00001000);
    assert_eq!(StatusFlags::B.mask(), 0b00010000);
    assert_eq!(StatusFlags::U.mask(), 0b00100000);
    assert_eq!(StatusFlags::V.mask(), 0b01000000);
    assert_eq!(StatusFlags::N.mask(), 0b10000000);
}
