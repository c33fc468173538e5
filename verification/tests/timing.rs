use nes_core::cpu::{StatusFlags, CPU};
use nes_core::memory::Memory;

fn from_program(program: Vec<u8>) -> CPU {
    let mem = Memory::from_buffer(program);
    CPU::new(Box::new(mem))
}

#[test]
fn multi_cycle_effect_lands_on_final_tick_only() {
    // ADC $10 takes three cycles; 5 is stored at 0x10. No register or flag
    // moves on any tick before the third, and exactly the add lands on it.
    let mut program = vec![0x56, 0x10];
    program.resize(0x10, 0);
    program.push(0x05);
    let mut cpu = from_program(program);

    cpu.tick();
    assert_eq!(cpu.registers.a, 0);
    assert!(!cpu.registers.get_flag(StatusFlags::C));

    cpu.tick();
    assert_eq!(cpu.registers.a, 0);
    assert!(!cpu.registers.get_flag(StatusFlags::C));

    cpu.tick();
    assert_eq!(cpu.registers.a, 5);
}

#[test]
fn zero_page_indexed_takes_four_cycles() {
    let mut program = vec![0x57, 0x10];
    program.resize(0x10, 0);
    program.push(0x09);
    let mut cpu = from_program(program);

    cpu.ticks(3);
    assert_eq!(cpu.registers.a, 0);

    cpu.tick();
    assert_eq!(cpu.registers.a, 9);
}

#[test]
fn immediate_add_takes_two_cycles() {
    let mut cpu = from_program(vec![0x69, 0x02]);

    cpu.tick();
    assert_eq!(cpu.registers.a, 0);

    cpu.tick();
    assert_eq!(cpu.registers.a, 2);
}

#[test]
fn driver_may_pause_between_ticks() {
    // Ticking one by one and ticking in a batch land in the same state.
    let mut one_by_one = from_program(vec![0x69, 0x02, 0x69, 0x03]);
    let mut batch = from_program(vec![0x69, 0x02, 0x69, 0x03]);

    for _ in 0..4 {
        one_by_one.tick();
    }
    batch.ticks(4);

    assert_eq!(one_by_one.registers.a, batch.registers.a);
    assert_eq!(one_by_one.registers.a, 5);
}
