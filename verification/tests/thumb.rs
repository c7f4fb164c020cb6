use gamebar::cpu::CPU;
use gamebar::cpu::register::PSRBit;
use gamebar::cpu::thumb::{add_subtract, hi_operations_bx, load_address, move_compare, move_shifted};

#[test]
fn add_subtract_add() {
    let mut cpu = CPU::new();

    cpu.r[1] = 0xffffffff;
    add_subtract::execute(&mut cpu, (true, false, 0b111, 1, 1));
    assert_eq!(cpu.r[1], 0b110);
    assert_eq!(cpu.get_cpsr_bit(PSRBit::C), true);

    cpu.r[0] = 0x10000000;
    cpu.r[1] = 1;
    add_subtract::execute(&mut cpu, (false, true, 1, 0, 1));
    assert_eq!(cpu.r[1], 0x0fffffff);
    assert_eq!(cpu.get_cpsr_bit(PSRBit::V), false);
    assert_eq!(cpu.get_cpsr_bit(PSRBit::C), true);
}

#[test]
fn alu_operations() {
    let mut cpu = CPU::new();

    // All operations except CMP does not effect CPSR flags.
    // ADD 2, 0xffffffff
    cpu.r[8] = 0xffffffff;
    cpu.r[9] = 2;
    hi_operations_bx::execute(&mut cpu, (0b00, 8, 9));
    assert_eq!(cpu.r[9], 1);
    assert_eq!(cpu.get_cpsr_bit(PSRBit::C), false);

    // CMP 1, 1
    cpu.r[8] = 1;
    hi_operations_bx::execute(&mut cpu, (0b01, 8, 9));
    assert_eq!(cpu.r[9], 1);
    assert_eq!(cpu.get_cpsr_bit(PSRBit::Z), true);

    // BX
    cpu.r[14] = 0xfffffffb;
    hi_operations_bx::execute(&mut cpu, (0b11, 14, 0));
    assert_eq!(cpu.r[15], 0xfffffffc);
}

#[test]
fn load_address() {
    let mut cpu = CPU::new();

    cpu.r[13] = 0xffffff00;
    load_address::execute(&mut cpu, (true, 0, 0b00111111));
    assert_eq!(cpu.r[0], 0xfffffffc);
}

#[test]
fn move_compare_add() {
    let mut cpu = CPU::new();

    cpu.r[1] = 0xffffffff;
    move_compare::execute(&mut cpu, (0b10, 1, 1));
    assert_eq!(cpu.r[1], 0);
    assert_eq!(cpu.get_cpsr_bit(PSRBit::C), true);

    cpu.r[1] = 0x7fffffff;
    move_compare::execute(&mut cpu, (0b10, 1, 1));
    assert_eq!(cpu.r[1], 0x80000000);
    assert_eq!(cpu.get_cpsr_bit(PSRBit::V), true);
    assert_eq!(cpu.get_cpsr_bit(PSRBit::C), false);
    assert_eq!(cpu.get_cpsr_bit(PSRBit::N), true);

    cpu.r[1] = 1;
    move_compare::execute(&mut cpu, (0b01, 1, 2));
    assert_eq!(cpu.r[1], 1);
    assert_eq!(cpu.get_cpsr_bit(PSRBit::V), false);
    assert_eq!(cpu.get_cpsr_bit(PSRBit::C), false);
    assert_eq!(cpu.get_cpsr_bit(PSRBit::N), true);
    assert_eq!(cpu.get_cpsr_bit(PSRBit::Z), false);
}

#[test]
fn logical_left() {
    let mut cpu = CPU::new();

    cpu.r[0] = 1;
    move_shifted::execute(&mut cpu, (0b00, 0b11111, 0, 1));
    assert_eq!(cpu.r[1], 0x80000000);
    assert_eq!(cpu.get_cpsr_bit(PSRBit::C), false);

    cpu.r[0] = 0b10;
    move_shifted::execute(&mut cpu, (0b00, 0b11111, 0, 1));
    assert_eq!(cpu.r[1], 0);
    assert_eq!(cpu.get_cpsr_bit(PSRBit::C), true);
}

#[test]
fn logical_right() {
    let mut cpu = CPU::new();

    cpu.r[0] = 0x80000000;
    move_shifted::execute(&mut cpu, (0b01, 0b11111, 0, 1));
    assert_eq!(cpu.r[1], 1);
    assert_eq!(cpu.get_cpsr_bit(PSRBit::C), false);

    cpu.r[0] = 0x40000000;
    move_shifted::execute(&mut cpu, (0b01, 0b11111, 0, 1));
    assert_eq!(cpu.r[1], 0);
    assert_eq!(cpu.get_cpsr_bit(PSRBit::C), true);
}

#[test]
fn arithmetic_right() {
    let mut cpu = CPU::new();

    cpu.r[0] = 0x80000000;
    move_shifted::execute(&mut cpu, (0b10, 0b11111, 0, 1));
    assert_eq!(cpu.r[1], 0xffffffff);
    assert_eq!(cpu.get_cpsr_bit(PSRBit::C), false);

    cpu.r[0] = 0x40000000;
    move_shifted::execute(&mut cpu, (0b10, 0b11111, 0, 1));
    assert_eq!(cpu.r[1], 0);
    assert_eq!(cpu.get_cpsr_bit(PSRBit::C), true);
}
