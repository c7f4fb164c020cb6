use gamebar::cpu::CPU;
use gamebar::cpu::register::{PSRBit, PSRMode};
use gamebar::cpu::barrel_shifter::{shift_register, rotate_immediate, logical_left, logical_right};
use gamebar::cpu::barrel_shifter::{arithmetic_right, rotate_right};
use gamebar::util::BitField;

#[test]
fn test_shift_register() {
    let mut cpu = CPU::new();

    let mut operand2;

    // ASR 32
    operand2 = 0b11111_10_0_0100;
    cpu.r[4] = 0x80000000;
    assert_eq!(shift_register(&mut cpu, operand2), 0xffffffff);
    assert_eq!(cpu.get_cpsr_bit(PSRBit::C), false);

    // LSR 32
    operand2 = 0b0001_0_01_1_0100;
    cpu.r[1] = 32;
    cpu.r[4] = 0x80000000;
    assert_eq!(shift_register(&mut cpu, operand2), 0);
    assert_eq!(cpu.get_cpsr_bit(PSRBit::C), true);
}

#[test]
fn test_rotate_immediate() {
    let operand2 = 0b0001_00000010;

    assert_eq!(rotate_immediate(operand2), 0x80000000);
}

#[test]
fn shift_logical_left() {
    let mut cpu = CPU::new();
    assert_eq!(logical_left(&mut cpu, 3, 31), 0x80000000);
    assert!(cpu.get_cpsr_bit(PSRBit::C));

    cpu.set_cpsr_bit(PSRBit::C, true);
    assert_eq!(logical_left(&mut cpu, 3, 34), 0);
    assert!(!cpu.get_cpsr_bit(PSRBit::C));
}

#[test]
fn shift_logical_right() {
    let mut cpu = CPU::new();
    assert_eq!(logical_right(&mut cpu, 0x80000000, 0), 0);
    assert!(cpu.get_cpsr_bit(PSRBit::C));

    cpu.set_cpsr_bit(PSRBit::C, false);
    assert_eq!(logical_right(&mut cpu, 0x80000000, 63), 0);
    assert!(!cpu.get_cpsr_bit(PSRBit::C));
}

#[test]
fn shift_arithmetic_right() {
    let mut cpu = CPU::new();
    assert_eq!(arithmetic_right(&mut cpu, 0x80000000, 31), 0xffffffff);
    assert!(!cpu.get_cpsr_bit(PSRBit::C));

    cpu.set_cpsr_bit(PSRBit::C, false);
    assert_eq!(arithmetic_right(&mut cpu, 0x80000000, 0), 0xffffffff);
    assert!(cpu.get_cpsr_bit(PSRBit::C));

    cpu.set_cpsr_bit(PSRBit::C, false);
    assert_eq!(arithmetic_right(&mut cpu, 0x80000000, 99), 0xffffffff);
    assert!(cpu.get_cpsr_bit(PSRBit::C));
}

#[test]
fn shift_rotate_right() {
    let mut cpu = CPU::new();
    cpu.set_cpsr_bit(PSRBit::C, true);
    assert_eq!(rotate_right(&mut cpu, 1, 0), 0x80000000);
    assert!(cpu.get_cpsr_bit(PSRBit::C));

    cpu.set_cpsr_bit(PSRBit::C, false);
    assert_eq!(rotate_right(&mut cpu, 0xf0f0f0f0, 4), 0x0f0f0f0f);
    assert!(!cpu.get_cpsr_bit(PSRBit::C));

    cpu.set_cpsr_bit(PSRBit::C, false);
    assert_eq!(rotate_right(&mut cpu, 0xf0f0f0f0, 64), 0xf0f0f0f0);
    assert!(cpu.get_cpsr_bit(PSRBit::C));
}

#[test]
fn get_cpsr_bit() {
    let mut cpu = CPU::new();
    cpu.cpsr = 0b100000;

    assert_eq!(cpu.get_cpsr_bit(PSRBit::T), true);
}

#[test]
fn set_cpsr_bit() {
    let mut cpu = CPU::new();
    cpu.set_cpsr_bit(PSRBit::F, true);

    assert_eq!(cpu.cpsr.bit(6), true);
}

#[test]
fn get_cpsr_mode() {
    let mut cpu = CPU::new();
    cpu.cpsr = 0b10000;

    assert!(match cpu.get_cpsr_mode() {
        PSRMode::User => true,
        _ => false,
    });
}

#[test]
fn set_cpsr_mode() {
    let mut cpu = CPU::new();
    cpu.set_cpsr_mode(PSRMode::System);

    assert_eq!(cpu.cpsr, 0b11111);
}

#[test]
fn check_condition() {
    let mut cpu = CPU::new();

    cpu.set_cpsr_bit(PSRBit::Z, true);
    assert!(cpu.check_condition(0b0000));

    cpu.set_cpsr_bit(PSRBit::C, true);
    assert!(cpu.check_condition(0b0010));

    cpu.set_cpsr_bit(PSRBit::N, true);
    assert!(cpu.check_condition(0b0100));

    cpu.set_cpsr_bit(PSRBit::V, true);
    assert!(cpu.check_condition(0b0110));

    assert!(cpu.check_condition(0b1010));

    cpu.set_cpsr_bit(PSRBit::Z, false);
    assert!(cpu.check_condition(0b1100));
}
