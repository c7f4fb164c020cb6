use gamebar::cpu::CPU;
use gamebar::cpu::register::{PSRBit, PSRMode};
use gamebar::memory::Memory;
use gamebar::cpu::arm::{halfword_data_transfer, multiply_long_accumulate, single_data_transfer};

#[test]
fn step_costs_one_cycle() {
    let mut cpu = CPU::new();
    let mut m = Memory::new();
    // MOV R1, #5 at 0x02000000, executed with R15 = fetch address + 4.
    m.store32(0x0200_0000, 0xe3a0_1005);
    cpu.r[15] = 0x0200_0004;
    cpu.step(&mut m);
    assert_eq!(cpu.r[1], 5);
    assert_eq!(cpu.r[15], 0x0200_0008);
    assert_eq!(cpu.counter, 1);
}

#[test]
fn branch_costs_three_cycles() {
    let mut cpu = CPU::new();
    let mut m = Memory::new();
    // B +8 (offset field 2): target = R15 + 8.
    m.store32(0x0200_0000, 0xea00_0002);
    cpu.r[15] = 0x0200_0004;
    cpu.step(&mut m);
    assert_eq!(cpu.counter, 3);
    // After the refill R15 is one instruction past the target.
    assert_eq!(cpu.r[15], 0x0200_0014);
    assert_eq!(cpu.r[15] % 4, 0);
}

#[test]
fn run_reports_overshoot() {
    let mut cpu = CPU::new();
    let mut m = Memory::new();
    // B -8: an endless loop onto itself, three cycles per iteration.
    m.store32(0x0200_0000, 0xeaff_fffe);
    cpu.r[15] = 0x0200_0004;
    let over = cpu.run(10, &mut m);
    assert_eq!(cpu.counter, 12);
    assert_eq!(over, 2);
}

#[test]
fn unhandled_instruction_skipped() {
    let mut cpu = CPU::new();
    let mut m = Memory::new();
    // A coprocessor instruction: R15 only moves past it.
    m.store32(0x0200_0000, 0xec00_0000);
    cpu.r[15] = 0x0200_0004;
    cpu.step(&mut m);
    assert_eq!(cpu.r[15], 0x0200_0008);
    assert_eq!(cpu.counter, 1);
}

#[test]
fn thumb_step() {
    let mut cpu = CPU::new();
    let mut m = Memory::new();
    cpu.set_cpsr_bit(PSRBit::T, true);
    // MOV R2, #7
    m.store16(0x0200_0000, 0x2207);
    cpu.r[15] = 0x0200_0002;
    cpu.step(&mut m);
    assert_eq!(cpu.r[2], 7);
    assert_eq!(cpu.r[15], 0x0200_0004);
}

#[test]
fn flush_aligns() {
    let mut cpu = CPU::new();
    cpu.r[15] = 0x0200_0003;
    cpu.flush();
    assert_eq!(cpu.r[15], 0x0200_0004);
    assert_eq!(cpu.counter, 2);
    cpu.set_cpsr_bit(PSRBit::T, true);
    cpu.r[15] = 0x0200_0003;
    cpu.flush();
    assert_eq!(cpu.r[15], 0x0200_0004);
}

#[test]
fn interrupt_entry_and_no_nesting() {
    let mut cpu = CPU::new();
    cpu.r[15] = 0x0800_0108;
    let psr = cpu.get_cpsr();
    cpu.hardware_interrupt();
    assert!(match cpu.get_cpsr_mode() {
        PSRMode::IRQ => true,
        _ => false,
    });
    assert!(cpu.get_cpsr_bit(PSRBit::I));
    assert!(!cpu.get_cpsr_bit(PSRBit::T));
    assert_eq!(cpu.r[14], 0x0800_0108);
    assert_eq!(cpu.r[15], 0x1c);
    assert_eq!(cpu.get_spsr() & 0xf000_00ff, psr & 0xf000_00ff);
    let before = (cpu.r, cpu.cpsr, cpu.spsr, cpu.counter);
    cpu.hardware_interrupt();
    assert_eq!((cpu.r, cpu.cpsr, cpu.spsr, cpu.counter), before);
}

#[test]
fn mode_roundtrip_keeps_flags() {
    let mut cpu = CPU::new();
    cpu.set_cpsr_bit(PSRBit::N, true);
    cpu.set_cpsr_mode(PSRMode::Supervisor);
    assert!(match cpu.get_cpsr_mode() {
        PSRMode::Supervisor => true,
        _ => false,
    });
    assert!(cpu.get_cpsr_bit(PSRBit::N));
    assert_eq!(cpu.cpsr, 0x8000_0013);
}

#[test]
fn flag_transfer_keeps_control() {
    let mut cpu = CPU::new();
    cpu.set_cpsr(0xffff_ffff, true);
    assert_eq!(cpu.cpsr, 0xf000_0013);
    cpu.set_cpsr(0x0000_00d3, false);
    assert_eq!(cpu.cpsr, 0x0000_00d3);
    cpu.set_spsr(0x1234_5678, false);
    cpu.restore_cpsr();
    assert_eq!(cpu.get_cpsr(), 0x1000_0078);
}

#[test]
fn status_text() {
    let mut cpu = CPU::new();
    let mut m = Memory::new();
    m.store32(0x0200_0000, 0xe3a0_1005);
    cpu.r[15] = 0x0200_0004;
    cpu.r[10] = 0xabc;
    let text = cpu.status(&m);
    let lines: Vec<&str> = text.split('\n').collect();
    assert_eq!(lines[0], "R0  = 00000000 R1  = 00000000 R2  = 00000000 R3  = 00000000 ");
    assert_eq!(lines[2], "R8  = 00000000 R9  = 00000000 R10 = 00000abc R11 = 00000000 ");
    assert_eq!(lines[3], "R12 = 00000000 R13 = 03007f00 R14 = 00000000 R15 = 02000004 ");
    assert_eq!(lines[4], "PSR = 00000013 [.......]");
    assert_eq!(lines[5], "02000000: e3a01005 MOV R1, #5, #0");
    assert_eq!(lines[6], "Cycles: 0");
}

#[test]
fn reset_is_supervisor_mode() {
    let cpu = CPU::new();
    assert!(match cpu.get_cpsr_mode() {
        PSRMode::Supervisor => true,
        _ => false,
    });
    assert!(!cpu.in_thumb_mode());
    assert_eq!(cpu.cpsr, 0b10011);
    assert_eq!(cpu.r[15], 4);
    assert_eq!(cpu.r[13], 0x0300_7f00);
}

#[test]
fn halfword_decode_reads_write_back_from_bit_21() {
    assert_eq!(halfword_data_transfer::decode(0x01C0_00B0), (true, true, true, false, 0b001, 0, 0, 0));
    assert_eq!(halfword_data_transfer::decode(0x01E0_00B0).3, true);
}

#[test]
fn single_transfer_decode_kinds() {
    // STRB R0, [R1]: immediate offset (bit 25 clear), kind L << 1 | B.
    assert_eq!(single_data_transfer::decode(0xE5C1_0000), (true, true, true, false, 0b01, 1, 0, 0));
    assert_eq!(single_data_transfer::decode(0xE5D1_0000).4, 0b11);
    assert_eq!(single_data_transfer::decode(0xE591_0000).4, 0b10);
    assert_eq!(single_data_transfer::decode(0xE781_0002).0, false);
}

#[test]
fn load_byte_instruction_runs() {
    let mut cpu = CPU::new();
    let mut m = Memory::new();
    m.store8(0x0200_0010, 0xab);
    cpu.r[1] = 0x0200_0010;
    // LDRB R0, [R1]
    single_data_transfer::decode_execute(&mut cpu, &mut m, 0xE5D1_0000);
    assert_eq!(cpu.r[0], 0xab);
    // STRB R2, [R1, #1]
    cpu.r[2] = 0x1234_56cd;
    single_data_transfer::decode_execute(&mut cpu, &mut m, 0xE5C1_2001);
    assert_eq!(m.load8(0x0200_0011), 0xcd);
    assert_eq!(m.load8(0x0200_0012), 0);
}

#[test]
fn signed_long_multiply_by_bit_22() {
    let mut cpu = CPU::new();
    cpu.r[0] = 0xffff_ffff;
    cpu.r[1] = 0xffff_ffff;
    // SMULL R3, R4, R0, R1: -1 * -1 == 1
    multiply_long_accumulate::decode_execute(&mut cpu, 0xE0C4_3190);
    assert_eq!(cpu.r[3], 1);
    assert_eq!(cpu.r[4], 0);
    // UMULL R3, R4, R0, R1
    multiply_long_accumulate::decode_execute(&mut cpu, 0xE084_3190);
    assert_eq!(cpu.r[3], 1);
    assert_eq!(cpu.r[4], 0xffff_fffe);
}
