use gamebar::cpu::CPU;
use gamebar::cpu::register::PSRBit;
use gamebar::memory::Memory;
use gamebar::cpu::arm::{block_data_transfer, data_processing, halfword_data_transfer};
use gamebar::cpu::arm::{multiply_accumulate, multiply_long_accumulate, psr_transfer, single_data_transfer};
use gamebar::cpu::arm::disassemble::disassemble;

#[test]
fn data_process_psr_bx() {
    assert_eq!(disassemble(0b0000_00000000_0100_0010_0000_0000_0111), "ANDEQ R2, R4, R7, LSL #0");
    assert_eq!(disassemble(0b0000_00000011_1000_0000_0000_0111_1101), "EOREQS R0, R8, R13, ROR R0");
    assert_eq!(disassemble(0b0000_00011110_0010_0001_1111_0011_1110), "MVNEQ R1, R14, LSR R15");
    assert_eq!(disassemble(0b0000_00000000_0100_1010_1111_1100_1111), "ANDEQ R10, R4, R15, ASR #31");
    assert_eq!(disassemble(0b1110_00010000_1111_1111_0000_0000_0000), "MRS R15, CPSR");
    assert_eq!(disassemble(0b1000_00010010_1000_1111_0000_0000_0000), "MSRHI CPSR, R0");
    assert_eq!(disassemble(0b0001_00010010_1111_1111_1111_0001_1000), "BXNE R8");
}

#[test]
fn multiply_swap() {
    assert_eq!(disassemble(0b1110_00000011_0001_1000_0000_1001_0100), "MLAS R1, R4, R0");
    assert_eq!(disassemble(0b1110_00001111_0010_0011_0000_1001_0100), "SMLALS R2, R3, R4, R0");
    assert_eq!(disassemble(0b1110_00010100_0001_1000_0000_1001_0100), "SWPB R8, R4, [R1]");
}

#[test]
fn post_increment() {
    let mut cpu = CPU::new();
    let mut memory = Memory::new();

    cpu.set_spsr(cpu.get_cpsr(), false);

    for i in 0..16u32 {
        memory.store32(0x02000000 + i * 4, i);
    }
    cpu.r[0] = 0x02000000;

    // Write back bit is redundant because R0 is overwritten
    block_data_transfer::execute(&mut cpu, &mut memory, (false, true, true, true, true, 0, 0xffff));
    for i in 0..15u32 {
        assert_eq!(cpu.r[i as usize], i);
    }

    // PC should be word aligned
    assert_eq!(cpu.r[15], 16);
}

#[test]
fn pre_increment() {
    let mut cpu = CPU::new();
    let mut memory = Memory::new();

    memory.store32(0x02000004, 1);
    memory.store32(0x02000008, 2);
    memory.store32(0x0200000c, 3);
    cpu.r[0] = 0x02000000;

    block_data_transfer::execute(&mut cpu, &mut memory, (true, true, true, true, true, 0, 0x000e));
    assert_eq!(cpu.r[1], 1);
    assert_eq!(cpu.r[2], 2);
    assert_eq!(cpu.r[3], 3);
    assert_eq!(cpu.r[0], 0x0200000c);
}

#[test]
fn post_decrement() {
    let mut cpu = CPU::new();
    let mut memory = Memory::new();

    memory.store32(0x02000004, 1);
    memory.store32(0x02000008, 2);
    memory.store32(0x0200000c, 3);
    cpu.r[0] = 0x0200000c;

    block_data_transfer::execute(&mut cpu, &mut memory, (false, false, true, true, true, 0, 0x000e));
    assert_eq!(cpu.r[1], 1);
    assert_eq!(cpu.r[2], 2);
    assert_eq!(cpu.r[3], 3);
    assert_eq!(cpu.r[0], 0x02000000);
}

#[test]
fn pre_decrement() {
    let mut cpu = CPU::new();
    let mut memory = Memory::new();

    memory.store32(0x02000000, 1);
    memory.store32(0x02000004, 2);
    memory.store32(0x02000008, 3);
    cpu.r[0] = 0x0200000c;

    block_data_transfer::execute(&mut cpu, &mut memory, (true, false, true, true, true, 0, 0x1110));
    assert_eq!(cpu.r[4], 1);
    assert_eq!(cpu.r[8], 2);
    assert_eq!(cpu.r[12], 3);
    assert_eq!(cpu.r[0], 0x02000000);
}

#[test]
fn data_execute() {
    let mut cpu = CPU::new();

    // AND R1, R2, R4 LSL R1
    cpu.r[1] = 1;
    cpu.r[2] = 2;
    cpu.r[3] = 1;
    cpu.r[4] = 0xffffffff;
    data_processing::execute(&mut cpu, (false, 0b0000, true, 2, 1, 0b0011_0_00_1_0100));
    assert_eq!(cpu.r[1], 2);
    assert_eq!(cpu.get_cpsr_bit(PSRBit::C), true);
}

#[test]
fn decode_strh() {
    let instruction = 0b0000_000_11111_1010_0101_1111_1011_1111;
    assert_eq!(
        halfword_data_transfer::decode(instruction),
        (true, true, true, true, 0b101, 0b1010, 0b0101, 0b11111111)
    );
}

#[test]
fn halfword_transfer() {
    let mut cpu = CPU::new();
    let mut memory = Memory::new();

    memory.store16(0x02000000, 0xdead);
    cpu.r[0] = 0x02000000;

    // Post-indexing, up offset, write back, load unsigned halfword
    // base = r0, dst = r1, offset = 2
    halfword_data_transfer::execute(&mut cpu, &mut memory, (false, true, true, true, 0b101, 0, 1, 2));
    assert_eq!(cpu.r[1], 0xdead);
    assert_eq!(cpu.r[0], 0x02000002);

    memory.store8(0x02000001, 0xff);
    // Pre-indexing, down offset, write back, load signed byte
    // base = r0, src = r1, offset = 1
    halfword_data_transfer::execute(&mut cpu, &mut memory, (true, false, true, true, 0b110, 0, 1, 1));
    assert_eq!(cpu.r[1], 0xffffffff);
    assert_eq!(cpu.r[0], 0x02000001);
}

#[test]
fn mul_execute() {
    let mut cpu = CPU::new();

    cpu.r[0] = 0xfffffff6;
    cpu.r[1] = 0x00000014;
    multiply_accumulate::execute(&mut cpu, (false, false, 3, 0, 0, 1));
    assert_eq!(cpu.r[3], 0xffffff38);

    cpu.r[0] = 0x10;
    cpu.r[1] = 0x10000000;
    multiply_accumulate::execute(&mut cpu, (false, true, 3, 0, 0, 1));
    assert_eq!(cpu.r[3], 0);
    assert_eq!(cpu.get_cpsr_bit(PSRBit::Z), true);
    assert_eq!(cpu.get_cpsr_bit(PSRBit::N), false);
}

#[test]
fn mul_long_execute() {
    let mut cpu = CPU::new();

    cpu.r[0] = 0x10000000;
    cpu.r[1] = 0x10000000;

    multiply_long_accumulate::execute(&mut cpu, (true, false, false, 4, 3, 0, 1));

    assert_eq!(cpu.r[3], 0);
    assert_eq!(cpu.r[4], 0x01000000);

    cpu.r[0] = 0xffffffff;
    cpu.r[1] = 0xffffffff;

    multiply_long_accumulate::execute(&mut cpu, (false, false, true, 4, 3, 0, 1));
    assert_eq!(cpu.r[3], 1);
    assert_eq!(cpu.r[4], 0);
    assert_eq!(cpu.get_cpsr_bit(PSRBit::N), false);
}

#[test]
fn test_msr() {
    let mut cpu = CPU::new();

    // MSR CPSR
    cpu.r[0] = 0xf00000f1;
    psr_transfer::decode_execute(&mut cpu, 0b0000_00010_0_10100_1_1111_00000000_0000);
    assert_eq!(cpu.get_cpsr(), 0xf00000f1);

    // MSR SPSR flag bits
    psr_transfer::decode_execute(&mut cpu, 0b0000_00010_1_10100_0_1111_00000000_0000);
    assert_eq!(cpu.get_spsr(), 0xf0000000);
}

#[test]
fn byte_transfer() {
    let mut cpu = CPU::new();
    let mut memory = Memory::new();

    memory.store8(0x02000001, 0xff);
    cpu.r[0] = 0x02000000;

    // Immediate offset, pre-indexing, up offset, write back, load byte
    single_data_transfer::execute(&mut cpu, &mut memory, (true, true, true, true, 0b11, 0, 1, 1));
    assert_eq!(cpu.r[1], 0xff);
    assert_eq!(cpu.r[0], 0x02000001);

    // Immediate offset, pre-indexing, down offset, no write back, store byte
    single_data_transfer::execute(&mut cpu, &mut memory, (true, true, false, false, 0b01, 0, 1, 1));
    assert_eq!(memory.load8(0x02000000), 0xff);
}

#[test]
fn word_transfer() {
    let mut cpu = CPU::new();
    let mut memory = Memory::new();

    memory.store32(0x02000000, 0xdeadbeef);
    cpu.r[0] = 0x02000000;

    // Immediate offset, post-indexing, up offset, write back, load word
    single_data_transfer::execute(&mut cpu, &mut memory, (true, false, true, true, 0b10, 0, 1, 4));
    assert_eq!(cpu.r[1], 0xdeadbeef);
    assert_eq!(cpu.r[0], 0x02000004);

    cpu.r[1] = 0;
    // Immediate offset, pre-indexing, down offset, write back, store word
    single_data_transfer::execute(&mut cpu, &mut memory, (true, true, false, true, 0b00, 0, 1, 4));
    assert_eq!(memory.load32(0x02000000), 0);
    assert_eq!(cpu.r[0], 0x02000000);
}
