//! Data processing instructions.
use vstd::prelude::*;
use crate::util::{bits_spec, bit_spec, BitField};
use crate::cpu::{CPU, CpuView};
use crate::cpu::alu;
use crate::cpu::alu::alu_spec;
use crate::cpu::barrel_shifter::{shift_register, rotate_immediate, rotate_immediate_spec, shift_register_spec};
use crate::cpu::register::{PSRBit, flag, set_bit_spec};

verus! {

/// Fields of a data processing instruction: immediate flag, opcode,
/// set-flags bit, Rn, Rd, operand 2.
pub open spec fn dp_fields(instruction: u32) -> (bool, u32, bool, u32, u32, u32) {
    (
        bit_spec(instruction, 25),
        bits_spec(instruction, 24, 21),
        bit_spec(instruction, 20),
        bits_spec(instruction, 19, 16),
        bits_spec(instruction, 15, 12),
        bits_spec(instruction, 11, 0),
    )
}

/// Second operand and status word after the barrel shifter.
pub open spec fn dp_operand_spec(c: CpuView, i: bool, operand2: u32) -> (u32, u32) {
    if i {
        (rotate_immediate_spec(operand2), c.cpsr)
    } else {
        let t = shift_register_spec(c.r, operand2, flag(c.cpsr, PSRBit::C));
        (t.0, set_bit_spec(c.cpsr, 29, t.1))
    }
}

/// State after a data processing instruction. Test and compare opcodes
/// (8 - 11) write no register; a write to R15 refills the pipeline.
pub open spec fn dp_spec(c: CpuView, f: (bool, u32, bool, u32, u32, u32)) -> CpuView {
    let (i, opcode, s, rn, rd, operand2) = f;
    let op2 = dp_operand_spec(c, i, operand2);
    let t = alu_spec(opcode, c.r[rn as int], op2.0, op2.1, s);
    let c2 = c.with_cpsr(t.1);
    if opcode < 8 || opcode > 11 {
        c2.write_reg(rd as int, t.0)
    } else {
        c2
    }
}

/// Decode and execute a data processing instruction.
pub fn decode_execute(cpu: &mut CPU, instruction: u32)
    ensures
        final(cpu)@ == dp_spec(old(cpu)@, dp_fields(instruction)),
{
    execute(cpu, decode(instruction));
}

/// Split a data processing instruction into its fields.
pub fn decode(instruction: u32) -> (r: (bool, u32, bool, u32, u32, u32))
    ensures
        r == dp_fields(instruction),
        r.1 < 16 && r.3 < 16 && r.4 < 16 && r.5 < 4096,
{
    let i = instruction.bit(25);
    let opcode = instruction.bits(24, 21);
    let s = instruction.bit(20);
    let rn = instruction.bits(19, 16);
    let rd = instruction.bits(15, 12);
    let operand2 = instruction.bits(11, 0);
    (i, opcode, s, rn, rd, operand2)
}

/// Execute a decoded data processing instruction.
pub fn execute(cpu: &mut CPU, f: (bool, u32, bool, u32, u32, u32))
    requires
        f.1 < 16,
        f.3 < 16,
        f.4 < 16,
    ensures
        final(cpu)@ == dp_spec(old(cpu)@, f),
{
    let (i, opcode, s, rn, rd, operand2) = f;
    let op1 = cpu.r[rn as usize];
    let op2 = if i {
        rotate_immediate(operand2)
    } else {
        shift_register(cpu, operand2)
    };
    let result = match opcode {
        0b0000 => alu::and(cpu, op1, op2, s),
        0b0001 => alu::eor(cpu, op1, op2, s),
        0b0010 => alu::sub(cpu, op1, op2, s),
        0b0011 => alu::rsb(cpu, op1, op2, s),
        0b0100 => alu::add(cpu, op1, op2, s),
        0b0101 => alu::adc(cpu, op1, op2, s),
        0b0110 => alu::sbc(cpu, op1, op2, s),
        0b0111 => alu::rsc(cpu, op1, op2, s),
        0b1000 => alu::tst(cpu, op1, op2),
        0b1001 => alu::teq(cpu, op1, op2),
        0b1010 => alu::compare(cpu, op1, op2),
        0b1011 => alu::compare_negative(cpu, op1, op2),
        0b1100 => alu::orr(cpu, op1, op2, s),
        0b1101 => alu::mov(cpu, op1, op2, s),
        0b1110 => alu::bic(cpu, op1, op2, s),
        _ => alu::mvn(cpu, op1, op2, s),
    };
    if opcode < 0b1000 || opcode > 0b1011 {
        cpu.r[rd as usize] = result;
        if rd == 15 {
            cpu.flush();
        }
    }

}

} // verus!
