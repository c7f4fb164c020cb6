//! Thumb format 3: move, compare, add and subtract an 8-bit immediate.
use vstd::prelude::*;
use crate::util::{bits_spec, bit_spec, BitField};
use crate::cpu::{CPU, CpuView};
use crate::cpu::register::PSRBit;
use crate::cpu::thumb::add_subtract::{add_flags, thumb_add_spec, neg};

verus! {

/// Fields: operation (0 MOV, 1 CMP, 2 ADD, 3 SUB), Rd, immediate.
pub open spec fn mc_fields(instruction: u16) -> (u32, u32, u32) {
    let i = instruction as u32;
    (bits_spec(i, 12, 11), bits_spec(i, 10, 8), bits_spec(i, 7, 0))
}

/// State after the instruction: Z and N from the result (V and C too,
/// except for MOV); CMP writes no register.
pub open spec fn mc_spec(c: CpuView, f: (u32, u32, u32)) -> CpuView {
    let (op, rd, offset8) = f;
    let op1 = c.r[rd as int];
    let t = if op == 0 {
        (c, offset8)
    } else if op == 2 {
        thumb_add_spec(c, op1, offset8)
    } else {
        thumb_add_spec(c, op1, neg(offset8))
    };
    let c1 = t.0.set_flag(PSRBit::Z, t.1 == 0).set_flag(PSRBit::N, bit_spec(t.1, 31));
    if op != 1 { c1.set_reg(rd as int, t.1) } else { c1 }
}

/// Decode and execute.
pub fn decode_execute(cpu: &mut CPU, instruction: u16)
    ensures
        final(cpu)@ == mc_spec(old(cpu)@, mc_fields(instruction)),
{
    execute(cpu, decode(instruction));
}

/// Split the instruction into its fields.
pub fn decode(instruction: u16) -> (r: (u32, u32, u32))
    ensures
        r == mc_fields(instruction),
        r.0 < 4 && r.1 < 8,
{
    let op = instruction.bits(12, 11);
    let rd = instruction.bits(10, 8);
    let offset8 = instruction.bits(7, 0);
    (op, rd, offset8)
}

/// Execute the decoded instruction.
pub fn execute(cpu: &mut CPU, f: (u32, u32, u32))
    requires
        f.1 < 16,
    ensures
        final(cpu)@ == mc_spec(old(cpu)@, f),
{
    let (op, rd, offset8) = f;
    let op1 = cpu.r[rd as usize];
    let op2 = offset8;
    let result = if op == 0 {
        op2
    } else if op == 2 {
        add_flags(cpu, op1, op2)
    } else {
        add_flags(cpu, op1, (!op2).wrapping_add(1))
    };
    cpu.set_cpsr_bit(PSRBit::Z, result == 0);
    cpu.set_cpsr_bit(PSRBit::N, result.bit(31));
    if op != 0b01 {
        cpu.r[rd as usize] = result;
    }

}

} // verus!
