//! Thumb format 2: add and subtract, register or 3-bit immediate.
use vstd::prelude::*;
use crate::util::{bits_spec, bit_spec, BitField, add32};
use crate::cpu::{CPU, CpuView};
use crate::cpu::alu::add_with_carry;
use crate::cpu::register::PSRBit;

verus! {

/// Fields: immediate flag, subtract, operand 2 (immediate or Rn), Rs, Rd.
pub open spec fn as_fields(instruction: u16) -> (bool, bool, u32, u32, u32) {
    let i = instruction as u32;
    (bit_spec(i, 10), bit_spec(i, 9), bits_spec(i, 8, 6), bits_spec(i, 5, 3), bits_spec(i, 2, 0))
}

/// Two's complement negation.
pub open spec fn neg(x: u32) -> u32 {
    add32(!x, 1)
}

/// State after the flags and result of adding `a` and `b`: V and C from the
/// addition, then Z and N from the result, which goes to Rd.
pub open spec fn thumb_add_spec(c: CpuView, a: u32, b: u32) -> (CpuView, u32) {
    let t = add_with_carry(a, b, 0);
    (c.set_flag(PSRBit::V, t.2).set_flag(PSRBit::C, t.1), t.0)
}

/// State after the instruction. A subtraction adds the two's complement of
/// the operand.
pub open spec fn as_spec(c: CpuView, f: (bool, bool, u32, u32, u32)) -> CpuView {
    let (i, op, operand2, rs, rd) = f;
    let op1 = c.r[rs as int];
    let op2 = if i { operand2 } else { c.r[operand2 as int] };
    let t = thumb_add_spec(c, op1, if op { neg(op2) } else { op2 });
    t.0.set_flag(PSRBit::Z, t.1 == 0).set_flag(PSRBit::N, bit_spec(t.1, 31)).set_reg(rd as int, t.1)
}

/// Add `op1` and `op2`, setting V and C.
pub fn add_flags(cpu: &mut CPU, op1: u32, op2: u32) -> (r: u32)
    ensures
        (final(cpu)@, r) == thumb_add_spec(old(cpu)@, op1, op2),
{
    let sum: u64 = op1 as u64 + op2 as u64;
    let r1 = op1.wrapping_add(op2);
    let c1 = sum > 0xffff_ffff;
    let ssum: i64 = (#[verifier::truncate] (op1 as i32)) as i64 + (#[verifier::truncate] (op2 as i32)) as i64;
    let overflow = ssum > 0x7fff_ffff || ssum < -0x8000_0000;
    cpu.set_cpsr_bit(PSRBit::V, overflow);
    cpu.set_cpsr_bit(PSRBit::C, c1);

    r1
}

/// Decode and execute.
pub fn decode_execute(cpu: &mut CPU, instruction: u16)
    ensures
        final(cpu)@ == as_spec(old(cpu)@, as_fields(instruction)),
{
    execute(cpu, decode(instruction));
}

/// Split the instruction into its fields.
pub fn decode(instruction: u16) -> (r: (bool, bool, u32, u32, u32))
    ensures
        r == as_fields(instruction),
        r.2 < 8 && r.3 < 8 && r.4 < 8,
{
    let i = instruction.bit(10);
    let op = instruction.bit(9);
    let operand2 = instruction.bits(8, 6);
    let rs = instruction.bits(5, 3);
    let rd = instruction.bits(2, 0);
    (i, op, operand2, rs, rd)
}

/// Execute the decoded instruction.
pub fn execute(cpu: &mut CPU, f: (bool, bool, u32, u32, u32))
    requires
        f.2 < 16 && f.3 < 16 && f.4 < 16,
    ensures
        final(cpu)@ == as_spec(old(cpu)@, f),
{
    let (i, op, operand2, rs, rd) = f;
    let op1 = cpu.r[rs as usize];
    let op2 = if i {
        operand2
    } else {
        cpu.r[operand2 as usize]
    };
    let result = if op {
        add_flags(cpu, op1, (!op2).wrapping_add(1))
    } else {
        add_flags(cpu, op1, op2)
    };
    cpu.set_cpsr_bit(PSRBit::Z, result == 0);
    cpu.set_cpsr_bit(PSRBit::N, result.bit(31));
    cpu.r[rd as usize] = result;

}

} // verus!
