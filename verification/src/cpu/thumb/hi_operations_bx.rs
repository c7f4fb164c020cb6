//! Thumb format 5: operations on the high registers, and branch exchange.
use vstd::prelude::*;
use crate::util::{bits_spec, bit_spec, BitField};
use crate::cpu::{CPU, CpuView};
use crate::cpu::alu;
use crate::cpu::alu::alu_spec;
use crate::cpu::register::PSRBit;

verus! {

/// Fields: operation (0 ADD, 1 CMP, 2 MOV, 3 BX), Rs (with H2), Rd (with H1).
pub open spec fn hi_fields(instruction: u16) -> (u32, u32, u32) {
    let i = instruction as u32;
    (bits_spec(i, 9, 8), bits_spec(i, 6, 3), bits_spec(i, 2, 0) | ((i >> 4u32) & 0b1000))
}

/// State after the instruction. ADD and MOV leave the flags alone, CMP
/// sets them and writes no register; BX takes the state from bit 0 of Rs.
/// A write to R15 refills the pipeline.
pub open spec fn hi_spec(c: CpuView, f: (u32, u32, u32)) -> CpuView {
    let (op, rs, rd) = f;
    let op1 = c.r[rd as int];
    let op2 = c.r[rs as int];
    if op == 0 {
        c.write_reg(rd as int, alu_spec(4, op1, op2, c.cpsr, false).0)
    } else if op == 1 {
        c.with_cpsr(alu_spec(10, op1, op2, c.cpsr, true).1)
    } else if op == 2 {
        c.write_reg(rd as int, op2)
    } else {
        c.set_flag(PSRBit::T, bit_spec(op2, 0)).set_reg(15, op2).flushed()
    }
}

/// Decode and execute.
pub fn decode_execute(cpu: &mut CPU, instruction: u16)
    ensures
        final(cpu)@ == hi_spec(old(cpu)@, hi_fields(instruction)),
{
    execute(cpu, decode(instruction));
}

/// Split the instruction into its fields; H1 and H2 extend Rd and Rs.
pub fn decode(instruction: u16) -> (r: (u32, u32, u32))
    ensures
        r == hi_fields(instruction),
        r.0 < 4 && r.1 < 16 && r.2 < 16,
{
    let op = instruction.bits(9, 8);
    let rs = instruction.bits(6, 3);
    let lo = instruction.bits(2, 0);
    let rd = lo | ((instruction as u32 >> 4u32) & 0b1000);
    proof {
        lemma_or_bound(lo, (instruction as u32 >> 4u32));
    }
    (op, rs, rd)
}

proof fn lemma_or_bound(a: u32, b: u32)
    by (bit_vector)
    requires
        a <= 7,
    ensures
        a | (b & 0b1000) < 16,
{
}

/// Execute the decoded instruction.
pub fn execute(cpu: &mut CPU, f: (u32, u32, u32))
    requires
        f.0 < 4 && f.1 < 16 && f.2 < 16,
    ensures
        final(cpu)@ == hi_spec(old(cpu)@, f),
{
    let (op, rs, rd) = f;
    let op1 = cpu.r[rd as usize];
    let op2 = cpu.r[rs as usize];
    if op == 0 {
        let v = alu::add(cpu, op1, op2, false);
        cpu.r[rd as usize] = v;
        if rd == 15 {
            cpu.flush();
        }
    } else if op == 1 {
        alu::compare(cpu, op1, op2);
    } else if op == 2 {
        let v = alu::mov(cpu, op1, op2, false);
        cpu.r[rd as usize] = v;
        if rd == 15 {
            cpu.flush();
        }
    } else {
        cpu.set_cpsr_bit(PSRBit::T, op2.bit(0));
        cpu.r[15] = op2;
        cpu.flush();
    }

}

} // verus!
