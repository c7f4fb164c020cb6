//! Thumb format 1: move shifted register (LSL, LSR, ASR by an immediate).
use vstd::prelude::*;
use crate::util::{bits_spec, BitField};
use crate::cpu::{CPU, CpuView};
use crate::cpu::barrel_shifter::{shift, shift_spec};
use crate::cpu::register::{PSRBit, flag};

verus! {

/// Fields: shift type, 5-bit amount, Rs, Rd.
pub open spec fn ms_fields(instruction: u16) -> (u32, u32, u32, u32) {
    let i = instruction as u32;
    (bits_spec(i, 12, 11), bits_spec(i, 10, 6), bits_spec(i, 5, 3), bits_spec(i, 2, 0))
}

/// State after the instruction: Rd = Rs shifted; the carry flag takes the
/// carry out.
pub open spec fn ms_spec(c: CpuView, f: (u32, u32, u32, u32)) -> CpuView {
    let (op, offset5, rs, rd) = f;
    let t = shift_spec(c.r[rs as int], offset5, op, flag(c.cpsr, PSRBit::C));
    c.set_flag(PSRBit::C, t.1).set_reg(rd as int, t.0)
}

/// Decode and execute.
pub fn decode_execute(cpu: &mut CPU, instruction: u16)
    ensures
        final(cpu)@ == ms_spec(old(cpu)@, ms_fields(instruction)),
{
    execute(cpu, decode(instruction));
}

/// Split the instruction into its fields.
pub fn decode(instruction: u16) -> (r: (u32, u32, u32, u32))
    ensures
        r == ms_fields(instruction),
        r.0 < 4 && r.2 < 8 && r.3 < 8,
{
    let op = instruction.bits(12, 11);
    let offset5 = instruction.bits(10, 6);
    let rs = instruction.bits(5, 3);
    let rd = instruction.bits(2, 0);
    (op, offset5, rs, rd)
}

/// Execute the decoded instruction.
pub fn execute(cpu: &mut CPU, f: (u32, u32, u32, u32))
    requires
        f.0 < 4 && f.2 < 16 && f.3 < 16,
    ensures
        final(cpu)@ == ms_spec(old(cpu)@, f),
{
    let (op, offset5, rs, rd) = f;
    let v = cpu.r[rs as usize];
    let shifted = shift(cpu, v, offset5, op);
    cpu.r[rd as usize] = shifted;

}

} // verus!
