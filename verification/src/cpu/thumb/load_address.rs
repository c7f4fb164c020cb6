//! Thumb format 12: load address (`ADD Rd, PC/SP, #imm`).
use vstd::prelude::*;
use crate::util::{bits_spec, bit_spec, BitField, add32};
use crate::cpu::{CPU, CpuView};

verus! {

/// Fields: SP (else PC), Rd, word offset.
pub open spec fn la_fields(instruction: u16) -> (bool, u32, u32) {
    let i = instruction as u32;
    (bit_spec(i, 11), bits_spec(i, 10, 8), bits_spec(i, 7, 0))
}

/// State after the instruction: Rd = SP or PC plus four times the offset.
pub open spec fn la_spec(c: CpuView, f: (bool, u32, u32)) -> CpuView {
    let (sp, rd, word8) = f;
    c.set_reg(rd as int, add32(if sp { c.r[13] } else { c.r[15] }, (word8 * 4) as u32))
}

/// Decode and execute.
pub fn decode_execute(cpu: &mut CPU, instruction: u16)
    ensures
        final(cpu)@ == la_spec(old(cpu)@, la_fields(instruction)),
{
    execute(cpu, decode(instruction));
}

/// Split the instruction into its fields.
pub fn decode(instruction: u16) -> (r: (bool, u32, u32))
    ensures
        r == la_fields(instruction),
        r.1 < 8 && r.2 < 256,
{
    let sp = instruction.bit(11);
    let rd = instruction.bits(10, 8);
    let word8 = instruction.bits(7, 0);
    (sp, rd, word8)
}

/// Execute the decoded instruction.
pub fn execute(cpu: &mut CPU, f: (bool, u32, u32))
    requires
        f.1 < 16 && f.2 < 256,
    ensures
        final(cpu)@ == la_spec(old(cpu)@, f),
{
    let (sp, rd, word8) = f;
    if sp {
        cpu.r[rd as usize] = cpu.r[13].wrapping_add(word8 * 4);
    } else {
        cpu.r[rd as usize] = cpu.r[15].wrapping_add(word8 * 4);
    }

}

} // verus!
