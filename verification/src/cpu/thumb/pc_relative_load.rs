//! Thumb format 6: PC relative address of a word (`LDR Rd, [PC, #imm]`).
use vstd::prelude::*;
use crate::util::{bits_spec, BitField, add32};
use crate::cpu::{CPU, CpuView};

verus! {

/// Fields: Rd, word offset.
pub open spec fn pcl_fields(instruction: u16) -> (u32, u32) {
    let i = instruction as u32;
    (bits_spec(i, 10, 8), bits_spec(i, 7, 0))
}

/// State after the instruction: Rd holds the word aligned PC plus four
/// times the offset.
pub open spec fn pcl_spec(c: CpuView, f: (u32, u32)) -> CpuView {
    c.set_reg(f.0 as int, add32(c.r[15] & 0xffff_fffc, (f.1 * 4) as u32))
}

/// Decode and execute.
pub fn decode_execute(cpu: &mut CPU, instruction: u16)
    ensures
        final(cpu)@ == pcl_spec(old(cpu)@, pcl_fields(instruction)),
{
    execute(cpu, decode(instruction));
}

/// Split the instruction into its fields.
pub fn decode(instruction: u16) -> (r: (u32, u32))
    ensures
        r == pcl_fields(instruction),
        r.0 < 8 && r.1 < 256,
{
    let rd = instruction.bits(10, 8);
    let word8 = instruction.bits(7, 0);
    (rd, word8)
}

/// Execute the decoded instruction.
pub fn execute(cpu: &mut CPU, f: (u32, u32))
    requires
        f.0 < 16 && f.1 < 256,
    ensures
        final(cpu)@ == pcl_spec(old(cpu)@, f),
{
    let (rd, word8) = f;
    // Bit 1 of the PC is forced to 0 so that the address is word aligned.
    cpu.r[rd as usize] = (cpu.r[15] & 0xffff_fffc).wrapping_add(word8 * 4);

}

} // verus!
