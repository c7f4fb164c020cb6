//! Thumb format 18: unconditional branch.
use vstd::prelude::*;
use crate::util::{bits_spec, BitField, add32, sign_extend, sign_extend_spec};
use crate::cpu::{CPU, CpuView};

verus! {

/// State after the branch: the offset, shifted left by one and sign
/// extended from bit 8, is added to R15 and the pipeline refills.
pub open spec fn ub_spec(c: CpuView, offset11: u32) -> CpuView {
    c.set_reg(15, add32(c.r[15], sign_extend_spec(offset11 << 1u32, 8) as u32)).flushed()
}

/// Decode and execute.
pub fn decode_execute(cpu: &mut CPU, instruction: u16)
    ensures
        final(cpu)@ == ub_spec(old(cpu)@, bits_spec(instruction as u32, 10, 0)),
{
    execute(cpu, decode(instruction));
}

/// The 11-bit offset.
pub fn decode(instruction: u16) -> (r: u32)
    ensures
        r == bits_spec(instruction as u32, 10, 0),
{
    instruction.bits(10, 0)
}

/// Branch by the offset.
pub fn execute(cpu: &mut CPU, offset11: u32)
    ensures
        final(cpu)@ == ub_spec(old(cpu)@, offset11),
{
    let d = sign_extend(offset11 << 1u32, 8);
    cpu.r[15] = cpu.r[15].wrapping_add(#[verifier::truncate] (d as u32));
    cpu.flush();

}

} // verus!
