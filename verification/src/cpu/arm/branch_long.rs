//! Branch and branch with link.
use vstd::prelude::*;
use crate::util::{bits_spec, bit_spec, bit, bits, sign_extend, sign_extend_spec, add32, sub32};
use crate::cpu::{CPU, CpuView};

verus! {

/// Branch offset: the 24-bit field shifted left by 2 and sign extended.
pub open spec fn branch_offset(instruction: u32) -> i32 {
    sign_extend_spec(bits_spec(instruction, 23, 0) << 2u32, 25)
}

/// State after a branch: with the link bit, R14 holds the address of the
/// next instruction; R15 moves by the offset and the pipeline refills.
pub open spec fn branch_spec(c: CpuView, instruction: u32) -> CpuView {
    let c1 = if bit_spec(instruction, 24) {
        c.set_reg(14, sub32(c.r[15], 4))
    } else {
        c
    };
    c1.set_reg(15, add32(c.r[15], branch_offset(instruction) as u32)).flushed()
}

/// Decode and execute a branch.
pub fn decode_execute(cpu: &mut CPU, instruction: u32)
    ensures
        final(cpu)@ == branch_spec(old(cpu)@, instruction),
{
    // If the link bit is set, the address of the next instruction is
    // written to the link register, R14.
    let l = bit(instruction, 24);
    // The offset is shifted left by 2 and sign extended to 32 bits.
    let offset: i32 = sign_extend(bits(instruction, 23, 0) << 2u32, 25);
    let pc = cpu.r[15];
    if l {
        cpu.r[14] = pc.wrapping_sub(4);
    }
    cpu.r[15] = pc.wrapping_add(#[verifier::truncate] (offset as u32));
    cpu.flush();

}

} // verus!
