//! Branch and exchange: jump to the address in Rn and take the state
//! (ARM or Thumb) from its bit 0.
use vstd::prelude::*;
use crate::util::{bits_spec, bit_spec, BitField};
use crate::cpu::{CPU, CpuView};
use crate::cpu::register::PSRBit;

verus! {

/// State after BX Rn.
pub open spec fn bx_spec(c: CpuView, instruction: u32) -> CpuView {
    let v = c.r[bits_spec(instruction, 3, 0) as int];
    let t = bit_spec(v, 0);
    c.set_flag(PSRBit::T, t).set_reg(15, if t { v & 0xffff_fffe } else { v & 0xffff_fffc }).flushed()
}

/// Decode and execute BX.
pub fn decode_execute(cpu: &mut CPU, instruction: u32)
    ensures
        final(cpu)@ == bx_spec(old(cpu)@, instruction),
{
    let rn = instruction.bits(3, 0);
    let v = cpu.r[rn as usize];
    // If bit 0 of Rn is set, the following instructions are Thumb.
    let t = v.bit(0);
    cpu.set_cpsr_bit(PSRBit::T, t);
    if t {
        cpu.r[15] = v & 0xffff_fffe;
    } else {
        cpu.r[15] = v & 0xffff_fffc;
    }
    cpu.flush();

}

} // verus!
