//! Thumb format 19: long branch with link, in two halves.
use vstd::prelude::*;
use crate::util::{bits_spec, bit_spec, BitField, add32, sub32, sign_extend, sign_extend_spec};
use crate::cpu::{CPU, CpuView};

verus! {

/// State after one half. The first half (H clear) puts R15 plus the sign
/// extended offset shifted left by 12 in R14; the second half jumps to R14
/// plus the offset shifted left by one, with the address of the next
/// instruction (bit 0 set) in R14.
pub open spec fn lb_spec(c: CpuView, h: bool, offset: u32) -> CpuView {
    if h {
        c.set_reg(15, add32(c.r[14], offset << 1u32)).set_reg(14, sub32(c.r[15], 2) | 1).flushed()
    } else {
        c.set_reg(14, add32(c.r[15], (sign_extend_spec(offset, 10) as u32) << 12u32))
    }
}

/// Decode and execute one half.
pub fn interpret(cpu: &mut CPU, instruction: u16)
    ensures
        final(cpu)@ == lb_spec(old(cpu)@, bit_spec(instruction as u32, 11), bits_spec(instruction as u32, 10, 0)),
{
    let (h, offset) = decode(instruction);
    execute(cpu, (h, offset));
}

/// Fields: high half, 11-bit offset.
pub fn decode(instruction: u16) -> (r: (bool, u32))
    ensures
        r == (bit_spec(instruction as u32, 11), bits_spec(instruction as u32, 10, 0)),
{
    let h = instruction.bit(11);
    let offset = instruction.bits(10, 0);
    (h, offset)
}

/// Execute one half.
pub fn execute(cpu: &mut CPU, f: (bool, u32))
    ensures
        final(cpu)@ == lb_spec(old(cpu)@, f.0, f.1),
{
    let (h, offset) = f;
    if h {
        let temp = cpu.r[15].wrapping_sub(2);
        cpu.r[15] = cpu.r[14].wrapping_add(offset << 1u32);
        cpu.r[14] = temp | 1;
        cpu.flush();
    } else {
        let e = sign_extend(offset, 10);
        cpu.r[14] = cpu.r[15].wrapping_add((#[verifier::truncate] (e as u32)) << 12u32);
    }

}

} // verus!
