//! Single data swap: SWP and SWPB.
use vstd::prelude::*;
use crate::util::{bits_spec, bit_spec, BitField};
use crate::cpu::{CPU, CpuView};
use crate::memory::{Memory, MemView};

verus! {

/// Fields: byte, Rn, Rd, Rm.
pub open spec fn swp_fields(instruction: u32) -> (bool, u32, u32, u32) {
    (
        bit_spec(instruction, 22),
        bits_spec(instruction, 19, 16),
        bits_spec(instruction, 15, 12),
        bits_spec(instruction, 3, 0),
    )
}

/// Processor and memory after a swap: the old contents at `[Rn]` go to Rd,
/// Rm is written to `[Rn]`.
pub open spec fn swp_spec(c: CpuView, m: MemView, f: (bool, u32, u32, u32)) -> (CpuView, MemView) {
    let (b, rn, rd, rm) = f;
    let a = c.r[rn as int];
    if b {
        (c.set_reg(rd as int, m.load8(a) as u32), m.store8(a, (c.r[rm as int] % 0x100) as u8))
    } else {
        (c.set_reg(rd as int, m.load32(a)), m.store32(a, c.r[rm as int]))
    }
}

/// Decode and execute a swap.
pub fn decode_execute(cpu: &mut CPU, memory: &mut Memory, instruction: u32)
    requires
        old(memory).wf(),
    ensures
        final(memory).wf(),
        (final(cpu)@, final(memory)@) == swp_spec(old(cpu)@, old(memory)@, swp_fields(instruction)),
{
    execute(cpu, memory, decode(instruction));
}

/// Split a swap into its fields.
pub fn decode(instruction: u32) -> (r: (bool, u32, u32, u32))
    ensures
        r == swp_fields(instruction),
        r.1 < 16 && r.2 < 16 && r.3 < 16,
{
    let b = instruction.bit(22);
    let rn = instruction.bits(19, 16);
    let rd = instruction.bits(15, 12);
    let rm = instruction.bits(3, 0);
    (b, rn, rd, rm)
}

/// Execute a decoded swap.
pub fn execute(cpu: &mut CPU, memory: &mut Memory, f: (bool, u32, u32, u32))
    requires
        old(memory).wf(),
        f.1 < 16 && f.2 < 16 && f.3 < 16,
    ensures
        final(memory).wf(),
        (final(cpu)@, final(memory)@) == swp_spec(old(cpu)@, old(memory)@, f),
{
    let (b, rn, rd, rm) = f;
    let a = cpu.r[rn as usize];
    if b {
        let temp = memory.load8(a);
        memory.store8(a, (cpu.r[rm as usize] % 0x100) as u8);
        cpu.r[rd as usize] = temp as u32;
    } else {
        let temp = memory.load32(a);
        memory.store32(a, cpu.r[rm as usize]);
        cpu.r[rd as usize] = temp;
    }

}

} // verus!
