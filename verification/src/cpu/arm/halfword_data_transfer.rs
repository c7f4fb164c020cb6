//! Halfword and signed data transfer.
use vstd::prelude::*;
use crate::util::{bits_spec, bit_spec, bit, bits, add32, sub32, sign_extend, sign_extend_spec};
use crate::cpu::{CPU, CpuView};
use crate::memory::{Memory, MemView};

verus! {

/// Fields: pre-indexing, up, immediate offset, write back, transfer kind
/// `L << 2 | SH`, Rn, Rd, offset.
pub open spec fn hdt_fields(instruction: u32) -> (bool, bool, bool, bool, u32, u32, u32, u32) {
    (
        bit_spec(instruction, 24),
        bit_spec(instruction, 23),
        bit_spec(instruction, 22),
        bit_spec(instruction, 21),
        (((instruction >> 20u32) & 1) * 4 + bits_spec(instruction, 6, 5)) as u32,
        bits_spec(instruction, 19, 16),
        bits_spec(instruction, 15, 12),
        (bits_spec(instruction, 11, 8) * 16 + bits_spec(instruction, 3, 0)) as u32,
    )
}

/// Transfer kinds that are handled: stores 1 - 3, loads 5 - 7.
pub open spec fn hdt_kind_ok(lsh: u32) -> bool {
    lsh == 1 || lsh == 2 || lsh == 3 || lsh == 5 || lsh == 6 || lsh == 7
}

/// Processor and memory after a halfword transfer. Kind 1 and 3 store a
/// halfword, 2 a byte, 5 loads a halfword, 6 a sign extended byte, 7 a sign
/// extended halfword. The base is written back with post-indexing or when
/// `w` is set.
pub open spec fn hdt_spec(c: CpuView, m: MemView, f: (bool, bool, bool, bool, u32, u32, u32, u32)) -> (CpuView, MemView) {
    let (p, u, i, w, lsh, rn, rd, offset) = f;
    let noffset = if i { offset } else { c.r[offset as int] };
    let post = c.r[rn as int];
    let pre = if u { add32(post, noffset) } else { sub32(post, noffset) };
    let address = if p { pre } else { post };
    let data = c.r[rd as int];
    let (c1, m1) = if lsh == 1 || lsh == 3 {
        (c, m.store16(address, (data % 0x1_0000) as u16))
    } else if lsh == 2 {
        (c, m.store8(address, (data % 0x100) as u8))
    } else if lsh == 5 {
        (c.set_reg(rd as int, m.load16(address) as u32), m)
    } else if lsh == 6 {
        (c.set_reg(rd as int, sign_extend_spec(m.load8(address) as u32, 7) as u32), m)
    } else {
        (c.set_reg(rd as int, sign_extend_spec(m.load16(address) as u32, 15) as u32), m)
    };
    (if w || !p { c1.set_reg(rn as int, pre) } else { c1 }, m1)
}

/// Decode and execute a halfword transfer.
pub fn decode_execute(cpu: &mut CPU, memory: &mut Memory, instruction: u32)
    requires
        old(memory).wf(),
        hdt_kind_ok(hdt_fields(instruction).4),
        !hdt_fields(instruction).2 ==> hdt_fields(instruction).7 < 16,
    ensures
        final(memory).wf(),
        (final(cpu)@, final(memory)@) == hdt_spec(old(cpu)@, old(memory)@, hdt_fields(instruction)),
{
    execute(cpu, memory, decode(instruction));
}

/// Split a halfword transfer into its fields.
pub fn decode(instruction: u32) -> (r: (bool, bool, bool, bool, u32, u32, u32, u32))
    ensures
        r == hdt_fields(instruction),
        r.5 < 16 && r.6 < 16 && r.7 < 256,
{
    let p = bit(instruction, 24);
    let u = bit(instruction, 23);
    let w = bit(instruction, 21);
    let rn = bits(instruction, 19, 16);
    let rd = bits(instruction, 15, 12);
    // The instruction is dispatched later on by the L, S and H bits.
    proof {
        crate::util::lemma_and_bound(instruction >> 20u32, 1);
    }
    let lsh = (instruction >> 20u32 & 1) * 4 + bits(instruction, 6, 5);
    // The offset is a register or an immediate, by bit 22.
    let i = bit(instruction, 22);
    let offset = bits(instruction, 11, 8) * 16 + bits(instruction, 3, 0);
    (p, u, i, w, lsh, rn, rd, offset)
}

/// Execute a decoded halfword transfer.
pub fn execute(cpu: &mut CPU, memory: &mut Memory, f: (bool, bool, bool, bool, u32, u32, u32, u32))
    requires
        old(memory).wf(),
        hdt_kind_ok(f.4),
        f.5 < 16,
        f.6 < 16,
        !f.2 ==> f.7 < 16,
    ensures
        final(memory).wf(),
        (final(cpu)@, final(memory)@) == hdt_spec(old(cpu)@, old(memory)@, f),
{
    let (p, u, i, w, lsh, rn, rd, offset) = f;
    let noffset = if i {
        offset
    } else {
        cpu.r[offset as usize]
    };
    let post = cpu.r[rn as usize];
    let pre = if u {
        post.wrapping_add(noffset)
    } else {
        post.wrapping_sub(noffset)
    };
    let address = if p {
        pre
    } else {
        post
    };
    let data = cpu.r[rd as usize];
    if lsh == 1 || lsh == 3 {
        memory.store16(address, (data % 0x1_0000) as u16);
    } else if lsh == 2 {
        memory.store8(address, (data % 0x100) as u8);
    } else if lsh == 5 {
        cpu.r[rd as usize] = memory.load16(address) as u32;
    } else if lsh == 6 {
        cpu.r[rd as usize] = #[verifier::truncate] (sign_extend(memory.load8(address) as u32, 7) as u32);
    } else {
        cpu.r[rd as usize] = #[verifier::truncate] (sign_extend(memory.load16(address) as u32, 15) as u32);
    }
    if w || !p {
        cpu.r[rn as usize] = pre;
    }

}

} // verus!
