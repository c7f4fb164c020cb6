//! Single data transfer: LDR, STR and their byte forms.
use vstd::prelude::*;
use crate::util::{bits_spec, bit_spec, bit, bits, add32, sub32};
use crate::cpu::{CPU, CpuView};
use crate::cpu::register::{PSRBit, flag, set_bit_spec};
use crate::cpu::barrel_shifter::{shift_register, shift_register_spec};
use crate::memory::{Memory, MemView};

verus! {

/// Fields: immediate offset (bit 25 clear), pre-indexing, up, write back,
/// transfer kind `L << 1 | B`, Rn, Rd, offset.
pub open spec fn sdt_fields(instruction: u32) -> (bool, bool, bool, bool, u32, u32, u32, u32) {
    (
        !bit_spec(instruction, 25),
        bit_spec(instruction, 24),
        bit_spec(instruction, 23),
        bit_spec(instruction, 21),
        (((instruction >> 20u32) & 1) * 2 + ((instruction >> 22u32) & 1)) as u32,
        bits_spec(instruction, 19, 16),
        bits_spec(instruction, 15, 12),
        bits_spec(instruction, 11, 0),
    )
}

/// Processor and memory after a single data transfer. With `i` set the
/// offset is the 12-bit immediate, else a shifted register (which sets the
/// carry). Kind 0 stores a word, 1 a byte, 2 loads a word, 3 a byte. The
/// base is written back with post-indexing or when `w` is set.
pub open spec fn sdt_spec(c: CpuView, m: MemView, f: (bool, bool, bool, bool, u32, u32, u32, u32)) -> (CpuView, MemView) {
    let (i, p, u, w, lb, rn, rd, offset) = f;
    let sh = shift_register_spec(c.r, offset, flag(c.cpsr, PSRBit::C));
    let c0 = if i { c } else { c.with_cpsr(set_bit_spec(c.cpsr, 29, sh.1)) };
    let noffset = if i { offset } else { sh.0 };
    let post = c.r[rn as int];
    let pre = if u { add32(post, noffset) } else { sub32(post, noffset) };
    let address = if p { pre } else { post };
    let data = c.r[rd as int];
    let (c1, m1) = if lb == 0 {
        (c0, m.store32(address, data))
    } else if lb == 1 {
        (c0, m.store8(address, (data % 0x100) as u8))
    } else if lb == 2 {
        (c0.set_reg(rd as int, m.load32(address)), m)
    } else {
        (c0.set_reg(rd as int, m.load8(address) as u32), m)
    };
    (if w || !p { c1.set_reg(rn as int, pre) } else { c1 }, m1)
}

/// Decode and execute a single data transfer.
pub fn decode_execute(cpu: &mut CPU, memory: &mut Memory, instruction: u32)
    requires
        old(memory).wf(),
    ensures
        final(memory).wf(),
        (final(cpu)@, final(memory)@) == sdt_spec(old(cpu)@, old(memory)@, sdt_fields(instruction)),
{
    execute(cpu, memory, decode(instruction));
}

/// Split a single data transfer into its fields.
pub fn decode(instruction: u32) -> (r: (bool, bool, bool, bool, u32, u32, u32, u32))
    ensures
        r == sdt_fields(instruction),
        r.4 < 4 && r.5 < 16 && r.6 < 16,
{
    let i = !bit(instruction, 25);
    let p = bit(instruction, 24);
    let u = bit(instruction, 23);
    let w = bit(instruction, 21);
    let rn = bits(instruction, 19, 16);
    let rd = bits(instruction, 15, 12);
    let offset = bits(instruction, 11, 0);
    // The instruction is dispatched later on by the L and B bits.
    let b = instruction >> 22u32 & 1;
    let l = instruction >> 20u32 & 1;
    proof {
        crate::util::lemma_and_bound(instruction >> 22u32, 1);
        crate::util::lemma_and_bound(instruction >> 20u32, 1);
    }
    let lb = l * 2 + b;
    (i, p, u, w, lb, rn, rd, offset)
}

/// Execute a decoded single data transfer.
pub fn execute(cpu: &mut CPU, memory: &mut Memory, f: (bool, bool, bool, bool, u32, u32, u32, u32))
    requires
        old(memory).wf(),
        f.4 < 4,
        f.5 < 16,
        f.6 < 16,
    ensures
        final(memory).wf(),
        (final(cpu)@, final(memory)@) == sdt_spec(old(cpu)@, old(memory)@, f),
{
    let (i, p, u, w, lb, rn, rd, offset) = f;
    let noffset = if i {
        offset
    } else {
        shift_register(cpu, offset)
    };
    let post = cpu.r[rn as usize];
    let pre = if u {
        post.wrapping_add(noffset)
    } else {
        post.wrapping_sub(noffset)
    };
    let address = if p {
        pre
    } else {
        post
    };
    let data = cpu.r[rd as usize];
    // Misaligned word accesses rotate as the memory does.
    if lb == 0 {
        memory.store32(address, data);
    } else if lb == 1 {
        memory.store8(address, (data % 0x100) as u8);
    } else if lb == 2 {
        cpu.r[rd as usize] = memory.load32(address);
    } else {
        cpu.r[rd as usize] = memory.load8(address) as u32;
    }
    // Privileged write back is not handled.
    if w || !p {
        cpu.r[rn as usize] = pre;
    }

}

} // verus!
