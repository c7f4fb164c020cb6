//! Thumb format 11: SP relative load and store.
use vstd::prelude::*;
use crate::util::{bits_spec, bit_spec, BitField, add32};
use crate::cpu::{CPU, CpuView};
use crate::memory::{Memory, MemView, view_wf, region_of, region_size, offset_spec, lemma_store32_load32};

verus! {

/// Fields: load, Rd, word offset.
pub open spec fn spl_fields(instruction: u16) -> (bool, u32, u32) {
    let i = instruction as u32;
    (bit_spec(i, 11), bits_spec(i, 10, 8), bits_spec(i, 7, 0))
}

/// Processor and memory after the instruction: the word aligned SP plus
/// four times the offset is loaded into Rd, or Rd is stored there.
pub open spec fn spl_spec(c: CpuView, m: MemView, f: (bool, u32, u32)) -> (CpuView, MemView) {
    let (l, rd, word8) = f;
    let address = add32(c.r[13] & 0xffff_fffc, (word8 * 4) as u32);
    if l {
        (c.set_reg(rd as int, m.load32(address)), m)
    } else {
        (c, m.store32(address, c.r[rd as int]))
    }
}

/// Decode and execute.
pub fn decode_execute(cpu: &mut CPU, memory: &mut Memory, instruction: u16)
    requires
        old(memory).wf(),
    ensures
        final(memory).wf(),
        (final(cpu)@, final(memory)@) == spl_spec(old(cpu)@, old(memory)@, spl_fields(instruction)),
{
    execute(cpu, memory, decode(instruction));
}

/// Split the instruction into its fields.
pub fn decode(instruction: u16) -> (r: (bool, u32, u32))
    ensures
        r == spl_fields(instruction),
        r.1 < 8 && r.2 < 256,
{
    let l = instruction.bit(11);
    let rd = instruction.bits(10, 8);
    let word8 = instruction.bits(7, 0);
    (l, rd, word8)
}

/// Execute the decoded instruction.
pub fn execute(cpu: &mut CPU, memory: &mut Memory, f: (bool, u32, u32))
    requires
        old(memory).wf(),
        f.1 < 16 && f.2 < 256,
    ensures
        final(memory).wf(),
        (final(cpu)@, final(memory)@) == spl_spec(old(cpu)@, old(memory)@, f),
        f.0 ==> final(cpu).r[f.1 as int] == old(memory)@.load32(
            ((old(cpu).r[13] - old(cpu).r[13] % 4 + 4 * f.2) % 0x1_0000_0000) as u32,
        ),
{
    proof {
        lemma_spl_address(old(cpu).r[13], f.2);
    }
    let (l, rd, word8) = f;
    // Bit 1 of the SP is forced to 0 so that the address is word aligned.
    let address = (cpu.r[13] & 0xffff_fffc).wrapping_add(word8 * 4);
    if l {
        cpu.r[rd as usize] = memory.load32(address);
    } else {
        memory.store32(address, cpu.r[rd as usize]);
    }

}

/// The address of an SP relative transfer with offset field `k`, in plain
/// arithmetic: SP with its two low bits cleared, plus four times `k`,
/// modulo 2^32.
proof fn lemma_spl_address(sp: u32, k: u32)
    requires
        k < 256,
    ensures
        add32(sp & 0xffff_fffc, (k * 4) as u32) == (sp - sp % 4 + 4 * k) % 0x1_0000_0000,
        (sp - sp % 4 + 4 * k) % 0x1_0000_0000 % 4 == 0,
{
    assert(sp & 0xffff_fffc == sp - sp % 4) by (bit_vector);
    let x = sp - sp % 4 + 4 * k;
    if x >= 0x1_0000_0000 {
        vstd::arithmetic::div_mod::lemma_mod_sub_multiples_vanish(x, 0x1_0000_0000);
        vstd::arithmetic::div_mod::lemma_small_mod((x - 0x1_0000_0000) as nat, 0x1_0000_0000);
    } else {
        vstd::arithmetic::div_mod::lemma_small_mod(x as nat, 0x1_0000_0000);
    }
}

/// An SP relative load with offset field `k` loads Rd with the word at the
/// word aligned SP plus `4 * k`; no other register and no memory changes.
pub proof fn lemma_sp_load(c: CpuView, m: MemView, rd: u32, k: u32)
    requires
        c.r.len() == 16,
        rd < 8,
        k < 256,
    ensures
        spl_spec(c, m, (true, rd, k)).0.r[rd as int] == m.load32(
            ((c.r[13] - c.r[13] % 4 + 4 * k) % 0x1_0000_0000) as u32,
        ),
        forall|j: int| 0 <= j < 16 && j != rd ==> spl_spec(c, m, (true, rd, k)).0.r[j] == c.r[j],
        spl_spec(c, m, (true, rd, k)).1 == m,
{
    lemma_spl_address(c.r[13], k);
}

/// An SP relative store with offset field `k` writes Rd to the word at
/// the word aligned SP plus `4 * k`, where a load with the same offset
/// reads it back; registers do not change.
pub proof fn lemma_sp_store_load(c: CpuView, m: MemView, rd: u32, rd2: u32, k: u32)
    requires
        c.r.len() == 16,
        rd < 8,
        rd2 < 8,
        k < 256,
        view_wf(m),
        ({
            let a = ((c.r[13] - c.r[13] % 4 + 4 * k) % 0x1_0000_0000) as u32;
            1 <= region_of(a) <= 6 && offset_spec(a, 0x00ff_fffc) + 4 <= region_size(region_of(a))
        }),
    ensures
        spl_spec(c, m, (false, rd, k)).0 == c,
        spl_spec(c, m, (false, rd, k)).1.load32(((c.r[13] - c.r[13] % 4 + 4 * k) % 0x1_0000_0000) as u32)
            == c.r[rd as int],
        spl_spec(c, spl_spec(c, m, (false, rd, k)).1, (true, rd2, k)).0.r[rd2 as int] == c.r[rd as int],
{
    lemma_spl_address(c.r[13], k);
    let a = ((c.r[13] - c.r[13] % 4 + 4 * k) % 0x1_0000_0000) as u32;
    lemma_store32_load32(m, a, c.r[rd as int]);
}

} // verus!
