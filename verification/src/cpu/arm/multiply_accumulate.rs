//! Multiply and multiply-accumulate.
use vstd::prelude::*;
use crate::util::{bits_spec, bit_spec, BitField};
use crate::cpu::{CPU, CpuView};
use crate::cpu::register::PSRBit;

verus! {

/// Fields: accumulate, set flags, Rd, Rn, Rs, Rm.
pub open spec fn mul_fields(instruction: u32) -> (bool, bool, u32, u32, u32, u32) {
    (
        bit_spec(instruction, 21),
        bit_spec(instruction, 20),
        bits_spec(instruction, 19, 16),
        bits_spec(instruction, 15, 12),
        bits_spec(instruction, 11, 8),
        bits_spec(instruction, 3, 0),
    )
}

/// Product of two words modulo 2^32.
pub open spec fn mul32(x: u32, y: u32) -> u32 {
    ((x as nat * y as nat) % 0x1_0000_0000) as u32
}

/// State after MUL / MLA: Rd = Rm * Rs (+ Rn), modulo 2^32; with `s`, N
/// and Z from the result (C and V are not changed).
pub open spec fn mul_spec(c: CpuView, f: (bool, bool, u32, u32, u32, u32)) -> CpuView {
    let (a, s, rd, rn, rs, rm) = f;
    let p = mul32(c.r[rm as int], c.r[rs as int]);
    let res = if a { crate::util::add32(p, c.r[rn as int]) } else { p };
    let c1 = if s { c.set_flag(PSRBit::Z, res == 0).set_flag(PSRBit::N, bit_spec(res, 31)) } else { c };
    c1.set_reg(rd as int, res)
}

/// Decode and execute a multiply.
pub fn decode_execute(cpu: &mut CPU, instruction: u32)
    ensures
        final(cpu)@ == mul_spec(old(cpu)@, mul_fields(instruction)),
{
    execute(cpu, decode(instruction));
}

/// Split a multiply instruction into its fields.
pub fn decode(instruction: u32) -> (r: (bool, bool, u32, u32, u32, u32))
    ensures
        r == mul_fields(instruction),
        r.2 < 16 && r.3 < 16 && r.4 < 16 && r.5 < 16,
{
    let a = instruction.bit(21);
    let s = instruction.bit(20);
    let rd = instruction.bits(19, 16);
    let rn = instruction.bits(15, 12);
    let rs = instruction.bits(11, 8);
    let rm = instruction.bits(3, 0);
    (a, s, rd, rn, rs, rm)
}

/// Execute a decoded multiply.
pub fn execute(cpu: &mut CPU, f: (bool, bool, u32, u32, u32, u32))
    requires
        f.2 < 16 && f.3 < 16 && f.4 < 16 && f.5 < 16,
    ensures
        final(cpu)@ == mul_spec(old(cpu)@, f),
        final(cpu).r[f.2 as int] == (old(cpu).r[f.5 as int] as int * old(cpu).r[f.4 as int] as int + if f.0 {
            old(cpu).r[f.3 as int] as int
        } else {
            0
        }) % 0x1_0000_0000,
{
    proof {
        lemma_multiply_result(old(cpu)@, f.0, f.1, f.2, f.3, f.4, f.5);
    }
    let (a, s, rd, rn, rs, rm) = f;
    let mut result = cpu.r[rm as usize].wrapping_mul(cpu.r[rs as usize]);
    // With the accumulate bit, Rn is added to the product.
    if a {
        result = result.wrapping_add(cpu.r[rn as usize]);
    }
    if s {
        cpu.set_cpsr_bit(PSRBit::Z, result == 0);
        cpu.set_cpsr_bit(PSRBit::N, result.bit(31));
        // C is set to a meaningless value; V is unaffected.
    }
    cpu.r[rd as usize] = result;

}

/// MUL leaves in Rd the product of Rm and Rs, and MLA the product plus
/// Rn, modulo 2^32; no other register changes.
pub proof fn lemma_multiply_result(c: CpuView, a: bool, s: bool, rd: u32, rn: u32, rs: u32, rm: u32)
    requires
        c.r.len() == 16,
        rd < 16 && rn < 16 && rs < 16 && rm < 16,
    ensures
        mul_spec(c, (a, s, rd, rn, rs, rm)).r[rd as int] == (c.r[rm as int] as int * c.r[rs as int] as int + if a {
            c.r[rn as int] as int
        } else {
            0
        }) % 0x1_0000_0000,
        forall|j: int| 0 <= j < 16 && j != rd ==> mul_spec(c, (a, s, rd, rn, rs, rm)).r[j] == c.r[j],
{
    let x = c.r[rm as int] as int;
    let y = c.r[rs as int] as int;
    let z = c.r[rn as int] as int;
    let big = 0x1_0000_0000int;
    let p = mul32(c.r[rm as int], c.r[rs as int]);
    assert(0 <= x * y) by (nonlinear_arith)
        requires
            0 <= x,
            0 <= y,
    ;
    if a {
        vstd::arithmetic::div_mod::lemma_add_mod_noop(x * y, z, big);
        vstd::arithmetic::div_mod::lemma_small_mod(z as nat, big as nat);
        let q = p as int + z;
        if q >= big {
            vstd::arithmetic::div_mod::lemma_mod_sub_multiples_vanish(q, big);
            vstd::arithmetic::div_mod::lemma_small_mod((q - big) as nat, big as nat);
        } else {
            vstd::arithmetic::div_mod::lemma_small_mod(q as nat, big as nat);
        }
    }
}

} // verus!
