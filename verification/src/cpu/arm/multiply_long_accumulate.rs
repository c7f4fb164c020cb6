//! Multiply long and multiply-accumulate long (64-bit results).
use vstd::prelude::*;
use crate::util::{bits_spec, bit_spec, bit, bits};
use crate::cpu::{CPU, CpuView};
use crate::cpu::register::PSRBit;

verus! {

/// Fields: unsigned (bit 22 clear; set selects SMULL / SMLAL), accumulate,
/// set flags, RdHi, RdLo, Rs, Rm.
pub open spec fn mull_fields(instruction: u32) -> (bool, bool, bool, u32, u32, u32, u32) {
    (
        !bit_spec(instruction, 22),
        bit_spec(instruction, 21),
        bit_spec(instruction, 20),
        bits_spec(instruction, 19, 16),
        bits_spec(instruction, 15, 12),
        bits_spec(instruction, 11, 8),
        bits_spec(instruction, 3, 0),
    )
}

/// 64-bit product of the two registers, unsigned or signed (two's
/// complement).
pub open spec fn product64(u: bool, x: u32, y: u32) -> u64 {
    if u {
        (x as nat * y as nat) as u64
    } else {
        ((((x as i32) as int) * ((y as i32) as int)) as i64) as u64
    }
}

/// State after UMULL / UMLAL / SMULL / SMLAL: RdHi:RdLo = Rm * Rs
/// (+ RdHi:RdLo), modulo 2^64. With `s`, Z is set when RdHi and RdLo were
/// both zero before, and N when bit 31 of RdHi was set before.
pub open spec fn mull_spec(c: CpuView, f: (bool, bool, bool, u32, u32, u32, u32)) -> CpuView {
    let (u, a, s, rdhi, rdlo, rs, rm) = f;
    let p = product64(u, c.r[rm as int], c.r[rs as int]);
    let acc = c.r[rdhi as int] as nat * 0x1_0000_0000 + c.r[rdlo as int] as nat;
    let res: nat = if a { ((p + acc) % 0x1_0000_0000_0000_0000) as nat } else { p as nat };
    let c1 = if s && c.r[rdhi as int] == 0 && c.r[rdlo as int] == 0 { c.set_flag(PSRBit::Z, true) } else { c };
    let c2 = if s && bit_spec(c.r[rdhi as int], 31) { c1.set_flag(PSRBit::N, true) } else { c1 };
    c2.set_reg(rdhi as int, (res / 0x1_0000_0000) as u32).set_reg(rdlo as int, (res % 0x1_0000_0000) as u32)
}

/// Decode and execute a long multiply.
pub fn decode_execute(cpu: &mut CPU, instruction: u32)
    ensures
        final(cpu)@ == mull_spec(old(cpu)@, mull_fields(instruction)),
{
    execute(cpu, decode(instruction));
}

/// Split a long multiply into its fields.
pub fn decode(instruction: u32) -> (r: (bool, bool, bool, u32, u32, u32, u32))
    ensures
        r == mull_fields(instruction),
        r.3 < 16 && r.4 < 16 && r.5 < 16 && r.6 < 16,
{
    let u = !bit(instruction, 22);
    let a = bit(instruction, 21);
    let s = bit(instruction, 20);
    let rdhi = bits(instruction, 19, 16);
    let rdlo = bits(instruction, 15, 12);
    let rs = bits(instruction, 11, 8);
    let rm = bits(instruction, 3, 0);
    (u, a, s, rdhi, rdlo, rs, rm)
}

/// 64-bit product of two words, unsigned or signed.
fn long_product(u: bool, x: u32, y: u32) -> (r: u64)
    ensures
        r == product64(u, x, y),
{
    if u {
        assert(x as nat * y as nat <= 0xffff_ffff * 0xffff_ffff) by (nonlinear_arith)
            requires
                x <= 0xffff_ffff,
                y <= 0xffff_ffff,
        ;
        (x as u64) * (y as u64)
    } else {
        // Operands are sign extended to 64 bits.
        let operand1 = (#[verifier::truncate] (x as i32)) as i64;
        let operand2 = (#[verifier::truncate] (y as i32)) as i64;
        assert(-0x8000_0000 * 0x7fff_ffff <= operand1 * operand2 <= 0x8000_0000 * 0x8000_0000)
            by (nonlinear_arith)
            requires
                -0x8000_0000 <= operand1 <= 0x7fff_ffff,
                -0x8000_0000 <= operand2 <= 0x7fff_ffff,
        ;
        #[verifier::truncate] ((operand1 * operand2) as u64)
    }
}

/// High and low word of `p`, plus `hi0:lo0` when accumulating, modulo 2^64.
fn long_result(p: u64, a: bool, hi0: u32, lo0: u32) -> (r: (u32, u32))
    ensures
        ({
            let acc = hi0 as nat * 0x1_0000_0000 + lo0 as nat;
            let res: nat = if a { ((p + acc) % 0x1_0000_0000_0000_0000) as nat } else { p as nat };
            r == ((res / 0x1_0000_0000) as u32, (res % 0x1_0000_0000) as u32)
        }),
{
    let mut result = p;
    if a {
        let acc: u64 = (hi0 as u64) * 0x1_0000_0000 + lo0 as u64;
        result = result.wrapping_add(acc);
    }
    ((result / 0x1_0000_0000) as u32, (result % 0x1_0000_0000) as u32)
}

/// Execute a decoded long multiply.
pub fn execute(cpu: &mut CPU, f: (bool, bool, bool, u32, u32, u32, u32))
    requires
        f.3 < 16 && f.4 < 16 && f.5 < 16 && f.6 < 16,
    ensures
        final(cpu)@ == mull_spec(old(cpu)@, f),
{
    let (u, a, s, rdhi, rdlo, rs, rm) = f;
    let p = long_product(u, cpu.r[rm as usize], cpu.r[rs as usize]);
    let hi0 = cpu.r[rdhi as usize];
    let lo0 = cpu.r[rdlo as usize];
    let (hi, lo) = long_result(p, a, hi0, lo0);
    if s {
        if hi0 == 0 && lo0 == 0 {
            cpu.set_cpsr_bit(PSRBit::Z, true);
        }
        if bit(hi0, 31) {
            cpu.set_cpsr_bit(PSRBit::N, true);
        }
        // C and V are set to meaningless values.
    }
    cpu.r[rdhi as usize] = hi;
    cpu.r[rdlo as usize] = lo;

}

} // verus!
