//! The arithmetic logic unit of the data processing instructions.
//! Logical operations set N and Z (C comes from the barrel shifter, V is
//! kept); arithmetic operations set N, Z, C and V. Flags change only when
//! `s` is set, except for the test and compare operations, which always
//! set them and write no register.
use vstd::prelude::*;
use crate::util::{add32, sub32, bit_spec};
use crate::cpu::{CPU, cpu_is};
use crate::cpu::register::{PSRBit, flag, set_bit_spec};

verus! {

/// `psr` with N and Z set from `res`.
pub open spec fn nz_spec(psr: u32, res: u32) -> u32 {
    set_bit_spec(set_bit_spec(psr, 31, bit_spec(res, 31)), 30, res == 0)
}

/// `psr` with N and Z set from `res`, and C and V set to `c` and `v`.
pub open spec fn nzcv_spec(psr: u32, res: u32, c: bool, v: bool) -> u32 {
    set_bit_spec(set_bit_spec(nz_spec(psr, res), 29, c), 28, v)
}

/// Whether `x` lies outside the range of a signed word.
pub open spec fn overflows_i32(x: int) -> bool {
    x > i32::MAX || x < i32::MIN
}

/// `a + b + cin` modulo 2^32, with its carry and signed overflow.
pub open spec fn add_with_carry(a: u32, b: u32, cin: int) -> (u32, bool, bool) {
    let sum = a + b + cin;
    (
        (sum % 0x1_0000_0000) as u32,
        sum > u32::MAX,
        overflows_i32((a as i32) as int + (b as i32) as int + cin),
    )
}

/// `a - b - borrow` modulo 2^32, with "no borrow" as carry and signed
/// overflow.
pub open spec fn sub_with_borrow(a: u32, b: u32, borrow: int) -> (u32, bool, bool) {
    let d = a - b - borrow;
    (
        (if d < 0 { d + 0x1_0000_0000 } else { d }) as u32,
        d >= 0,
        overflows_i32((a as i32) as int - (b as i32) as int - borrow),
    )
}

/// Result and new status word of data processing operation `opcode` on
/// `a` and `b`, with status word `psr` before and set-flags bit `s`.
pub open spec fn alu_spec(opcode: u32, a: u32, b: u32, psr: u32, s: bool) -> (u32, u32) {
    let cin: int = if flag(psr, PSRBit::C) { 1 } else { 0 };
    if opcode == 0 || opcode == 1 || opcode == 12 || opcode == 13 || opcode == 14 || opcode
        == 15 {
        let res = if opcode == 0 {
            a & b
        } else if opcode == 1 {
            a ^ b
        } else if opcode == 12 {
            a | b
        } else if opcode == 13 {
            b
        } else if opcode == 14 {
            a & !b
        } else {
            !b
        };
        (res, if s { nz_spec(psr, res) } else { psr })
    } else if opcode == 8 || opcode == 9 {
        let res = if opcode == 8 { a & b } else { a ^ b };
        (res, nz_spec(psr, res))
    } else {
        let t = if opcode == 2 || opcode == 10 {
            sub_with_borrow(a, b, 0)
        } else if opcode == 3 {
            sub_with_borrow(b, a, 0)
        } else if opcode == 4 || opcode == 11 {
            add_with_carry(a, b, 0)
        } else if opcode == 5 {
            add_with_carry(a, b, cin)
        } else if opcode == 6 {
            sub_with_borrow(a, b, 1 - cin)
        } else {
            sub_with_borrow(b, a, 1 - cin)
        };
        (t.0, if s || opcode == 10 || opcode == 11 { nzcv_spec(psr, t.0, t.1, t.2) } else { psr })
    }
}

/// `c` is `o` with status word `psr`.
pub open spec fn psr_set(c: CPU, o: CPU, psr: u32) -> bool {
    cpu_is(c, o, o.r@, psr, o.spsr, o.counter)
}

/// Set N and Z from `res`.
fn set_nz(cpu: &mut CPU, res: u32)
    ensures
        psr_set(*final(cpu), *old(cpu), nz_spec(old(cpu).cpsr, res)),
{
    cpu.set_cpsr_bit(PSRBit::N, res >> 31u32 & 1 == 1);
    cpu.set_cpsr_bit(PSRBit::Z, res == 0);
}

/// Set N, Z, C and V.
fn set_nzcv(cpu: &mut CPU, res: u32, c: bool, v: bool)
    ensures
        psr_set(*final(cpu), *old(cpu), nzcv_spec(old(cpu).cpsr, res, c, v)),
{
    set_nz(cpu, res);
    cpu.set_cpsr_bit(PSRBit::C, c);
    cpu.set_cpsr_bit(PSRBit::V, v);
}

/// `a + b + cin`, with carry and signed overflow.
fn adc_core(a: u32, b: u32, cin: u32) -> (r: (u32, bool, bool))
    requires
        cin <= 1,
    ensures
        r == add_with_carry(a, b, cin as int),
{
    let sum: u64 = a as u64 + b as u64 + cin as u64;
    let ssum: i64 = (#[verifier::truncate] (a as i32)) as i64 + (#[verifier::truncate] (b as i32)) as i64 + cin as i64;
    let res = #[verifier::truncate] (sum as u32);
    proof {
        crate::util::lemma_truncate64(sum);
    }
    (res, sum > 0xffff_ffff, ssum > 0x7fff_ffff || ssum < -0x8000_0000)
}

/// `a - b - borrow`, with "no borrow" and signed overflow.
fn sbc_core(a: u32, b: u32, borrow: u32) -> (r: (u32, bool, bool))
    requires
        borrow <= 1,
    ensures
        r == sub_with_borrow(a, b, borrow as int),
{
    let ok = a as u64 >= b as u64 + borrow as u64;
    let res: u32 = if ok {
        a - b - borrow
    } else {
        ((a as u64 + 0x1_0000_0000u64) - b as u64 - borrow as u64) as u32
    };
    let sd: i64 = (#[verifier::truncate] (a as i32)) as i64 - (#[verifier::truncate] (b as i32)) as i64 - borrow as i64;
    (res, ok, sd > 0x7fff_ffff || sd < -0x8000_0000)
}

fn carry_in(cpu: &CPU) -> (r: u32)
    ensures
        r == (if flag(cpu.cpsr, PSRBit::C) { 1u32 } else { 0u32 }),
{
    if cpu.get_cpsr_bit(PSRBit::C) {
        1
    } else {
        0
    }
}

/// Logical operation: result, and N and Z when `s` is set.
fn logical(cpu: &mut CPU, res: u32, s: bool)
    ensures
        psr_set(*final(cpu), *old(cpu), if s { nz_spec(old(cpu).cpsr, res) } else { old(cpu).cpsr }),
{
    if s {
        set_nz(cpu, res);
    }
}

/// Arithmetic operation: flags when `s` is set.
fn arithmetic(cpu: &mut CPU, t: (u32, bool, bool), s: bool)
    ensures
        psr_set(
            *final(cpu),
            *old(cpu),
            if s { nzcv_spec(old(cpu).cpsr, t.0, t.1, t.2) } else { old(cpu).cpsr },
        ),
{
    if s {
        set_nzcv(cpu, t.0, t.1, t.2);
    }
}

/// AND.
pub fn and(cpu: &mut CPU, op1: u32, op2: u32, s: bool) -> (r: u32)
    ensures
        r == alu_spec(0, op1, op2, old(cpu).cpsr, s).0,
        psr_set(*final(cpu), *old(cpu), alu_spec(0, op1, op2, old(cpu).cpsr, s).1),
{
    let res = op1 & op2;
    logical(cpu, res, s);
    res
}

/// EOR, exclusive or.
pub fn eor(cpu: &mut CPU, op1: u32, op2: u32, s: bool) -> (r: u32)
    ensures
        r == alu_spec(1, op1, op2, old(cpu).cpsr, s).0,
        psr_set(*final(cpu), *old(cpu), alu_spec(1, op1, op2, old(cpu).cpsr, s).1),
{
    let res = op1 ^ op2;
    logical(cpu, res, s);
    res
}

/// SUB, `op1 - op2`.
pub fn sub(cpu: &mut CPU, op1: u32, op2: u32, s: bool) -> (r: u32)
    ensures
        r == alu_spec(2, op1, op2, old(cpu).cpsr, s).0,
        psr_set(*final(cpu), *old(cpu), alu_spec(2, op1, op2, old(cpu).cpsr, s).1),
{
    let t = sbc_core(op1, op2, 0);
    arithmetic(cpu, t, s);
    t.0
}

/// RSB, reverse subtract `op2 - op1`.
pub fn rsb(cpu: &mut CPU, op1: u32, op2: u32, s: bool) -> (r: u32)
    ensures
        r == alu_spec(3, op1, op2, old(cpu).cpsr, s).0,
        psr_set(*final(cpu), *old(cpu), alu_spec(3, op1, op2, old(cpu).cpsr, s).1),
{
    let t = sbc_core(op2, op1, 0);
    arithmetic(cpu, t, s);
    t.0
}

/// ADD.
pub fn add(cpu: &mut CPU, op1: u32, op2: u32, s: bool) -> (r: u32)
    ensures
        r == alu_spec(4, op1, op2, old(cpu).cpsr, s).0,
        psr_set(*final(cpu), *old(cpu), alu_spec(4, op1, op2, old(cpu).cpsr, s).1),
{
    let t = adc_core(op1, op2, 0);
    arithmetic(cpu, t, s);
    t.0
}

/// ADC, add with carry.
pub fn adc(cpu: &mut CPU, op1: u32, op2: u32, s: bool) -> (r: u32)
    ensures
        r == alu_spec(5, op1, op2, old(cpu).cpsr, s).0,
        psr_set(*final(cpu), *old(cpu), alu_spec(5, op1, op2, old(cpu).cpsr, s).1),
{
    let cin = carry_in(cpu);
    let t = adc_core(op1, op2, cin);
    arithmetic(cpu, t, s);
    t.0
}

/// SBC, subtract with carry: `op1 - op2 - !C`.
pub fn sbc(cpu: &mut CPU, op1: u32, op2: u32, s: bool) -> (r: u32)
    ensures
        r == alu_spec(6, op1, op2, old(cpu).cpsr, s).0,
        psr_set(*final(cpu), *old(cpu), alu_spec(6, op1, op2, old(cpu).cpsr, s).1),
{
    let cin = carry_in(cpu);
    let t = sbc_core(op1, op2, 1 - cin);
    arithmetic(cpu, t, s);
    t.0
}

/// RSC, reverse subtract with carry: `op2 - op1 - !C`.
pub fn rsc(cpu: &mut CPU, op1: u32, op2: u32, s: bool) -> (r: u32)
    ensures
        r == alu_spec(7, op1, op2, old(cpu).cpsr, s).0,
        psr_set(*final(cpu), *old(cpu), alu_spec(7, op1, op2, old(cpu).cpsr, s).1),
{
    let cin = carry_in(cpu);
    let t = sbc_core(op2, op1, 1 - cin);
    arithmetic(cpu, t, s);
    t.0
}

/// TST, test bits: flags of `op1 & op2`.
pub fn tst(cpu: &mut CPU, op1: u32, op2: u32) -> (r: u32)
    ensures
        r == alu_spec(8, op1, op2, old(cpu).cpsr, true).0,
        psr_set(*final(cpu), *old(cpu), alu_spec(8, op1, op2, old(cpu).cpsr, true).1),
{
    let res = op1 & op2;
    set_nz(cpu, res);
    res
}

/// TEQ, test equivalence: flags of `op1 ^ op2`.
pub fn teq(cpu: &mut CPU, op1: u32, op2: u32) -> (r: u32)
    ensures
        r == alu_spec(9, op1, op2, old(cpu).cpsr, true).0,
        psr_set(*final(cpu), *old(cpu), alu_spec(9, op1, op2, old(cpu).cpsr, true).1),
{
    let res = op1 ^ op2;
    set_nz(cpu, res);
    res
}

/// CMP, compare: flags of `op1 - op2`.
pub fn compare(cpu: &mut CPU, op1: u32, op2: u32) -> (r: u32)
    ensures
        r == alu_spec(10, op1, op2, old(cpu).cpsr, true).0,
        psr_set(*final(cpu), *old(cpu), alu_spec(10, op1, op2, old(cpu).cpsr, true).1),
{
    let t = sbc_core(op1, op2, 0);
    set_nzcv(cpu, t.0, t.1, t.2);
    t.0
}

/// CMN, compare negative: flags of `op1 + op2`.
pub fn compare_negative(cpu: &mut CPU, op1: u32, op2: u32) -> (r: u32)
    ensures
        r == alu_spec(11, op1, op2, old(cpu).cpsr, true).0,
        psr_set(*final(cpu), *old(cpu), alu_spec(11, op1, op2, old(cpu).cpsr, true).1),
{
    let t = adc_core(op1, op2, 0);
    set_nzcv(cpu, t.0, t.1, t.2);
    t.0
}

/// ORR, inclusive or.
pub fn orr(cpu: &mut CPU, op1: u32, op2: u32, s: bool) -> (r: u32)
    ensures
        r == alu_spec(12, op1, op2, old(cpu).cpsr, s).0,
        psr_set(*final(cpu), *old(cpu), alu_spec(12, op1, op2, old(cpu).cpsr, s).1),
{
    let res = op1 | op2;
    logical(cpu, res, s);
    res
}

/// MOV: the second operand.
pub fn mov(cpu: &mut CPU, op1: u32, op2: u32, s: bool) -> (r: u32)
    ensures
        r == alu_spec(13, op1, op2, old(cpu).cpsr, s).0,
        psr_set(*final(cpu), *old(cpu), alu_spec(13, op1, op2, old(cpu).cpsr, s).1),
{
    logical(cpu, op2, s);
    op2
}

/// BIC, bit clear: `op1 & !op2`.
pub fn bic(cpu: &mut CPU, op1: u32, op2: u32, s: bool) -> (r: u32)
    ensures
        r == alu_spec(14, op1, op2, old(cpu).cpsr, s).0,
        psr_set(*final(cpu), *old(cpu), alu_spec(14, op1, op2, old(cpu).cpsr, s).1),
{
    let res = op1 & !op2;
    logical(cpu, res, s);
    res
}

/// MVN, move not.
pub fn mvn(cpu: &mut CPU, op1: u32, op2: u32, s: bool) -> (r: u32)
    ensures
        r == alu_spec(15, op1, op2, old(cpu).cpsr, s).0,
        psr_set(*final(cpu), *old(cpu), alu_spec(15, op1, op2, old(cpu).cpsr, s).1),
{
    let res = !op2;
    logical(cpu, res, s);
    res
}

} // verus!
