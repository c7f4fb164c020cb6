//! The barrel shifter. Shift amounts of 32 and more, and the special
//! encodings of shift amount 0, are handled as the ARM7TDMI does.
use vstd::prelude::*;
use crate::util::{bits, bit, bit_spec, bits_spec, ror, ror_spec, BitField, lemma_and_bound};
use crate::cpu::{CPU, cpu_is};
use crate::cpu::register::{PSRBit, flag, set_bit_spec, lemma_set_bit};

verus! {

/// Logical shift left: result and carry out; LSL #0 keeps the carry.
pub open spec fn lsl_spec(op: u32, amount: u32, c: bool) -> (u32, bool) {
    if amount == 0 {
        (op, c)
    } else if amount < 32 {
        (op << amount, bit_spec(op, (32 - amount) as u32))
    } else if amount == 32 {
        (0, op & 1 == 1)
    } else {
        (0, false)
    }
}

/// Logical shift right: result and carry out; LSR #0 stands for LSR #32.
pub open spec fn lsr_spec(op: u32, amount: u32) -> (u32, bool) {
    if amount == 0 || amount == 32 {
        (0, bit_spec(op, 31))
    } else if amount < 32 {
        (op >> amount, bit_spec(op, (amount - 1) as u32))
    } else {
        (0, false)
    }
}

/// Arithmetic shift right: result and carry out; ASR #0 stands for ASR #32.
pub open spec fn asr_spec(op: u32, amount: u32) -> (u32, bool) {
    if amount == 0 || amount >= 32 {
        (((op as i32) >> 31u32) as u32, bit_spec(op, 31))
    } else {
        (((op as i32) >> amount) as u32, bit_spec(op, (amount - 1) as u32))
    }
}

/// Rotate right: result and carry out; ROR #0 is RRX, rotate right
/// extended through the carry.
pub open spec fn rotr_spec(op: u32, amount: u32, c: bool) -> (u32, bool) {
    if amount == 0 {
        ((if c { 0x8000_0000u32 } else { 0u32 }) | (op >> 1u32), op & 1 == 1)
    } else {
        (ror_spec(op, amount), (op >> ((amount - 1) as u32 & 31)) & 1 == 1)
    }
}

/// Shift of type `stype` (0 LSL, 1 LSR, 2 ASR, 3 ROR): result and carry out.
pub open spec fn shift_spec(op: u32, amount: u32, stype: u32, c: bool) -> (u32, bool) {
    if stype == 0 {
        lsl_spec(op, amount, c)
    } else if stype == 1 {
        lsr_spec(op, amount)
    } else if stype == 2 {
        asr_spec(op, amount)
    } else {
        rotr_spec(op, amount, c)
    }
}

/// The amount of a register-specified operand: a register (bit 4 set)
/// or an immediate of five bits.
pub open spec fn shift_amount_spec(r: Seq<u32>, operand2: u32) -> u32 {
    if bit_spec(operand2, 4) {
        r[bits_spec(operand2, 11, 8) as int]
    } else {
        bits_spec(operand2, 11, 7)
    }
}

/// Value and carry of a register-specified operand.
pub open spec fn shift_register_spec(r: Seq<u32>, operand2: u32, c: bool) -> (u32, bool) {
    shift_spec(
        r[bits_spec(operand2, 3, 0) as int],
        shift_amount_spec(r, operand2),
        bits_spec(operand2, 6, 5),
        c,
    )
}

/// Value of an immediate operand: eight bits rotated right by twice the
/// four rotate bits.
pub open spec fn rotate_immediate_spec(operand2: u32) -> u32 {
    ror_spec(bits_spec(operand2, 7, 0), (bits_spec(operand2, 11, 8) * 2) as u32)
}

/// `c` is `o` with the carry flag set to `carry`.
pub open spec fn carry_set(c: CPU, o: CPU, carry: bool) -> bool {
    cpu_is(c, o, o.r@, set_bit_spec(o.cpsr, 29, carry), o.spsr, o.counter)
}

/// Shift a register by the amount and type that `operand2` encodes.
/// Sets the carry flag to the carry out.
pub fn shift_register(cpu: &mut CPU, operand2: u32) -> (r: u32)
    ensures
        r == shift_register_spec(old(cpu).r@, operand2, flag(old(cpu).cpsr, PSRBit::C)).0,
        carry_set(
            *final(cpu),
            *old(cpu),
            shift_register_spec(old(cpu).r@, operand2, flag(old(cpu).cpsr, PSRBit::C)).1,
        ),
{
    let rm = operand2.bits(3, 0);
    let stype = operand2.bits(6, 5);
    let amount = if bit(operand2, 4) {
        let rs = operand2.bits(11, 8);
        cpu.r[rs as usize]
    } else {
        bits(operand2, 11, 7)
    };
    let operand = cpu.r[rm as usize];
    shift(cpu, operand, amount, stype)
}

/// Rotate an immediate, return the rotated result.
pub fn rotate_immediate(operand2: u32) -> (r: u32)
    ensures
        r == rotate_immediate_spec(operand2),
{
    let rotate = operand2.bits(11, 8);
    let immediate = operand2.bits(7, 0);
    ror(immediate, rotate * 2)
}

/// Shift a value by an amount and type; return the shifted value and set
/// the carry flag to the carry out.
pub fn shift(cpu: &mut CPU, operand: u32, amount: u32, stype: u32) -> (r: u32)
    requires
        stype < 4,
    ensures
        r == shift_spec(operand, amount, stype, flag(old(cpu).cpsr, PSRBit::C)).0,
        carry_set(
            *final(cpu),
            *old(cpu),
            shift_spec(operand, amount, stype, flag(old(cpu).cpsr, PSRBit::C)).1,
        ),
{
    match stype {
        0b00 => logical_left(cpu, operand, amount),
        0b01 => logical_right(cpu, operand, amount),
        0b10 => arithmetic_right(cpu, operand, amount),
        _ => rotate_right(cpu, operand, amount),
    }
}

/// Logical shift left. LSL #0 keeps the old carry flag.
pub fn logical_left(cpu: &mut CPU, operand: u32, amount: u32) -> (r: u32)
    ensures
        r == lsl_spec(operand, amount, flag(old(cpu).cpsr, PSRBit::C)).0,
        carry_set(*final(cpu), *old(cpu), lsl_spec(operand, amount, flag(old(cpu).cpsr, PSRBit::C)).1),
{
    if amount == 0 {
        proof {
            lemma_set_bit(cpu.cpsr, 29, flag(cpu.cpsr, PSRBit::C), 29);
        }
        operand
    } else if amount < 32 {
        let carry = operand.bit(32 - amount);
        cpu.set_cpsr_bit(PSRBit::C, carry);
        operand << amount
    } else if amount == 32 {
        let carry = operand & 1 == 1;
        cpu.set_cpsr_bit(PSRBit::C, carry);
        0
    } else {
        cpu.set_cpsr_bit(PSRBit::C, false);
        0
    }
}

/// Logical shift right. LSR #0 is the same as LSR #32.
pub fn logical_right(cpu: &mut CPU, operand: u32, amount: u32) -> (r: u32)
    ensures
        r == lsr_spec(operand, amount).0,
        carry_set(*final(cpu), *old(cpu), lsr_spec(operand, amount).1),
{
    if amount == 0 || amount == 32 {
        let carry = operand.bit(31);
        cpu.set_cpsr_bit(PSRBit::C, carry);
        0
    } else if amount < 32 {
        let carry = operand.bit(amount - 1);
        cpu.set_cpsr_bit(PSRBit::C, carry);
        operand >> amount
    } else {
        cpu.set_cpsr_bit(PSRBit::C, false);
        0
    }
}

/// Arithmetic shift right. ASR #0 is the same as ASR #32.
pub fn arithmetic_right(cpu: &mut CPU, operand: u32, amount: u32) -> (r: u32)
    ensures
        r == asr_spec(operand, amount).0,
        carry_set(*final(cpu), *old(cpu), asr_spec(operand, amount).1),
{
    if amount == 0 || amount >= 32 {
        let carry = operand.bit(31);
        cpu.set_cpsr_bit(PSRBit::C, carry);
        #[verifier::truncate]
        (((#[verifier::truncate] (operand as i32)) >> 31u32) as u32)
    } else {
        let carry = operand.bit(amount - 1);
        cpu.set_cpsr_bit(PSRBit::C, carry);
        #[verifier::truncate]
        (((#[verifier::truncate] (operand as i32)) >> amount) as u32)
    }
}

/// Rotate right. ROR #0 is RRX, rotate right extended.
pub fn rotate_right(cpu: &mut CPU, operand: u32, amount: u32) -> (r: u32)
    ensures
        r == rotr_spec(operand, amount, flag(old(cpu).cpsr, PSRBit::C)).0,
        carry_set(
            *final(cpu),
            *old(cpu),
            rotr_spec(operand, amount, flag(old(cpu).cpsr, PSRBit::C)).1,
        ),
{
    if amount == 0 {
        let c: u32 = if cpu.get_cpsr_bit(PSRBit::C) {
            0x8000_0000
        } else {
            0
        };
        let carry = operand & 1 == 1;
        cpu.set_cpsr_bit(PSRBit::C, carry);
        c | (operand >> 1u32)
    } else {
        // A rotate amount of 32 or more acts as its five low bits.
        let am1 = amount - 1;
        let a = am1 & 0b11111;
        proof {
            lemma_and_bound(am1, 0b11111);
        }
        let carry = (operand >> a) & 1 == 1;
        cpu.set_cpsr_bit(PSRBit::C, carry);
        ror(operand, amount)
    }
}

} // verus!
