//! PSR transfer instructions: MRS (PSR to register) and MSR (register or
//! immediate to PSR).
use vstd::prelude::*;
use crate::util::{bits_spec, bit_spec, BitField};
use crate::cpu::{CPU, CpuView};
use crate::cpu::barrel_shifter::{rotate_immediate, rotate_immediate_spec};
use crate::cpu::register::psr_write;

verus! {

/// State after a PSR transfer. Bit 21 selects MSR, bit 22 the SPSR; an
/// MSR with bit 16 clear writes only the flag bits.
pub open spec fn psr_transfer_spec(c: CpuView, instruction: u32) -> CpuView {
    let pd = bit_spec(instruction, 22);
    if bit_spec(instruction, 21) {
        let f = !bit_spec(instruction, 16);
        let operand2 = bits_spec(instruction, 11, 0);
        let op = if bit_spec(instruction, 25) {
            rotate_immediate_spec(operand2)
        } else {
            c.r[bits_spec(operand2, 3, 0) as int]
        };
        if pd {
            c.with_spsr(psr_write(c.spsr, op, f))
        } else {
            c.with_cpsr(psr_write(c.cpsr, op, f))
        }
    } else {
        c.set_reg(bits_spec(instruction, 15, 12) as int, if pd { c.spsr } else { c.cpsr })
    }
}

/// Decode and execute a PSR transfer.
pub fn decode_execute(cpu: &mut CPU, instruction: u32)
    ensures
        final(cpu)@ == psr_transfer_spec(old(cpu)@, instruction),
{
    let l = instruction.bit(21);
    let pd = instruction.bit(22);
    if l {
        let i = instruction.bit(25);
        // When bit 16 is clear only the flag bits are transferred,
        // otherwise all defined bits of the source.
        let f = !instruction.bit(16);
        let operand2 = instruction.bits(11, 0);
        let op = if i {
            rotate_immediate(operand2)
        } else {
            let rm = operand2.bits(3, 0);
            cpu.r[rm as usize]
        };
        if pd {
            cpu.set_spsr(op, f);
        } else {
            cpu.set_cpsr(op, f);
        }
    } else {
        let rd = instruction.bits(15, 12);
        let psr = if pd {
            cpu.get_spsr()
        } else {
            cpu.get_cpsr()
        };
        cpu.r[rd as usize] = psr;
    }

}

} // verus!
