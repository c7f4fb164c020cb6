//! Software interrupt.
use vstd::prelude::*;
use crate::util::sub32;
use crate::cpu::{CPU, CpuView, thumb};
use crate::cpu::register::{PSRMode, psr_write};

verus! {

/// State after SWI: Supervisor mode, CPSR saved in the SPSR, the address of
/// the next instruction in R14, and a jump to the vector 0x08.
pub open spec fn swi_spec(c: CpuView) -> CpuView {
    let lr = sub32(c.r[15], if thumb(c.cpsr) { 2 } else { 4 });
    let c1 = c.with_cpsr(psr_write(c.cpsr, 0b10011, false));
    c1.with_spsr(psr_write(c1.spsr, c.cpsr, false)).set_reg(14, lr).set_reg(15, 0x08).flushed()
}

/// Enter the software interrupt handler.
pub fn interpret(cpu: &mut CPU)
    ensures
        final(cpu)@ == swi_spec(old(cpu)@),
{
    let step: u32 = if cpu.in_thumb_mode() {
        2
    } else {
        4
    };
    let lr = cpu.r[15].wrapping_sub(step);
    let spsr = cpu.get_cpsr();
    cpu.set_cpsr(PSRMode::Supervisor.value(), false);
    cpu.set_spsr(spsr, false);
    cpu.r[14] = lr;
    cpu.r[15] = 0x08;
    cpu.flush();

}

} // verus!
