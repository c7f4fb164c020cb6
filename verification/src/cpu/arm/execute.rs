//! Condition check and program counter advance of an ARM instruction.
use vstd::prelude::*;
use crate::util::{bits_spec, add32};
use crate::cpu::CPU;
use crate::cpu::register::condition_spec;

verus! {

impl CPU {
    /// When the condition field of `instruction` holds, move R15 to the
    /// next instruction; otherwise leave the processor unchanged. Returns 0.
    pub fn execute(&mut self, instruction: u32) -> (r: u32)
        requires
            bits_spec(instruction, 31, 28) < 15,
        ensures
            r == 0,
            condition_spec(old(self).cpsr, bits_spec(instruction, 31, 28)) ==> final(self)@ == old(self)@.set_reg(
                15,
                add32(old(self).r[15], 4),
            ),
            !condition_spec(old(self).cpsr, bits_spec(instruction, 31, 28)) ==> *final(self) == *old(self),
    {
        let cond = crate::util::bits(instruction, 31, 28);
        if !self.check_condition(cond) {
            return 0;
        }
        self.r[15] = self.r[15].wrapping_add(4);
        0
    }
}

} // verus!
