//! Timer registers.
use vstd::prelude::*;
use crate::util::{bit_spec, bits_spec, BitField};
use crate::timer::{Timer, prescaler, prescaler_spec};

verus! {

impl Timer {
    /// Timer counter register.
    pub fn get_counter(&self) -> (r: u16)
        ensures
            r == self.counter,
    {
        self.counter
    }

    /// Write the reload value.
    pub fn set_reload(&mut self, value: u16)
        ensures
            *final(self) == (Timer { reload: value, ..*old(self) }),
    {
        self.reload = value;
    }

    /// Write the control register: prescaler (bits 1-0), cascade (bit 2),
    /// interrupt (bit 6), enable (bit 7). Switching the timer on reloads
    /// the counter.
    pub fn set_control(&mut self, value: u16)
        requires
            old(self).wf(),
        ensures
            final(self).wf(),
            *final(self) == old(self).controlled(value),
    {
        self.prescaler = prescaler(value.bits(1, 0));
        self.cascade_f = value.bit(2);
        self.irq_f = value.bit(6);
        if !self.enable && value.bit(7) {
            self.counter = self.reload;
        }
        self.enable = value.bit(7);
    }
}

} // verus!
