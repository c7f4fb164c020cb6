//! The interrupt controller.
use vstd::prelude::*;
use crate::util::{bit_spec, BitField};
use crate::cpu::CPU;
use crate::memory::{Memory, MemView, put_le};

verus! {

/// Interrupt sources, in the order of their bits in IE and IF.
#[derive(Clone, Copy, PartialEq, Eq, Debug)]
pub enum Interrupt {
    VBlank,
    HBlank,
    VCount,
    Timer0,
    Timer1,
    Timer2,
    Timer3,
    Serial,
    DMA0,
    DMA1,
    DMA2,
    DMA3,
    Keypad,
    GamePak,
}

impl Interrupt {
    /// Bit of the source in IE and IF.
    pub open spec fn pos(self) -> u32 {
        match self {
            Interrupt::VBlank => 0,
            Interrupt::HBlank => 1,
            Interrupt::VCount => 2,
            Interrupt::Timer0 => 3,
            Interrupt::Timer1 => 4,
            Interrupt::Timer2 => 5,
            Interrupt::Timer3 => 6,
            Interrupt::Serial => 7,
            Interrupt::DMA0 => 8,
            Interrupt::DMA1 => 9,
            Interrupt::DMA2 => 10,
            Interrupt::DMA3 => 11,
            Interrupt::Keypad => 12,
            Interrupt::GamePak => 13,
        }
    }

    /// Bit of the source in IE and IF.
    pub fn position(&self) -> (r: u32)
        ensures
            r == self.pos(),
    {
        match self {
            Interrupt::VBlank => 0,
            Interrupt::HBlank => 1,
            Interrupt::VCount => 2,
            Interrupt::Timer0 => 3,
            Interrupt::Timer1 => 4,
            Interrupt::Timer2 => 5,
            Interrupt::Timer3 => 6,
            Interrupt::Serial => 7,
            Interrupt::DMA0 => 8,
            Interrupt::DMA1 => 9,
            Interrupt::DMA2 => 10,
            Interrupt::DMA3 => 11,
            Interrupt::Keypad => 12,
            Interrupt::GamePak => 13,
        }
    }
}

/// Interrupt master enable, interrupt enable and interrupt request flags.
#[derive(Debug)]
pub struct IRQController {
    /// Interrupt master enable flag.
    pub ime: u16,
    /// Interrupt enable flags.
    pub ie: u16,
    /// Interrupt request flags.
    pub irf: u16,
}

/// Whether source `irq` is let through: master enable on and the source enabled.
pub open spec fn enabled(c: IRQController, irq: Interrupt) -> bool {
    bit_spec(c.ime as u32, 0) && bit_spec(c.ie as u32, irq.pos())
}

/// Whether an enabled request is pending.
pub open spec fn pending(c: IRQController) -> bool {
    bit_spec(c.ime as u32, 0) && c.ie & c.irf != 0
}

/// `irf` with the flag of `irq` raised.
pub open spec fn raised(irf: u16, irq: Interrupt) -> u16 {
    irf | (1u16 << irq.pos() as u16)
}

/// Memory `m` with the interrupt request flags `irf` stored in IF
/// (IO register 0x202).
pub open spec fn irf_stored(m: MemView, irf: u16) -> MemView {
    MemView { regions: m.regions.update(3, put_le(m.regions[3], 0x202, irf as u32, 2)), ..m }
}

/// Controller `n`, processor `c` and memory `nm` are `o`, `oc` and `om`
/// after a request of `irq`: when the master enable and the source are
/// enabled, its flag is raised, the flags are stored in IF, and the
/// processor takes the interrupt; otherwise nothing changes.
pub open spec fn requested(
    n: IRQController,
    o: IRQController,
    c: CPU,
    oc: CPU,
    nm: MemView,
    om: MemView,
    irq: Interrupt,
) -> bool {
    if enabled(o, irq) {
        &&& n.irf == raised(o.irf, irq)
        &&& n.ime == o.ime
        &&& n.ie == o.ie
        &&& nm == irf_stored(om, n.irf)
        &&& crate::cpu::interrupt_taken(c, oc)
    } else {
        n == o && c == oc && nm == om
    }
}

impl IRQController {
    /// All flags clear.
    pub fn new() -> (r: Self)
        ensures
            r.ime == 0 && r.ie == 0 && r.irf == 0,
    {
        IRQController { ime: 0, ie: 0, irf: 0 }
    }

    /// Request interrupt `irq`: when the master enable and the source are
    /// enabled, raise its request flag and signal the processor.
    pub fn request(&mut self, irq: Interrupt, cpu: &mut CPU, memory: &mut Memory)
        requires
            old(memory).wf(),
        ensures
            final(memory).wf(),
            requested(*final(self), *old(self), *final(cpu), *old(cpu), final(memory)@, old(memory)@, irq),
    {
        if self.ime.bit(0) {
            let p = irq.position();
            if self.ie.bit(p) {
                self.acknowledge(irq, memory);
                cpu.hardware_interrupt();
            }
        }
    }

    /// Raise the request flag of `irq`, and store the flags in IF.
    pub fn acknowledge(&mut self, irq: Interrupt, memory: &mut Memory)
        requires
            old(memory).wf(),
        ensures
            final(self).irf == raised(old(self).irf, irq),
            final(self).ime == old(self).ime,
            final(self).ie == old(self).ie,
            final(memory).wf(),
            final(memory)@ == irf_stored(old(memory)@, final(self).irf),
    {
        let p = irq.position();
        self.irf = self.irf | (1u16 << (p as u16));
        memory.ioram16_s(0x202, self.irf);
    }

    /// Signal the processor when an enabled request is pending.
    pub fn check(&self, cpu: &mut CPU)
        ensures
            pending(*self) ==> crate::cpu::interrupt_taken(*final(cpu), *old(cpu)),
            !pending(*self) ==> *final(cpu) == *old(cpu),
    {
        if self.ime.bit(0) && self.ie & self.irf != 0 {
            cpu.hardware_interrupt();
        }
    }

    /// Interrupt master enable register.
    pub fn get_ime(&self) -> (r: u16)
        ensures
            r == self.ime,
    {
        self.ime
    }

    /// Write the master enable register, then check for a pending request.
    pub fn set_ime(&mut self, value: u16, cpu: &mut CPU)
        ensures
            *final(self) == (IRQController { ime: value, ..*old(self) }),
            pending(*final(self)) ==> crate::cpu::interrupt_taken(*final(cpu), *old(cpu)),
            !pending(*final(self)) ==> *final(cpu) == *old(cpu),
    {
        self.ime = value;
        self.check(cpu);
    }

    /// Interrupt enable register.
    pub fn get_ie(&self) -> (r: u16)
        ensures
            r == self.ie,
    {
        self.ie
    }

    /// Write the interrupt enable register, then check for a pending request.
    pub fn set_ie(&mut self, value: u16, cpu: &mut CPU)
        ensures
            *final(self) == (IRQController { ie: value, ..*old(self) }),
            pending(*final(self)) ==> crate::cpu::interrupt_taken(*final(cpu), *old(cpu)),
            !pending(*final(self)) ==> *final(cpu) == *old(cpu),
    {
        self.ie = value;
        self.check(cpu);
    }

    /// Interrupt request flags.
    pub fn get_irf(&self) -> (r: u16)
        ensures
            r == self.irf,
    {
        self.irf
    }

    /// Acknowledge requests: clear the flags set in `value`.
    pub fn ack_irf(&mut self, value: u16)
        ensures
            *final(self) == (IRQController { irf: old(self).irf & !value, ..*old(self) }),
    {
        self.irf = self.irf & !value;
    }
}

} // verus!

verus! {

/// Acknowledging clears exactly the request flags written: none of them
/// remains, and the others keep their value.
pub proof fn lemma_ack_clears(irf: u16, value: u16)
    by (bit_vector)
    ensures
        (irf & !value) & value == 0,
        (irf & !value) & !value == irf & !value,
        (irf & !value) | (irf & value) == irf,
{
}

/// A raised request stays pending while its source and the master enable
/// are on, and acknowledging it removes it.
pub proof fn lemma_raise_then_ack(c: IRQController, irq: Interrupt)
    requires
        enabled(c, irq),
    ensures
        pending(IRQController { irf: raised(c.irf, irq), ..c }),
        raised(c.irf, irq) & !(1u16 << irq.pos() as u16) & (1u16 << irq.pos() as u16) == 0,
{
    let p = irq.pos();
    let ie = c.ie;
    let irf = c.irf;

    assert(((ie as u32 >> p) & 1 == 1) ==> ie & (irf | (1u16 << p as u16)) != 0) by (bit_vector)
        requires
            p < 14,
    ;
    assert((irf | (1u16 << p as u16)) & !(1u16 << p as u16) & (1u16 << p as u16) == 0) by (bit_vector);
}

} // verus!
