//! IO registers.
pub mod dma;
pub mod timer;
pub mod ppu;

use vstd::prelude::*;
use crate::memory::{Memory, MemView, le16, le32, put_le};
use crate::cpu::CPU;
use crate::dma::DMA;
use crate::timer::{Timers, Timer};
use crate::dma::DMAChannel;
use crate::util::lemma_and_bound;
use dma::{with_sad, with_dad, with_cnt_l, cnt_h_effect};
use crate::interrupt::IRQController;

verus! {

/// Value that a read of IO register `address` returns: timer counters and
/// interrupt registers come from the devices, the rest from IO RAM.
pub open spec fn ioram_load_spec(io: Seq<u8>, address: u32, timers: Seq<Timer>, irq: IRQController) -> u16 {
    let r = address & 0xfffe;
    if r == 0x100 {
        timers[0].counter
    } else if r == 0x104 {
        timers[1].counter
    } else if r == 0x108 {
        timers[2].counter
    } else if r == 0x10c {
        timers[3].counter
    } else if r == 0x200 {
        irq.ie
    } else if r == 0x202 {
        irq.irf
    } else if r == 0x208 {
        irq.ime
    } else {
        le16(io, r as int)
    }
}

/// DMA register at IO offset `r`: the channel, and 0 source, 1
/// destination, 2 count, 3 control; none when `r` is no DMA register.
pub open spec fn dma_register(r: u32) -> Option<(int, u8)> {
    let i = (r - 0xb0) / 0xc;
    let o = (r - 0xb0) % 0xc;
    if 0xb0 <= r < 0xe0 && (o == 0 || o == 4 || o == 8 || o == 10) {
        Some((i, if o == 0 { 0u8 } else if o == 4 { 1u8 } else if o == 8 { 2u8 } else { 3u8 }))
    } else {
        None
    }
}

/// Devices after a write of `value` to IO register `r` (before the
/// interrupt check): timers, interrupt controller.
pub open spec fn timer_write(t: Seq<Timer>, r: u32, value: u16) -> Seq<Timer> {
    if 0x100 <= r < 0x110 && r % 2 == 0 {
        let i = (r - 0x100) / 4;
        if r % 4 == 0 {
            t.update(i as int, Timer { reload: value, ..t[i as int] })
        } else {
            t.update(i as int, t[i as int].controlled(value))
        }
    } else {
        t
    }
}

/// Interrupt controller after a write of `value` to IO register `r`.
pub open spec fn irq_write(c: IRQController, r: u32, value: u16) -> IRQController {
    if r == 0x200 {
        IRQController { ie: value, ..c }
    } else if r == 0x202 {
        IRQController { irf: c.irf & !value, ..c }
    } else if r == 0x208 {
        IRQController { ime: value, ..c }
    } else {
        c
    }
}

/// Memory `nm`, processor `nc`, DMA channels `nd`, timers `nt` and
/// interrupt controller `ni` are the old ones after a write of `value` to
/// IO register `address`: a DMA register reloads its channel from IO RAM
/// (a control write may start a transfer), a timer register sets the
/// timer, an interrupt register sets the controller; after a write to an
/// interrupt register, a pending enabled request interrupts the processor.
pub open spec fn io_stored(
    nm: MemView,
    om: MemView,
    nc: CPU,
    oc: CPU,
    nd: Seq<DMAChannel>,
    od: Seq<DMAChannel>,
    nt: Seq<Timer>,
    ot: Seq<Timer>,
    ni: IRQController,
    oi: IRQController,
    address: u32,
    value: u16,
) -> bool {
    let r = address & 0xffff;
    let io = om.regions[3];
    &&& nt == timer_write(ot, r, value)
    &&& ni == irq_write(oi, r, value)
    &&& match dma_register(r) {
        Some((i, 0)) => nd == od.update(i, with_sad(io, od[i])) && nm == om,
        Some((i, 1)) => nd == od.update(i, with_dad(io, od[i])) && nm == om,
        Some((i, 2)) => nd == od.update(i, with_cnt_l(io, od[i])) && nm == om,
        Some((i, _)) => nd == od.update(i, cnt_h_effect(om, od[i]).1) && nm == cnt_h_effect(om, od[i]).0,
        None => nd == od && nm == om,
    }
    &&& 0x200 <= r <= 0x208 && crate::interrupt::pending(ni) ==> crate::cpu::interrupt_taken(nc, oc)
    &&& !(0x200 <= r <= 0x208 && crate::interrupt::pending(ni)) ==> nc == oc
}

impl Memory {
    /// Halfword of IO RAM at byte offset `offset`.
    pub fn ioram16(&self, offset: usize) -> (r: u16)
        requires
            self.wf(),
            offset + 1 < 0x1_0000,
        ensures
            r == le16(self.ioram@, offset as int),
    {
        self.ioram[offset] as u16 + 0x100 * (self.ioram[offset + 1] as u16)
    }

    /// Word of IO RAM at byte offset `offset`.
    pub fn ioram32(&self, offset: usize) -> (r: u32)
        requires
            self.wf(),
            offset + 3 < 0x1_0000,
        ensures
            r == le32(self.ioram@, offset as int),
    {
        self.ioram[offset] as u32 + 0x100 * (self.ioram[offset + 1] as u32) + 0x1_0000 * (
        self.ioram[offset + 2] as u32) + 0x100_0000 * (self.ioram[offset + 3] as u32)
    }

    /// Write a halfword of IO RAM at byte offset `offset`; nothing is logged.
    pub fn ioram16_s(&mut self, offset: usize, value: u16)
        requires
            old(self).wf(),
            offset + 1 < 0x1_0000,
        ensures
            final(self).wf(),
            final(self)@ == (MemView {
                regions: old(self)@.regions.update(
                    3,
                    put_le(old(self)@.regions[3], offset as int, value as u32, 2),
                ),
                ..old(self)@
            }),
    {
        self.ioram.set(offset, (value % 0x100) as u8);
        self.ioram.set(offset + 1, (value / 0x100) as u8);
        proof {
            reveal_with_fuel(put_le, 3);
            assert(self@.regions =~~= old(self)@.regions.update(
                3,
                put_le(old(self)@.regions[3], offset as int, value as u32, 2),
            ));
        }
    }

    /// Read an IO register: timer counters and interrupt registers come
    /// from the devices, the rest from IO RAM.
    pub fn ioram_load16(&self, address: u32, timers: &Timers, irqcnt: &IRQController) -> (r: u16)
        requires
            self.wf(),
            timers.wf(),
        ensures
            r == ioram_load_spec(self.ioram@, address, timers.timer@, *irqcnt),
    {
        let ioreg = address & 0xfffe;
        proof {
            lemma_and_bound(address, 0xfffe);
        }
        if ioreg == 0x100 {
            timers.timer[0].get_counter()
        } else if ioreg == 0x104 {
            timers.timer[1].get_counter()
        } else if ioreg == 0x108 {
            timers.timer[2].get_counter()
        } else if ioreg == 0x10c {
            timers.timer[3].get_counter()
        } else if ioreg == 0x200 {
            irqcnt.ie
        } else if ioreg == 0x202 {
            irqcnt.irf
        } else if ioreg == 0x208 {
            irqcnt.ime
        } else {
            self.ioram16(ioreg as usize)
        }
    }

    /// Apply a write of `value` to IO register `address` to the devices:
    /// DMA registers are loaded from IO RAM (a channel enabled with
    /// immediate timing transfers at once), timer reload and control
    /// registers, interrupt enable, acknowledge and master enable. After a
    /// write to an interrupt register, a pending enabled request interrupts
    /// the processor.
    pub fn ioram_store16(
        &mut self,
        address: u32,
        value: u16,
        cpu: &mut CPU,
        dma: &mut DMA,
        timers: &mut Timers,
        irqcnt: &mut IRQController,
    )
        requires
            old(self).wf(),
            old(dma).wf(),
            old(timers).wf(),
        ensures
            final(self).wf(),
            final(dma).wf(),
            final(timers).wf(),
            io_stored(
                final(self)@,
                old(self)@,
                *final(cpu),
                *old(cpu),
                final(dma).channel@,
                old(dma).channel@,
                final(timers).timer@,
                old(timers).timer@,
                *final(irqcnt),
                *old(irqcnt),
                address,
                value,
            ),
    {
        let ioreg = address & 0xffff;
        proof {
            lemma_and_bound(address, 0xffff);
        }
        if 0xb0 <= ioreg && ioreg < 0xe0 {
            let i = ((ioreg - 0xb0) / 0xc) as usize;
            let o = (ioreg - 0xb0) % 0xc;
            let mut c = dma.channel[i];
            if o == 0 {
                self.update_dmasad(&mut c);
                dma.channel.set(i, c);
            } else if o == 4 {
                self.update_dmadad(&mut c);
                dma.channel.set(i, c);
            } else if o == 8 {
                self.update_dmacnt_l(&mut c);
                dma.channel.set(i, c);
            } else if o == 10 {
                self.update_dmacnt_h(&mut c);
                dma.channel.set(i, c);
            }
        } else if 0x100 <= ioreg && ioreg < 0x110 && ioreg % 2 == 0 {
            let i = ((ioreg - 0x100) / 4) as usize;
            let mut t = timers.timer[i];
            if ioreg % 4 == 0 {
                t.set_reload(value);
            } else {
                t.set_control(value);
            }
            timers.timer.set(i, t);
        } else if ioreg == 0x200 {
            irqcnt.ie = value;
        } else if ioreg == 0x202 {
            irqcnt.ack_irf(value);
        } else if ioreg == 0x208 {
            irqcnt.ime = value;
        }
        if 0x200 <= ioreg && ioreg <= 0x208 {
            irqcnt.check(cpu);
        }
    }

    /// Write a word to IO register `address`: its low halfword, then its
    /// high halfword at `address + 2`.
    pub fn ioram_store32(
        &mut self,
        address: u32,
        value: u32,
        cpu: &mut CPU,
        dma: &mut DMA,
        timers: &mut Timers,
        irqcnt: &mut IRQController,
    )
        requires
            old(self).wf(),
            old(dma).wf(),
            old(timers).wf(),
        ensures
            final(self).wf(),
            final(dma).wf(),
            final(timers).wf(),
            exists|m1: MemView, c1: CPU, d1: Seq<DMAChannel>, t1: Seq<Timer>, i1: IRQController|
                #[trigger] io_stored(
                    m1,
                    old(self)@,
                    c1,
                    *old(cpu),
                    d1,
                    old(dma).channel@,
                    t1,
                    old(timers).timer@,
                    i1,
                    *old(irqcnt),
                    address,
                    (value % 0x1_0000) as u16,
                ) && io_stored(
                    final(self)@,
                    m1,
                    *final(cpu),
                    c1,
                    final(dma).channel@,
                    d1,
                    final(timers).timer@,
                    t1,
                    *final(irqcnt),
                    i1,
                    address.wrapping_add(2),
                    (value / 0x1_0000) as u16,
                ),
    {
        self.ioram_store16(address, (value % 0x1_0000) as u16, cpu, dma, timers, irqcnt);
        let ghost m1 = self@;
        let ghost c1 = *cpu;
        let ghost d1 = dma.channel@;
        let ghost t1 = timers.timer@;
        let ghost i1 = *irqcnt;
        self.ioram_store16(address.wrapping_add(2), (value / 0x1_0000) as u16, cpu, dma, timers, irqcnt);
        assert(io_stored(
            m1,
            old(self)@,
            c1,
            *old(cpu),
            d1,
            old(dma).channel@,
            t1,
            old(timers).timer@,
            i1,
            *old(irqcnt),
            address,
            (value % 0x1_0000) as u16,
        ));
    }

    /// Keypad input register.
    pub fn get_keyinput(&self) -> (r: u16)
        requires
            self.wf(),
        ensures
            r == le16(self.ioram@, 0x130),
    {
        self.ioram16(0x130)
    }

    /// Write the keypad input register.
    pub fn set_keyinput(&mut self, input: u16)
        requires
            old(self).wf(),
        ensures
            final(self).wf(),
            final(self)@ == (MemView {
                regions: old(self)@.regions.update(3, put_le(old(self)@.regions[3], 0x130, input as u32, 2)),
                ..old(self)@
            }),
    {
        self.ioram16_s(0x130, input);
    }
}

} // verus!
