//! DMA registers.
use vstd::prelude::*;
use crate::dma::DMAChannel;
use crate::memory::{Memory, le16, le32, put_le, MemView};

verus! {

/// Source and destination addresses are 27 bits wide for channel 0,
/// 28 bits for the others.
pub open spec fn address_mask(index: usize) -> u32 {
    if index == 0 {
        0x07ff_ffff
    } else {
        0x0fff_ffff
    }
}

/// The channel with its source register loaded from IO RAM `io`.
pub open spec fn with_sad(io: Seq<u8>, c: DMAChannel) -> DMAChannel {
    DMAChannel { src: le32(io, 0xb0 + c.index * 0xc) & address_mask(c.index), ..c }
}

/// The channel with its destination register loaded from IO RAM `io`.
pub open spec fn with_dad(io: Seq<u8>, c: DMAChannel) -> DMAChannel {
    DMAChannel { dst: le32(io, 0xb4 + c.index * 0xc) & address_mask(c.index), ..c }
}

/// The channel with its count register loaded from IO RAM `io`.
pub open spec fn with_cnt_l(io: Seq<u8>, c: DMAChannel) -> DMAChannel {
    DMAChannel { count: le16(io, 0xb8 + c.index * 0xc), ..c }
}

/// Memory and channel after loading the control register from memory
/// `m`, and running the transfer when it starts at once.
pub open spec fn cnt_h_effect(m: MemView, c0: DMAChannel) -> (MemView, DMAChannel) {
    let c = DMAChannel { control: le16(m.regions[3], 0xba + c0.index * 0xc), ..c0 };
    if c.enable_spec() && c.start_spec() == 0 {
        (
            c.copied(m),
            DMAChannel {
                control: if c.repeat_spec() { c.control } else { c.control & !0x8000u16 },
                ..c.moved()
            },
        )
    } else {
        (m, c)
    }
}

impl Memory {
    /// Load all registers of a channel from IO RAM (and start it, as
    /// `update_dmacnt_h` does).
    pub fn update_dma(&mut self, dma: &mut DMAChannel)
        requires
            old(self).wf(),
            old(dma).index < 4,
        ensures
            final(self).wf(),
            final(dma).index == old(dma).index,
            (final(self)@, *final(dma)) == cnt_h_effect(
                old(self)@,
                with_cnt_l(old(self).ioram@, with_dad(old(self).ioram@, with_sad(old(self).ioram@, *old(dma)))),
            ),
    {
        self.update_dmasad(dma);
        self.update_dmadad(dma);
        self.update_dmacnt_l(dma);
        self.update_dmacnt_h(dma);
    }

    /// Load the source address register.
    pub fn update_dmasad(&self, dma: &mut DMAChannel)
        requires
            self.wf(),
            old(dma).index < 4,
        ensures
            *final(dma) == (DMAChannel {
                src: le32(self.ioram@, 0xb0 + old(dma).index * 0xc) & address_mask(old(dma).index),
                ..*old(dma)
            }),
    {
        let mut addr = self.ioram32(0xb0 + dma.index * 0xc);
        if dma.index == 0 {
            addr = addr & 0x07ff_ffff;
        } else {
            addr = addr & 0x0fff_ffff;
        }
        dma.src = addr;
    }

    /// Load the destination address register.
    pub fn update_dmadad(&self, dma: &mut DMAChannel)
        requires
            self.wf(),
            old(dma).index < 4,
        ensures
            *final(dma) == (DMAChannel {
                dst: le32(self.ioram@, 0xb4 + old(dma).index * 0xc) & address_mask(old(dma).index),
                ..*old(dma)
            }),
    {
        let mut addr = self.ioram32(0xb4 + dma.index * 0xc);
        if dma.index == 0 {
            addr = addr & 0x07ff_ffff;
        } else {
            addr = addr & 0x0fff_ffff;
        }
        dma.dst = addr;
    }

    /// Load the word count register.
    pub fn update_dmacnt_l(&self, dma: &mut DMAChannel)
        requires
            self.wf(),
            old(dma).index < 4,
        ensures
            *final(dma) == (DMAChannel { count: le16(self.ioram@, 0xb8 + old(dma).index * 0xc), ..*old(dma) }),
    {
        let cnt_l = self.ioram16(0xb8 + dma.index * 0xc);
        dma.count = cnt_l;
    }

    /// Load the control register; a channel enabled with immediate start
    /// timing runs its transfer at once.
    pub fn update_dmacnt_h(&mut self, dma: &mut DMAChannel)
        requires
            old(self).wf(),
            old(dma).index < 4,
        ensures
            final(self).wf(),
            final(dma).index == old(dma).index,
            (final(self)@, *final(dma)) == cnt_h_effect(old(self)@, *old(dma)),
    {
        let cnt_h = self.ioram16(0xba + dma.index * 0xc);
        dma.control = cnt_h;
        if dma.enable() && dma.start() == 0b00 {
            dma.transfer(self);
        }
    }

    /// Clear the enable bit of a channel's control register in IO RAM.
    pub fn clr_dma(&mut self, index: usize)
        requires
            old(self).wf(),
            index < 4,
        ensures
            final(self).wf(),
            final(self)@ == (MemView {
                regions: old(self)@.regions.update(
                    3,
                    put_le(old(self)@.regions[3], 0xba + index * 0xc,
                        (le16(old(self).ioram@, 0xba + index * 0xc) & !0x8000u16) as u32, 2),
                ),
                ..old(self)@
            }),
    {
        let mut cnt = self.ioram16(0xba + index * 0xc);
        cnt = cnt & !0x8000u16;
        self.ioram16_s(0xba + index * 0xc, cnt);
    }
}

} // verus!
