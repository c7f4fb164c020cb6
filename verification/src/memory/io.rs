//! Display registers in IO RAM, and the picture processor state they set.
use vstd::prelude::*;
use crate::util::{bits_spec, bit_spec, BitField};
use crate::memory::{Memory, MemView, le16, le32, put_le};
use crate::ppu::PPU;
use crate::ppu::background::{Background, dimension_spec};

verus! {

impl Memory {
    /// Set the display control state of `ppu` from DISPCNT.
    pub fn update_dispcnt(&self, ppu: &mut PPU)
        requires
            self.wf(),
            old(ppu).wf(),
        ensures
            final(ppu).wf(),
            ({
                let v = le16(self.ioram@, 0);
                *final(ppu) == PPU {
                    dispcnt: v,
                    mode: bits_spec(v as u32, 2, 0),
                    flip: bit_spec(v as u32, 4),
                    sequential: bit_spec(v as u32, 6),
                    fblank: bit_spec(v as u32, 7),
                    ..*old(ppu)
                }
            }),
    {
        let dispcnt = self.ioram16(0x00);
        ppu.set_dispcnt(dispcnt);
    }

    /// Set the display control state and the line of `ppu` from DISPCNT
    /// and VCOUNT.
    pub fn update_ppu(&self, ppu: &mut PPU)
        requires
            self.wf(),
            old(ppu).wf(),
            le16(self.ioram@, 6) <= 227,
        ensures
            final(ppu).wf(),
            ({
                let v = le16(self.ioram@, 0);
                *final(ppu) == PPU {
                    dispcnt: v,
                    mode: bits_spec(v as u32, 2, 0),
                    flip: bit_spec(v as u32, 4),
                    sequential: bit_spec(v as u32, 6),
                    fblank: bit_spec(v as u32, 7),
                    vcount: le16(self.ioram@, 6),
                    ..*old(ppu)
                }
            }),
    {
        self.update_dispcnt(ppu);
        ppu.vcount = self.get_vcount();
    }

    /// Set the line of `ppu` from VCOUNT.
    pub fn update_vcount(&self, ppu: &mut PPU)
        requires
            self.wf(),
            old(ppu).wf(),
            le16(self.ioram@, 6) <= 227,
        ensures
            final(ppu).wf(),
            *final(ppu) == (PPU { vcount: le16(self.ioram@, 6), ..*old(ppu) }),
    {
        ppu.vcount = self.ioram16(0x06);
    }

    /// Set or clear the V-Blank flag (bit 0) of DISPSTAT.
    pub fn set_vblank_flag(&mut self, value: bool)
        requires
            old(self).wf(),
        ensures
            final(self).wf(),
            final(self)@ == old(self)@.store_io16(
                4,
                if value { le16(old(self).ioram@, 4) | 1u16 } else { le16(old(self).ioram@, 4) & !1u16 },
            ),
    {
        let mut dispstat = self.ioram16(0x04);
        if value {
            dispstat = dispstat | 0b01;
        } else {
            dispstat = dispstat & !0b01u16;
        }
        self.ioram16_s(0x04, dispstat);
    }

    /// Set or clear the H-Blank flag (bit 1) of DISPSTAT.
    pub fn set_hblank_flag(&mut self, value: bool)
        requires
            old(self).wf(),
        ensures
            final(self).wf(),
            final(self)@ == old(self)@.store_io16(
                4,
                if value { le16(old(self).ioram@, 4) | 2u16 } else { le16(old(self).ioram@, 4) & !2u16 },
            ),
    {
        let mut dispstat = self.ioram16(0x04);
        if value {
            dispstat = dispstat | 0b10;
        } else {
            dispstat = dispstat & !0b10u16;
        }
        self.ioram16_s(0x04, dispstat);
    }

    /// VCOUNT.
    pub fn get_vcount(&self) -> (r: u16)
        requires
            self.wf(),
        ensures
            r == le16(self.ioram@, 6),
    {
        self.ioram16(0x06)
    }

    /// Move VCOUNT on by one (wrapping).
    pub fn inc_vcount(&mut self)
        requires
            old(self).wf(),
        ensures
            final(self).wf(),
            final(self)@ == old(self)@.store_io16(6, le16(old(self).ioram@, 6).wrapping_add(1)),
    {
        let vcount = self.get_vcount();
        self.ioram16_s(0x06, vcount.wrapping_add(1));
    }

    /// Clear VCOUNT.
    pub fn clr_vcount(&mut self)
        requires
            old(self).wf(),
        ensures
            final(self).wf(),
            final(self)@ == old(self)@.store_io16(6, 0),
    {
        self.ioram16_s(0x06, 0);
    }

    /// BGxCNT of background `index`.
    pub fn get_bgcnt(&self, index: usize) -> (r: u16)
        requires
            self.wf(),
            index < 0x7ff0,
        ensures
            r == le16(self.ioram@, 8 + 2 * index),
    {
        self.ioram16(0x08 + index * 2)
    }

    /// Set the control state of `bg` from its BGxCNT.
    pub fn update_bgcnt(&self, bg: &mut Background)
        requires
            self.wf(),
            old(bg).wf(),
        ensures
            final(bg).wf(),
            ({
                let w = le16(self.ioram@, 8 + 2 * old(bg).index) as u32;
                let size_r = bits_spec(w, 15, 14);
                let d = dimension_spec(old(bg).affine_f, size_r);
                *final(bg) == Background {
                    bgcnt: w as u16,
                    priority: bits_spec(w, 1, 0),
                    tile_b: bits_spec(w, 3, 2),
                    mosaic_f: bit_spec(w, 6),
                    palette_f: bit_spec(w, 7),
                    map_b: bits_spec(w, 12, 8),
                    wrap_f: bit_spec(w, 13),
                    size_r: size_r,
                    width: d.0,
                    height: d.1,
                    ..*old(bg)
                }
            }),
    {
        let bgcnt = self.ioram16(0x08 + bg.index * 2);
        bg.set_control(bgcnt);
    }

    /// Set the scroll of text background `bg` from BGxHOFS and BGxVOFS.
    pub fn update_bgofs(&self, bg: &mut Background)
        requires
            self.wf(),
            old(bg).wf(),
        ensures
            final(bg).wf(),
            *final(bg) == (Background {
                hscroll: le16(self.ioram@, 0x10 + 4 * old(bg).index),
                vscroll: le16(self.ioram@, 0x12 + 4 * old(bg).index),
                ..*old(bg)
            }),
    {
        let hofs = self.ioram16(0x10 + bg.index * 4);
        let vofs = self.ioram16(0x12 + bg.index * 4);
        bg.hscroll = hofs;
        bg.vscroll = vofs;
    }

    /// Set the parameters and reference point of affine background `bg`
    /// (2 or 3) from BGxPA - BGxPD, BGxX and BGxY.
    pub fn update_bgpxy(&self, bg: &mut Background)
        requires
            self.wf(),
            old(bg).wf(),
            old(bg).index >= 2,
        ensures
            final(bg).wf(),
            ({
                let o = 0x20 + 16 * (old(bg).index - 2);
                let io = self.ioram@;
                *final(bg) == Background {
                    matrix: (
                        le16(io, o) as i16 as i32,
                        le16(io, o + 2) as i16 as i32,
                        le16(io, o + 4) as i16 as i32,
                        le16(io, o + 6) as i16 as i32,
                    ),
                    coord: (le32(io, o + 8) as i32, le32(io, o + 12) as i32),
                    ..*old(bg)
                }
            }),
    {
        let o = 0x20 + (bg.index - 2) * 16;
        let pa = self.ioram16(o);
        let pb = self.ioram16(o + 2);
        let pc = self.ioram16(o + 4);
        let pd = self.ioram16(o + 6);
        let x = self.ioram32(o + 8);
        let y = self.ioram32(o + 12);
        bg.matrix = (pa as i16 as i32, pb as i16 as i32, pc as i16 as i32, pd as i16 as i32);
        bg.coord = (x as i32, y as i32);
    }

    /// Set the state of text background `bg` from its control and scroll
    /// registers.
    pub fn update_text_bg(&self, bg: &mut Background)
        requires
            self.wf(),
            old(bg).wf(),
        ensures
            final(bg).wf(),
            ({
                let w = le16(self.ioram@, 8 + 2 * old(bg).index) as u32;
                let size_r = bits_spec(w, 15, 14);
                let d = dimension_spec(old(bg).affine_f, size_r);
                *final(bg) == Background {
                    bgcnt: w as u16,
                    priority: bits_spec(w, 1, 0),
                    tile_b: bits_spec(w, 3, 2),
                    mosaic_f: bit_spec(w, 6),
                    palette_f: bit_spec(w, 7),
                    map_b: bits_spec(w, 12, 8),
                    wrap_f: bit_spec(w, 13),
                    size_r: size_r,
                    width: d.0,
                    height: d.1,
                    hscroll: le16(self.ioram@, 0x10 + 4 * old(bg).index),
                    vscroll: le16(self.ioram@, 0x12 + 4 * old(bg).index),
                    ..*old(bg)
                }
            }),
    {
        self.update_bgcnt(bg);
        self.update_bgofs(bg);
    }

    /// Set the state of affine background `bg` (2 or 3) from its control,
    /// parameter and reference point registers.
    pub fn update_affine_bg(&self, bg: &mut Background)
        requires
            self.wf(),
            old(bg).wf(),
            old(bg).index >= 2,
        ensures
            final(bg).wf(),
            ({
                let w = le16(self.ioram@, 8 + 2 * old(bg).index) as u32;
                let size_r = bits_spec(w, 15, 14);
                let d = dimension_spec(old(bg).affine_f, size_r);
                let o = 0x20 + 16 * (old(bg).index - 2);
                let io = self.ioram@;
                *final(bg) == Background {
                    bgcnt: w as u16,
                    priority: bits_spec(w, 1, 0),
                    tile_b: bits_spec(w, 3, 2),
                    mosaic_f: bit_spec(w, 6),
                    palette_f: bit_spec(w, 7),
                    map_b: bits_spec(w, 12, 8),
                    wrap_f: bit_spec(w, 13),
                    size_r: size_r,
                    width: d.0,
                    height: d.1,
                    matrix: (
                        le16(io, o) as i16 as i32,
                        le16(io, o + 2) as i16 as i32,
                        le16(io, o + 4) as i16 as i32,
                        le16(io, o + 6) as i16 as i32,
                    ),
                    coord: (le32(io, o + 8) as i32, le32(io, o + 12) as i32),
                    ..*old(bg)
                }
            }),
    {
        self.update_bgcnt(bg);
        self.update_bgpxy(bg);
    }
}

impl MemView {
    /// Contents after writing halfword `v` at IO RAM offset `o` (not logged).
    pub open spec fn store_io16(self, o: int, v: u16) -> MemView {
        MemView { regions: self.regions.update(3, put_le(self.regions[3], o, v as u32, 2)), ..self }
    }
}

} // verus!
