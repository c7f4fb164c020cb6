//! Window registers in IO RAM.
use vstd::prelude::*;
use crate::util::{bits_spec, bit_spec, BitField};
use crate::memory::{Memory, le16};
use crate::ppu::PPU;
use crate::ppu::background::{Background, dimension, dimension_spec};

verus! {

impl Memory {
    /// Horizontal bounds (left, right) in WINxH of window `index`.
    pub open spec fn winh_spec(&self, index: int) -> (u32, u32) {
        let w = le16(self.ioram@, 0x40 + index * 2) as u32;
        (bits_spec(w, 15, 8), bits_spec(w, 7, 0))
    }

    /// Vertical bounds (top, bottom) in WINxV of window `index`.
    pub open spec fn winv_spec(&self, index: int) -> (u32, u32) {
        let w = le16(self.ioram@, 0x44 + index * 2) as u32;
        (bits_spec(w, 15, 8), bits_spec(w, 7, 0))
    }

    /// Control of inside window `index`: the low byte of WININ for window
    /// 0, the high byte otherwise.
    pub open spec fn winin_spec(&self, index: int) -> u8 {
        let w = le16(self.ioram@, 0x48);
        if index == 0 {
            (w % 0x100) as u8
        } else {
            (w / 0x100) as u8
        }
    }

    /// WINOUT: control outside of the windows (low byte) and of the object
    /// window (high byte).
    pub open spec fn winout_spec(&self) -> u16 {
        le16(self.ioram@, 0x4a)
    }

    /// Horizontal bounds of window `index`.
    pub fn get_winh(&self, index: usize) -> (r: (u32, u32))
        requires
            self.wf(),
            index < 0x7fdf,
        ensures
            r == self.winh_spec(index as int),
            r.0 < 256 && r.1 < 256,
    {
        let winh = self.ioram16(0x40 + index * 2);
        (winh.bits(15, 8), winh.bits(7, 0))
    }

    /// Vertical bounds of window `index`.
    pub fn get_winv(&self, index: usize) -> (r: (u32, u32))
        requires
            self.wf(),
            index < 0x7fdd,
        ensures
            r == self.winv_spec(index as int),
    {
        let winv = self.ioram16(0x44 + index * 2);
        (winv.bits(15, 8), winv.bits(7, 0))
    }

    /// Control of inside window `index`.
    pub fn get_winin(&self, index: usize) -> (r: u8)
        requires
            self.wf(),
        ensures
            r == self.winin_spec(index as int),
    {
        let winin = self.ioram16(0x48);
        if index == 0 {
            (winin % 0x100) as u8
        } else {
            (winin / 0x100) as u8
        }
    }

    /// WINOUT.
    pub fn get_winout(&self) -> (r: u16)
        requires
            self.wf(),
        ensures
            r == self.winout_spec(),
    {
        self.ioram16(0x4a)
    }
}


impl PPU {
    /// Display control register.
    pub fn get_dispcnt(&self) -> (r: u16)
        ensures
            r == self.dispcnt,
    {
        self.dispcnt
    }

    /// Write the display control register: mode, page, sprite layout and
    /// forced blank follow it.
    pub fn set_dispcnt(&mut self, value: u16)
        requires
            old(self).wf(),
        ensures
            final(self).wf(),
            *final(self) == (PPU {
                dispcnt: value,
                mode: bits_spec(value as u32, 2, 0),
                flip: bit_spec(value as u32, 4),
                sequential: bit_spec(value as u32, 6),
                fblank: bit_spec(value as u32, 7),
                ..*old(self)
            }),
    {
        self.dispcnt = value;
        self.mode = value.bits(2, 0);
        self.flip = value.bit(4);
        self.sequential = value.bit(6);
        self.fblank = value.bit(7);
    }

    /// Display status register.
    pub fn get_dispstat(&self) -> (r: u16)
        ensures
            r == self.dispstat,
    {
        self.dispstat
    }

    /// Write the display status register.
    pub fn set_dispstat(&mut self, value: u16)
        ensures
            *final(self) == (PPU { dispstat: value, ..*old(self) }),
    {
        self.dispstat = value;
    }

    /// Current line.
    pub fn get_vcount(&self) -> (r: u16)
        ensures
            r == self.vcount,
    {
        self.vcount
    }
}

impl Background {
    /// Background control register.
    pub fn get_control(&self) -> (r: u16)
        ensures
            r == self.bgcnt,
    {
        self.bgcnt
    }

    /// Write the background control register: priority, tile data and map
    /// blocks, mosaic, palette type, wrap and size follow it.
    pub fn set_control(&mut self, value: u16)
        requires
            old(self).wf(),
        ensures
            final(self).wf(),
            ({
                let w = value as u32;
                let size_r = bits_spec(w, 15, 14);
                let d = dimension_spec(old(self).affine_f, size_r);
                *final(self) == Background {
                    bgcnt: value,
                    priority: bits_spec(w, 1, 0),
                    tile_b: bits_spec(w, 3, 2),
                    mosaic_f: bit_spec(w, 6),
                    palette_f: bit_spec(w, 7),
                    map_b: bits_spec(w, 12, 8),
                    wrap_f: bit_spec(w, 13),
                    size_r: size_r,
                    width: d.0,
                    height: d.1,
                    ..*old(self)
                }
            }),
    {
        self.bgcnt = value;
        self.priority = value.bits(1, 0);
        self.tile_b = value.bits(3, 2);
        self.mosaic_f = value.bit(6);
        self.palette_f = value.bit(7);
        self.map_b = value.bits(12, 8);
        self.wrap_f = value.bit(13);
        self.size_r = value.bits(15, 14);
        let (w, h) = dimension(self.affine_f, self.size_r);
        self.width = w;
        self.height = h;
    }

    /// Write the horizontal scroll.
    pub fn set_hofs(&mut self, value: u16)
        ensures
            *final(self) == (Background { hscroll: value, ..*old(self) }),
    {
        self.hscroll = value;
    }

    /// Write the vertical scroll.
    pub fn set_vofs(&mut self, value: u16)
        ensures
            *final(self) == (Background { vscroll: value, ..*old(self) }),
    {
        self.vscroll = value;
    }

    /// Write affine parameter PA, a signed halfword.
    pub fn set_pa(&mut self, value: u16)
        ensures
            *final(self) == (Background {
                matrix: (value as i16 as i32, old(self).matrix.1, old(self).matrix.2, old(self).matrix.3),
                ..*old(self)
            }),
    {
        self.matrix.0 = value as i16 as i32;
    }

    /// Write affine parameter PB.
    pub fn set_pb(&mut self, value: u16)
        ensures
            *final(self) == (Background {
                matrix: (old(self).matrix.0, value as i16 as i32, old(self).matrix.2, old(self).matrix.3),
                ..*old(self)
            }),
    {
        self.matrix.1 = value as i16 as i32;
    }

    /// Write affine parameter PC.
    pub fn set_pc(&mut self, value: u16)
        ensures
            *final(self) == (Background {
                matrix: (old(self).matrix.0, old(self).matrix.1, value as i16 as i32, old(self).matrix.3),
                ..*old(self)
            }),
    {
        self.matrix.2 = value as i16 as i32;
    }

    /// Write affine parameter PD.
    pub fn set_pd(&mut self, value: u16)
        ensures
            *final(self) == (Background {
                matrix: (old(self).matrix.0, old(self).matrix.1, old(self).matrix.2, value as i16 as i32),
                ..*old(self)
            }),
    {
        self.matrix.3 = value as i16 as i32;
    }

    /// Write the low halfword of the reference point's X coordinate.
    pub fn set_x_l(&mut self, value: u16)
        ensures
            *final(self) == (Background {
                coord: ((((old(self).coord.0 as u32) & 0xffff_0000) | value as u32) as i32, old(self).coord.1),
                ..*old(self)
            }),
    {
        let c = ((self.coord.0 as u32) & 0xffff_0000) | value as u32;
        self.coord.0 = c as i32;
    }

    /// Write the high halfword of the reference point's X coordinate.
    pub fn set_x_h(&mut self, value: u16)
        ensures
            *final(self) == (Background {
                coord: ((((old(self).coord.0 as u32) & 0x0000_ffff) | ((value as u32) << 16u32)) as i32, old(self).coord.1),
                ..*old(self)
            }),
    {
        let c = ((self.coord.0 as u32) & 0x0000_ffff) | ((value as u32) << 16u32);
        self.coord.0 = c as i32;
    }

    /// Write the low halfword of the reference point's Y coordinate: the
    /// high halfword kept is that of the X coordinate.
    pub fn set_y_l(&mut self, value: u16)
        ensures
            *final(self) == (Background {
                coord: (old(self).coord.0, (((old(self).coord.0 as u32) & 0xffff_0000) | value as u32) as i32),
                ..*old(self)
            }),
    {
        let c = ((self.coord.0 as u32) & 0xffff_0000) | value as u32;
        self.coord.1 = c as i32;
    }

    /// Write the high halfword of the reference point's Y coordinate.
    pub fn set_y_h(&mut self, value: u16)
        ensures
            *final(self) == (Background {
                coord: (old(self).coord.0, (((old(self).coord.1 as u32) & 0x0000_ffff) | ((value as u32) << 16u32)) as i32),
                ..*old(self)
            }),
    {
        let c = ((self.coord.1 as u32) & 0x0000_ffff) | ((value as u32) << 16u32);
        self.coord.1 = c as i32;
    }
}


/// Background `b` after a write of `v` to its affine register at offset
/// `k` of its block: PA, PB, PC, PD, then the halfwords of X and Y.
pub open spec fn affine_reg_written(b: Background, k: int, v: u16) -> Background {
    let p = v as i16 as i32;
    if k == 0 {
        Background { matrix: (p, b.matrix.1, b.matrix.2, b.matrix.3), ..b }
    } else if k == 2 {
        Background { matrix: (b.matrix.0, p, b.matrix.2, b.matrix.3), ..b }
    } else if k == 4 {
        Background { matrix: (b.matrix.0, b.matrix.1, p, b.matrix.3), ..b }
    } else if k == 6 {
        Background { matrix: (b.matrix.0, b.matrix.1, b.matrix.2, p), ..b }
    } else if k == 8 {
        Background { coord: ((((b.coord.0 as u32) & 0xffff_0000) | v as u32) as i32, b.coord.1), ..b }
    } else if k == 10 {
        Background { coord: ((((b.coord.0 as u32) & 0x0000_ffff) | ((v as u32) << 16u32)) as i32, b.coord.1), ..b }
    } else if k == 12 {
        Background { coord: (b.coord.0, (((b.coord.0 as u32) & 0xffff_0000) | v as u32) as i32), ..b }
    } else {
        Background { coord: (b.coord.0, (((b.coord.1 as u32) & 0x0000_ffff) | ((v as u32) << 16u32)) as i32), ..b }
    }
}

/// Background `b` after a write of `v` to its control register.
pub open spec fn bg_controlled(b: Background, v: u16) -> Background {
    let w = v as u32;
    let size_r = bits_spec(w, 15, 14);
    let d = dimension_spec(b.affine_f, size_r);
    Background {
        bgcnt: v,
        priority: bits_spec(w, 1, 0),
        tile_b: bits_spec(w, 3, 2),
        mosaic_f: bit_spec(w, 6),
        palette_f: bit_spec(w, 7),
        map_b: bits_spec(w, 12, 8),
        wrap_f: bit_spec(w, 13),
        size_r: size_r,
        width: d.0,
        height: d.1,
        ..b
    }
}

/// Picture processor after a write of `v` to display register `r` (an IO
/// RAM offset): DISPCNT, DISPSTAT, the background control, scroll and
/// affine registers; writes to other registers leave it unchanged.
pub open spec fn ppu_io_written(o: PPU, r: u32, v: u16) -> PPU {
    let bgs = o.background@;
    if r == 0 {
        PPU {
            dispcnt: v,
            mode: bits_spec(v as u32, 2, 0),
            flip: bit_spec(v as u32, 4),
            sequential: bit_spec(v as u32, 6),
            fblank: bit_spec(v as u32, 7),
            ..o
        }
    } else if r == 4 {
        PPU { dispstat: v, ..o }
    } else {
        o
    }
}

/// Backgrounds after a write of `v` to display register `r`.
pub open spec fn bgs_io_written(bgs: Seq<Background>, r: u32, v: u16) -> Seq<Background> {
    if 0x08 <= r < 0x10 && r % 2 == 0 {
        let i = (r - 0x08) / 2;
        bgs.update(i, bg_controlled(bgs[i], v))
    } else if 0x10 <= r < 0x20 && r % 2 == 0 {
        let i = (r - 0x10) / 4;
        if r % 4 == 0 {
            bgs.update(i, Background { hscroll: v, ..bgs[i] })
        } else {
            bgs.update(i, Background { vscroll: v, ..bgs[i] })
        }
    } else if 0x20 <= r < 0x40 && r % 2 == 0 {
        let i = 2 + (r - 0x20) / 16;
        bgs.update(i, affine_reg_written(bgs[i], (r - 0x20) % 16, v))
    } else {
        bgs
    }
}

impl PPU {
    /// Apply a write of `value` to the display register at `address`
    /// (its offset in IO RAM is the low halfword).
    pub fn io_write(&mut self, address: u32, value: u16)
        requires
            old(self).wf(),
        ensures
            final(self).wf(),
            ({
                let r = address & 0xffff;
                &&& *final(self) == PPU { background: final(self).background, ..ppu_io_written(*old(self), r, value) }
                &&& final(self).background@ == bgs_io_written(old(self).background@, r, value)
            }),
    {
        let r = address & 0xffff;
        proof {
            crate::util::lemma_and_bound(address, 0xffff);
        }
        if r == 0 {
            self.set_dispcnt(value);
        } else if r == 4 {
            self.set_dispstat(value);
        } else if 0x08 <= r && r < 0x10 && r % 2 == 0 {
            let i = ((r - 0x08) / 2) as usize;
            self.background[i].set_control(value);
        } else if 0x10 <= r && r < 0x20 && r % 2 == 0 {
            let i = ((r - 0x10) / 4) as usize;
            if r % 4 == 0 {
                self.background[i].set_hofs(value);
            } else {
                self.background[i].set_vofs(value);
            }
        } else if 0x20 <= r && r < 0x40 && r % 2 == 0 {
            let i = (2 + (r - 0x20) / 16) as usize;
            let k = (r - 0x20) % 16;
            if k == 0 {
                self.background[i].set_pa(value);
            } else if k == 2 {
                self.background[i].set_pb(value);
            } else if k == 4 {
                self.background[i].set_pc(value);
            } else if k == 6 {
                self.background[i].set_pd(value);
            } else if k == 8 {
                self.background[i].set_x_l(value);
            } else if k == 10 {
                self.background[i].set_x_h(value);
            } else if k == 12 {
                self.background[i].set_y_l(value);
            } else {
                self.background[i].set_y_h(value);
            }
        }
    }
}

} // verus!
