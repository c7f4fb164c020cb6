//! Object attribute memory: three attribute halfwords and one affine
//! parameter halfword for each of the 128 sprites.
use vstd::prelude::*;
use crate::util::{bits_spec, bit_spec, BitField};
use crate::memory::{Memory, le16, le32, put_le};
use crate::ppu::PPU;
use crate::ppu::sprite::{Sprite, sprite_dimension, sprite_dimension_spec};

verus! {

/// `n` is `o` with attribute 0 set to `v`: Y coordinate, affine, double
/// size, mode, mosaic and shape (and the size that shape and size give).
pub open spec fn attr0_set(n: Sprite, o: Sprite, v: u16) -> bool {
    let w = v as u32;
    &&& n.attr@ == o.attr@.update(0, v)
    &&& n.ycoord == bits_spec(w, 7, 0)
    &&& n.affine_f == bit_spec(w, 8)
    &&& n.double_f == bit_spec(w, 9)
    &&& n.mode == bits_spec(w, 11, 10)
    &&& n.mosaic_f == bit_spec(w, 12)
    &&& n.shape == bits_spec(w, 15, 14)
    &&& (n.width, n.height) == sprite_dimension_spec(n.shape, o.size)
    &&& n == Sprite {
        attr: n.attr,
        ycoord: n.ycoord,
        affine_f: n.affine_f,
        double_f: n.double_f,
        mode: n.mode,
        mosaic_f: n.mosaic_f,
        shape: n.shape,
        width: n.width,
        height: n.height,
        ..o
    }
}

/// `n` is `o` with attribute 1 set to `v`: X coordinate, flips, affine
/// parameter group and size (and the size that shape and size give).
pub open spec fn attr1_set(n: Sprite, o: Sprite, v: u16) -> bool {
    let w = v as u32;
    &&& n.attr@ == o.attr@.update(1, v)
    &&& n.xcoord == bits_spec(w, 8, 0)
    &&& n.hflip == bit_spec(w, 12)
    &&& n.vflip == bit_spec(w, 13)
    &&& n.affine_i == bits_spec(w, 13, 9)
    &&& n.size == bits_spec(w, 15, 14)
    &&& (n.width, n.height) == sprite_dimension_spec(o.shape, n.size)
    &&& n == Sprite {
        attr: n.attr,
        xcoord: n.xcoord,
        hflip: n.hflip,
        vflip: n.vflip,
        affine_i: n.affine_i,
        size: n.size,
        width: n.width,
        height: n.height,
        ..o
    }
}

/// `n` is `o` with attribute 2 set to `v`: tile, priority and palette.
pub open spec fn attr2_set(n: Sprite, o: Sprite, v: u16) -> bool {
    let w = v as u32;
    &&& n.attr@ == o.attr@.update(2, v)
    &&& n.tile_n == bits_spec(w, 9, 0)
    &&& n.priority == bits_spec(w, 11, 10)
    &&& n.palette_n == bits_spec(w, 15, 12)
    &&& n == Sprite { attr: n.attr, tile_n: n.tile_n, priority: n.priority, palette_n: n.palette_n, ..o }
}

impl Sprite {
    /// Write attribute 0.
    pub fn set_attr0(&mut self, value: u16)
        requires
            old(self).wf(),
        ensures
            final(self).wf(),
            attr0_set(*final(self), *old(self), value),
    {
        self.attr[0] = value;
        self.ycoord = value.bits(7, 0);
        self.affine_f = value.bit(8);
        self.double_f = value.bit(9);
        self.mode = value.bits(11, 10);
        self.mosaic_f = value.bit(12);
        self.shape = value.bits(15, 14);
        let (w, h) = sprite_dimension(self.shape, self.size);
        self.width = w;
        self.height = h;
    }

    /// Write attribute 1.
    pub fn set_attr1(&mut self, value: u16)
        requires
            old(self).wf(),
        ensures
            final(self).wf(),
            attr1_set(*final(self), *old(self), value),
    {
        self.attr[1] = value;
        self.xcoord = value.bits(8, 0);
        self.hflip = value.bit(12);
        self.vflip = value.bit(13);
        self.affine_i = value.bits(13, 9);
        self.size = value.bits(15, 14);
        let (w, h) = sprite_dimension(self.shape, self.size);
        self.width = w;
        self.height = h;
    }

    /// Write attribute 2.
    pub fn set_attr2(&mut self, value: u16)
        requires
            old(self).wf(),
        ensures
            final(self).wf(),
            attr2_set(*final(self), *old(self), value),
    {
        self.attr[2] = value;
        self.tile_n = value.bits(9, 0);
        self.priority = value.bits(11, 10);
        self.palette_n = value.bits(15, 12);
    }
}

/// Whether `n` is sprite `o` after loading its three attributes from OAM.
pub open spec fn loaded_from_oam(n: Sprite, o: Sprite, oam: Seq<u8>) -> bool {
    let i = o.index as int;
    exists|s0: Sprite, s1: Sprite|
        #[trigger] attr0_set(s0, o, le16(oam, 8 * i)) && #[trigger] attr1_set(s1, s0, le16(oam, 8 * i + 2)) && attr2_set(
            n,
            s1,
            le16(oam, 8 * i + 4),
        )
}

impl Memory {
    /// Halfword of OAM at byte offset `offset` (forced even).
    pub fn oam_load16(&self, offset: usize) -> (r: u16)
        requires
            self.wf(),
            offset < 0x400,
        ensures
            r == le16(self.oam@, (offset - offset % 2) as int),
    {
        let a = offset - offset % 2;
        self.oam[a] as u16 + 0x100 * (self.oam[a + 1] as u16)
    }

    /// Byte of OAM at byte offset `offset`.
    pub fn oam_load8(&self, offset: usize) -> (r: u8)
        requires
            self.wf(),
            offset < 0x400,
        ensures
            r == self.oam@[offset as int],
    {
        let value = self.oam_load16(offset);
        if offset % 2 == 1 {
            (value / 0x100) as u8
        } else {
            (value % 0x100) as u8
        }
    }

    /// Word of OAM at byte offset `offset`: the halfwords at `offset` and
    /// `offset + 2`.
    pub fn oam_load32(&self, offset: usize) -> (r: u32)
        requires
            self.wf(),
            offset + 2 < 0x400,
        ensures
            r == le16(self.oam@, (offset - offset % 2) as int) as int + 0x1_0000 * le16(
                self.oam@,
                (offset + 2 - offset % 2) as int,
            ) as int,
    {
        let lo = self.oam_load16(offset) as u32;
        let hi = self.oam_load16(offset + 2) as u32;
        hi * 0x1_0000 + lo
    }

    /// Store a halfword in OAM at byte offset `offset` (forced even).
    pub fn oam_store16(&mut self, offset: usize, value: u16)
        requires
            old(self).wf(),
            offset < 0x400,
        ensures
            final(self).wf(),
            final(self).oam@ == put_le(old(self).oam@, (offset - offset % 2) as int, value as u32, 2),
            final(self).bios == old(self).bios && final(self).ewram == old(self).ewram,
            final(self).iwram == old(self).iwram && final(self).ioram == old(self).ioram,
            final(self).param == old(self).param && final(self).vram == old(self).vram,
            final(self).rom == old(self).rom && final(self).sram == old(self).sram,
            final(self).io_writes == old(self).io_writes,
    {
        let a = offset - offset % 2;
        self.oam.set(a, (value % 0x100) as u8);
        self.oam.set(a + 1, (value / 0x100) as u8);
        proof {
            reveal_with_fuel(put_le, 3);
        }
    }

    /// Store a word in OAM at byte offset `offset`, as two halfwords.
    pub fn oam_store32(&mut self, offset: usize, value: u32)
        requires
            old(self).wf(),
            offset + 2 < 0x400,
        ensures
            final(self).wf(),
            final(self).oam@ == put_le(
                put_le(old(self).oam@, (offset - offset % 2) as int, value % 0x1_0000, 2),
                (offset + 2 - offset % 2) as int,
                value / 0x1_0000,
                2,
            ),
    {
        self.oam_store16(offset, (value % 0x1_0000) as u16);
        self.oam_store16(offset + 2, (value / 0x1_0000) as u16);
    }

    /// Load the three attributes of `sprite` from OAM.
    pub fn update_sprite(&self, sprite: &mut Sprite)
        requires
            self.wf(),
            old(sprite).wf(),
        ensures
            final(sprite).wf(),
            loaded_from_oam(*final(sprite), *old(sprite), self.oam@),
    {
        let i = sprite.index;
        let a0 = self.oam_load16(8 * i);
        sprite.set_attr0(a0);
        let ghost s0 = *sprite;
        let a1 = self.oam_load16(8 * i + 2);
        sprite.set_attr1(a1);
        let ghost s1 = *sprite;
        let a2 = self.oam_load16(8 * i + 4);
        sprite.set_attr2(a2);
        assert(attr0_set(s0, *old(sprite), le16(self.oam@, 8 * i)) && attr1_set(s1, s0, le16(self.oam@, 8 * i + 2))
            && attr2_set(*sprite, s1, le16(self.oam@, 8 * i + 4)));
    }
}

impl PPU {
    /// Write `value` at byte offset `offset` of the PPU's sprite table:
    /// byte offsets 0 - 2 of an 8-byte entry select attributes 0 - 2, the
    /// others the affine parameter of the entry.
    pub fn oam_store16(&mut self, offset: usize, value: u16)
        requires
            old(self).wf(),
            offset < 0x400,
        ensures
            final(self).wf(),
            ({
                let i = (offset / 8) as int;
                let k = offset % 8;
                &&& final(self).dispcnt == old(self).dispcnt && final(self).dispstat == old(self).dispstat
                &&& final(self).vcount == old(self).vcount && final(self).mode == old(self).mode
                &&& final(self).background == old(self).background && final(self).layer == old(self).layer
                &&& final(self).window == old(self).window && final(self).buffer == old(self).buffer
                &&& final(self).flip == old(self).flip && final(self).sequential == old(self).sequential
                &&& final(self).fblank == old(self).fblank
                &&& final(self).sprite.len() == 128
                &&& forall|j: int| 0 <= j < 128 && j != i ==> final(self).sprite[j] == old(self).sprite[j]
                &&& k == 0 ==> attr0_set(final(self).sprite[i], old(self).sprite[i], value)
                &&& k == 1 ==> attr1_set(final(self).sprite[i], old(self).sprite[i], value)
                &&& k == 2 ==> attr2_set(final(self).sprite[i], old(self).sprite[i], value)
                &&& k <= 2 ==> final(self).obj_param == old(self).obj_param
                &&& k > 2 ==> final(self).sprite[i] == old(self).sprite[i] && final(self).obj_param@
                    == old(self).obj_param@.update(i, value)
            }),
    {
        let obj_index = offset / 8;
        let attr_index = offset % 8;
        match attr_index {
            0 => self.sprite[obj_index].set_attr0(value),
            1 => self.sprite[obj_index].set_attr1(value),
            2 => self.sprite[obj_index].set_attr2(value),
            _ => self.obj_param.set(obj_index, value),
        }
    }

    /// Read back what `oam_store16` wrote at byte offset `offset`.
    pub fn oam_load16(&self, offset: usize) -> (r: u16)
        requires
            self.wf(),
            offset < 0x400,
        ensures
            offset % 8 <= 2 ==> r == self.sprite[(offset / 8) as int].attr[(offset % 8) as int],
            offset % 8 > 2 ==> r == self.obj_param[(offset / 8) as int],
    {
        let obj_index = offset / 8;
        let attr_index = offset % 8;
        if attr_index <= 2 {
            self.sprite[obj_index].attr[attr_index]
        } else {
            self.obj_param[obj_index]
        }
    }
}

} // verus!

verus! {

/// Reading the PPU's sprite table gives back what was written at the same
/// byte offset.
pub proof fn lemma_oam_roundtrip(n: PPU, o: PPU, offset: usize, value: u16)
    requires
        o.wf(),
        n.wf(),
        offset < 0x400,
        ({
            let i = (offset / 8) as int;
            let k = offset % 8;
            &&& n.sprite.len() == 128
            &&& k == 0 ==> attr0_set(n.sprite[i], o.sprite[i], value)
            &&& k == 1 ==> attr1_set(n.sprite[i], o.sprite[i], value)
            &&& k == 2 ==> attr2_set(n.sprite[i], o.sprite[i], value)
            &&& k > 2 ==> n.obj_param@ == o.obj_param@.update(i, value)
        }),
    ensures
        offset % 8 <= 2 ==> n.sprite[(offset / 8) as int].attr[(offset % 8) as int] == value,
        offset % 8 > 2 ==> n.obj_param[(offset / 8) as int] == value,
{
}

} // verus!
