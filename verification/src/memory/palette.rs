//! Palette RAM: 256 background colors, then 256 sprite colors.
use vstd::prelude::*;
use crate::memory::{Memory, le16};
use crate::ppu::TRANSPARENT;
use crate::util::{rgb24_spec, Color};

verus! {

/// Index of color `index` of palette `palette_n` (16 colors each; with
/// palette 0, `index` may address all 256 colors).
pub open spec fn palette_slot(palette_n: u32, index: u32) -> u32 {
    (palette_n << 4u32) | index
}

/// A 4-bit palette number and an 8-bit color index address one of 256 colors.
pub proof fn lemma_palette_slot(palette_n: u32, index: u32)
    by (bit_vector)
    requires
        palette_n < 16,
        index < 256,
    ensures
        palette_slot(palette_n, index) < 0x100,
{
}

impl Memory {
    /// Background color `index` of palette `palette_n`; color 0 is transparent.
    pub open spec fn bg_color(&self, palette_n: u32, index: u32) -> u16 {
        if index == 0 {
            TRANSPARENT
        } else {
            le16(self.param@, palette_slot(palette_n, index) * 2)
        }
    }

    /// Sprite color `index` of palette `palette_n`; color 0 is transparent.
    pub open spec fn obj_color(&self, palette_n: u32, index: u32) -> u16 {
        if index == 0 {
            TRANSPARENT
        } else {
            le16(self.param@, palette_slot(palette_n, index) * 2 + 0x200)
        }
    }

    /// Color 0 of background palette 0: the backdrop color.
    pub fn backdrop(&self) -> (r: u16)
        requires
            self.wf(),
        ensures
            r == le16(self.param@, 0),
    {
        self.param[0] as u16 + 0x100 * (self.param[1] as u16)
    }

    /// Background color `index` of palette `palette_n`.
    pub fn bg_palette(&self, palette_n: u32, index: u32) -> (r: u16)
        requires
            self.wf(),
            index == 0 || palette_slot(palette_n, index) < 0x200,
        ensures
            r == self.bg_color(palette_n, index),
    {
        if index == 0 {
            return TRANSPARENT;
        }
        let a = ((palette_n << 4u32) | index) as usize * 2;
        self.param[a] as u16 + 0x100 * (self.param[a + 1] as u16)
    }

    /// Sprite color `index` of palette `palette_n`.
    pub fn obj_palette(&self, palette_n: u32, index: u32) -> (r: u16)
        requires
            self.wf(),
            index == 0 || palette_slot(palette_n, index) < 0x100,
        ensures
            r == self.obj_color(palette_n, index),
    {
        if index == 0 {
            return TRANSPARENT;
        }
        let a = ((palette_n << 4u32) | index) as usize * 2 + 0x200;
        self.param[a] as u16 + 0x100 * (self.param[a + 1] as u16)
    }

    /// RGB24 colors of background palette 0 followed by those of sprite
    /// palette 0, 256 each.
    pub fn palette_colors(&self) -> (r: Vec<u32>)
        requires
            self.wf(),
        ensures
            r.len() == 0x200,
            forall|i: int| 0 <= i < 0x100 ==> #[trigger] r[i] == rgb24_spec(self.bg_color(0, i as u32)),
            forall|i: int|
                0x100 <= i < 0x200 ==> #[trigger] r[i] == rgb24_spec(self.obj_color(0, (i - 0x100) as u32)),
    {
        let mut r: Vec<u32> = Vec::new();
        let mut i: u32 = 0;
        while i < 0x100
            invariant
                self.wf(),
                i <= 0x100,
                r.len() == i,
                forall|j: int| 0 <= j < i ==> #[trigger] r[j] == rgb24_spec(self.bg_color(0, j as u32)),
            decreases 0x100 - i,
        {
            proof {
                lemma_palette_slot(0, i);
            }
            r.push(self.bg_palette(0, i).to_rgb24());
            i = i + 1;
        }
        let mut i: u32 = 0;
        while i < 0x100
            invariant
                self.wf(),
                i <= 0x100,
                r.len() == 0x100 + i,
                forall|j: int| 0 <= j < 0x100 ==> #[trigger] r[j] == rgb24_spec(self.bg_color(0, j as u32)),
                forall|j: int|
                    0x100 <= j < 0x100 + i ==> #[trigger] r[j] == rgb24_spec(
                        self.obj_color(0, (j - 0x100) as u32),
                    ),
            decreases 0x100 - i,
        {
            proof {
                lemma_palette_slot(0, i);
            }
            r.push(self.obj_palette(0, i).to_rgb24());
            i = i + 1;
        }
        r
    }
}

} // verus!
