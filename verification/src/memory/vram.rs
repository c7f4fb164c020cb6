//! Video RAM: bitmaps, tile data and tile maps.
use vstd::prelude::*;
use crate::memory::{Memory, le16};
use crate::util::{rgb24_spec, Color};
use crate::memory::palette::lemma_palette_slot;

verus! {

/// Byte address in VRAM of the pixel (`pixel_x`, `pixel_y`) of tile
/// `tile_n` of 4-bit tile data based at block `tile_b` (16 KiB blocks).
pub open spec fn tile4_addr(tile_b: u32, tile_n: u32, pixel_x: u32, pixel_y: u32) -> int {
    tile_b * 0x4000 + tile_n * 32 + pixel_y * 4 + pixel_x / 2
}

/// Byte address in VRAM of the pixel of an 8-bit tile.
pub open spec fn tile8_addr(tile_b: u32, tile_n: u32, pixel_x: u32, pixel_y: u32) -> int {
    tile_b * 0x4000 + tile_n * 64 + pixel_y * 8 + pixel_x
}

/// Index of the entry of tile (`tile_x`, `tile_y`) in a text tile map of
/// size `size_r`: maps wider or higher than 32 tiles are made of 32 x 32
/// screen blocks.
pub open spec fn map_entry_spec(size_r: u32, tile_y: u32, tile_x: u32) -> int {
    tile_y * 32 + tile_x + (if tile_x >= 32 { 0x3e0int } else { 0 }) + (if tile_y >= 32 && size_r
        == 3 {
        0x400int
    } else {
        0
    })
}

/// Width in tiles of an affine tile map of size `size_r` (0 - 3).
pub open spec fn affine_map_width(size_r: u32) -> int {
    if size_r == 0 {
        16
    } else if size_r == 1 {
        32
    } else if size_r == 2 {
        64
    } else {
        128
    }
}

impl Memory {
    /// Palette entry of a pixel of 4-bit tile data: the high nibble of
    /// the byte for odd pixels, the low nibble for even ones.
    pub open spec fn tile_data4_spec(&self, tile_b: u32, tile_n: u32, pixel_x: u32, pixel_y: u32) -> u32 {
        let b = self.vram@[tile4_addr(tile_b, tile_n, pixel_x, pixel_y)] as u32;
        if pixel_x % 2 == 1 {
            b / 16
        } else {
            b % 16
        }
    }

    /// Palette entry of a pixel of 8-bit tile data.
    pub open spec fn tile_data8_spec(&self, tile_b: u32, tile_n: u32, pixel_x: u32, pixel_y: u32) -> u32 {
        self.vram@[tile8_addr(tile_b, tile_n, pixel_x, pixel_y)] as u32
    }

    /// Byte of VRAM at `offset`.
    pub fn vram8(&self, offset: u32) -> (r: u8)
        requires
            self.wf(),
            offset < 0x1_8000,
        ensures
            r == self.vram@[offset as int],
    {
        self.vram[offset as usize]
    }

    /// Little endian halfword of VRAM at `offset`.
    pub fn vram16(&self, offset: u32) -> (r: u16)
        requires
            self.wf(),
            offset + 1 < 0x1_8000,
        ensures
            r == le16(self.vram@, offset as int),
    {
        let a = offset as usize;
        self.vram[a] as u16 + 0x100 * (self.vram[a + 1] as u16)
    }

    /// Palette entry of a pixel of a tile, 8-bit data when `palette_f` is
    /// set, 4-bit data otherwise.
    pub fn tile_data(&self, palette_f: bool, tile_b: u32, tile_n: u32, pixel_x: u32, pixel_y: u32) -> (r: u32)
        requires
            self.wf(),
            palette_f ==> tile8_addr(tile_b, tile_n, pixel_x, pixel_y) < 0x1_8000,
            !palette_f ==> tile4_addr(tile_b, tile_n, pixel_x, pixel_y) < 0x1_8000,
        ensures
            r == if palette_f {
                self.tile_data8_spec(tile_b, tile_n, pixel_x, pixel_y)
            } else {
                self.tile_data4_spec(tile_b, tile_n, pixel_x, pixel_y)
            },
    {
        if palette_f {
            self.tile_data8(tile_b, tile_n, pixel_x, pixel_y)
        } else {
            self.tile_data4(tile_b, tile_n, pixel_x, pixel_y)
        }
    }

    /// Palette entry of a pixel of 4-bit tile data.
    pub fn tile_data4(&self, tile_b: u32, tile_n: u32, pixel_x: u32, pixel_y: u32) -> (r: u32)
        requires
            self.wf(),
            tile4_addr(tile_b, tile_n, pixel_x, pixel_y) < 0x1_8000,
        ensures
            r == self.tile_data4_spec(tile_b, tile_n, pixel_x, pixel_y),
            r < 16,
    {
        let b = self.vram8(tile_b * 0x4000 + tile_n * 32 + pixel_y * 4 + pixel_x / 2);
        if pixel_x % 2 == 1 {
            b as u32 / 16
        } else {
            b as u32 % 16
        }
    }

    /// Palette entry of a pixel of 8-bit tile data.
    pub fn tile_data8(&self, tile_b: u32, tile_n: u32, pixel_x: u32, pixel_y: u32) -> (r: u32)
        requires
            self.wf(),
            tile8_addr(tile_b, tile_n, pixel_x, pixel_y) < 0x1_8000,
        ensures
            r == self.tile_data8_spec(tile_b, tile_n, pixel_x, pixel_y),
            r < 256,
    {
        self.vram8(tile_b * 0x4000 + tile_n * 64 + pixel_y * 8 + pixel_x) as u32
    }

    /// Entry of tile (`tile_x`, `tile_y`) of the text tile map in screen
    /// block `index` (2 KiB blocks).
    pub fn text_tile_map(&self, index: u32, size_r: u32, tile_x: u32, tile_y: u32) -> (r: u16)
        requires
            self.wf(),
            tile_x < 0x1_0000,
            tile_y < 0x1_0000,
            index * 0x800 + map_entry_spec(size_r, tile_y, tile_x) * 2 + 1 < 0x1_8000,
        ensures
            r == le16(self.vram@, index * 0x800 + map_entry_spec(size_r, tile_y, tile_x) * 2),
    {
        let offset = map_entry(size_r, tile_y, tile_x) * 2;
        self.vram16(index * 0x800 + offset)
    }

    /// Entry of tile (`tile_x`, `tile_y`) of the affine tile map in screen
    /// block `index`.
    pub fn affine_tile_map(&self, index: u32, size_r: u32, tile_x: u32, tile_y: u32) -> (r: u8)
        requires
            self.wf(),
            size_r < 4,
            index * 0x800 + tile_y * affine_map_width(size_r) + tile_x < 0x1_8000,
        ensures
            r == self.vram@[index * 0x800 + tile_y * affine_map_width(size_r) + tile_x],
    {
        proof {
            assert(tile_y * affine_map_width(size_r) >= 0) by (nonlinear_arith)
                requires
                    affine_map_width(size_r) > 0,
            ;
        }
        let width: u32 = 16u32 << size_r;
        assert(width == affine_map_width(size_r)) by (bit_vector)
            requires
                width == 16u32 << size_r,
                size_r < 4,
                affine_map_width(size_r) == if size_r == 0 {
                    16int
                } else if size_r == 1 {
                    32int
                } else if size_r == 2 {
                    64int
                } else {
                    128int
                },
        ;
        let offset = tile_y * width + tile_x;
        self.vram8(index * 0x800 + offset)
    }
}

/// Index of the entry of a tile in a text tile map.
pub fn map_entry(size_r: u32, tile_y: u32, tile_x: u32) -> (r: u32)
    requires
        tile_x < 0x1_0000,
        tile_y < 0x1_0000,
    ensures
        r == map_entry_spec(size_r, tile_y, tile_x),
{
    let mut n = tile_y * 32 + tile_x;
    if tile_x >= 32 {
        n = n + 0x03e0;
    }
    if tile_y >= 32 && size_r == 0b11 {
        n = n + 0x0400;
    }
    n
}

/// Color number of pixel `p` (0 - 63, row by row) of the 4-bit tile
/// `index` of the sprite tile data: the low nibble of a byte holds the
/// left pixel of a pair.
pub open spec fn sprite_tile_pixel(vram: Seq<u8>, index: int, p: int) -> u8 {
    let byte = vram[index * 32 + p / 2 + 0x1_0000];
    if p % 2 == 1 {
        byte >> 4u8
    } else {
        byte & 0x0fu8
    }
}

impl Memory {
    /// RGB24 colors of the 64 pixels of sprite tile `index`, drawn with
    /// sprite palette 0.
    pub fn tile_colors(&self, index: usize) -> (r: Vec<u32>)
        requires
            self.wf(),
            index * 32 + 0x1_0000 + 32 <= 0x1_8000,
        ensures
            r.len() == 64,
            forall|p: int|
                0 <= p < 64 ==> #[trigger] r[p] == rgb24_spec(
                    self.obj_color(0, sprite_tile_pixel(self.vram@, index as int, p) as u32),
                ),
    {
        let mut r: Vec<u32> = Vec::new();
        let mut p: usize = 0;
        while p < 64
            invariant
                self.wf(),
                index * 32 + 0x1_0000 + 32 <= 0x1_8000,
                p <= 64,
                r.len() == p,
                forall|q: int|
                    0 <= q < p ==> #[trigger] r[q] == rgb24_spec(
                        self.obj_color(0, sprite_tile_pixel(self.vram@, index as int, q) as u32),
                    ),
            decreases 64 - p,
        {
            let byte = self.vram8((index * 32 + p / 2 + 0x1_0000) as u32);
            let nibble = if p % 2 == 1 {
                byte >> 4u8
            } else {
                byte & 0x0fu8
            };
            assert(nibble < 16) by (bit_vector)
                requires
                    nibble == byte >> 4u8 || nibble == byte & 0x0fu8,
            ;
            proof {
                lemma_palette_slot(0, nibble as u32);
            }
            r.push(self.obj_palette(0, nibble as u32).to_rgb24());
            p = p + 1;
        }
        r
    }
}

} // verus!
