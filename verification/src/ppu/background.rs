//! Backgrounds: tiled text and affine backgrounds, and the bitmap modes.
use vstd::prelude::*;
use crate::util::{bits_spec, bit_spec, sub32, BitField};
use crate::memory::{Memory, le16};
use crate::memory::vram::{tile4_addr, tile8_addr, map_entry_spec, affine_map_width};
use crate::ppu::{PPU, TRANSPARENT, others_unchanged};
use crate::ppu::layer::{painted, paint_all, lemma_paint_all_len};

verus! {

/// Width and height in pixels of a background: text backgrounds (256 or
/// 512 square or wide or tall), affine backgrounds (128 to 1024 square).
pub open spec fn dimension_spec(affine: bool, size_r: u32) -> (u32, u32) {
    if !affine {
        if size_r == 0 {
            (256, 256)
        } else if size_r == 1 {
            (512, 256)
        } else if size_r == 2 {
            (256, 512)
        } else {
            (512, 512)
        }
    } else {
        if size_r == 0 {
            (128, 128)
        } else if size_r == 1 {
            (256, 256)
        } else if size_r == 2 {
            (512, 512)
        } else {
            (1024, 1024)
        }
    }
}

/// Width and height in pixels of a background.
pub fn dimension(affine: bool, size_r: u32) -> (r: (u32, u32))
    requires
        size_r < 4,
    ensures
        r == dimension_spec(affine, size_r),
{
    if !affine {
        match size_r {
            0 => (256, 256),
            1 => (512, 256),
            2 => (256, 512),
            _ => (512, 512),
        }
    } else {
        match size_r {
            0 => (128, 128),
            1 => (256, 256),
            2 => (512, 512),
            _ => (1024, 1024),
        }
    }
}

/// A background and its line buffer.
pub struct Background {
    /// 0 - 3.
    pub index: usize,
    /// Raw background control register.
    pub bgcnt: u16,
    /// Lower priority takes precedence.
    pub priority: u32,
    /// Base block (16 KiB) of the tile data.
    pub tile_b: u32,
    /// Base block (2 KiB) of the tile map.
    pub map_b: u32,
    /// Background type: affine when set, text otherwise.
    pub affine_f: bool,
    /// Mosaic.
    pub mosaic_f: bool,
    /// Palette type: 256 colors when set, 16 palettes of 16 otherwise.
    pub palette_f: bool,
    /// Whether an affine background wraps around.
    pub wrap_f: bool,
    /// Raw bits 15 - 14 of the control register.
    pub size_r: u32,
    /// Width in pixels.
    pub width: u32,
    /// Height in pixels.
    pub height: u32,
    /// Text background scroll.
    pub hscroll: u16,
    pub vscroll: u16,
    /// Affine parameters PA, PB, PC, PD.
    pub matrix: (i32, i32, i32, i32),
    /// Affine reference point.
    pub coord: (i32, i32),
    /// Affine reference point of the current line.
    pub internal: (i32, i32),
    /// Line buffer.
    pub pixel: Vec<u16>,
}

impl Background {
    /// Fields within their register widths, size from the size field (or
    /// none yet), a line buffer for the widest background.
    pub open spec fn wf(&self) -> bool {
        &&& self.index < 4
        &&& self.priority < 4
        &&& self.tile_b < 4
        &&& self.map_b < 32
        &&& self.size_r < 4
        &&& (self.width, self.height) == dimension_spec(self.affine_f, self.size_r) || (self.width == 0
            && self.height == 0)
        &&& self.pixel.len() == 1024
    }

    /// Background 0 with every register clear and no size.
    pub fn new() -> (b: Self)
        ensures
            b.wf(),
            b.index == 0 && b.bgcnt == 0 && b.priority == 0 && b.tile_b == 0 && b.map_b == 0,
            !b.affine_f && !b.mosaic_f && !b.palette_f && !b.wrap_f,
            b.size_r == 0 && b.width == 0 && b.height == 0,
            b.hscroll == 0 && b.vscroll == 0,
            b.matrix == (0i32, 0i32, 0i32, 0i32) && b.coord == (0i32, 0i32) && b.internal == (0i32, 0i32),
            b.pixel@ == Seq::new(1024, |i: int| 0u16),
    {
        let b = Background {
            index: 0,
            bgcnt: 0,
            priority: 0,
            tile_b: 0,
            map_b: 0,
            affine_f: false,
            mosaic_f: false,
            palette_f: false,
            wrap_f: false,
            size_r: 0,
            width: 0,
            height: 0,
            hscroll: 0,
            vscroll: 0,
            matrix: (0, 0, 0, 0),
            coord: (0, 0),
            internal: (0, 0),
            pixel: vec![0u16; 1024],
        };
        b
    }
}

/// Line of a text background shown on screen line `vcount` (with the
/// vertical scroll, wrapping around the height).
pub open spec fn text_line_n(bg: Background, vcount: u16) -> u32 {
    (vcount.wrapping_add(bg.vscroll) as u32) % bg.height
}

/// Tile map entry of pixel `i` of the background line.
pub open spec fn text_entry(bg: Background, m: Memory, vcount: u16, i: u32) -> u32 {
    let line_n = text_line_n(bg, vcount);
    le16(m.vram@, bg.map_b * 0x800 + map_entry_spec(bg.size_r, line_n / 8, i / 8) * 2) as u32
}

/// Pixel coordinates in its tile of pixel `i` of the background line,
/// after the flips of the tile map entry.
pub open spec fn text_pixel_xy(bg: Background, m: Memory, vcount: u16, i: u32) -> (u32, u32) {
    let line_n = text_line_n(bg, vcount);
    let entry = text_entry(bg, m, vcount, i);
    (
        if bit_spec(entry, 10) { (7 - i % 8) as u32 } else { i % 8 },
        if bit_spec(entry, 11) { (7 - line_n % 8) as u32 } else { line_n % 8 },
    )
}

/// Whether the tile data of pixel `i` lies in VRAM.
pub open spec fn text_in_vram(bg: Background, m: Memory, vcount: u16, i: u32) -> bool {
    let tile_n = bits_spec(text_entry(bg, m, vcount, i), 9, 0);
    let (px, py) = text_pixel_xy(bg, m, vcount, i);
    if bg.palette_f {
        tile8_addr(bg.tile_b, tile_n, px, py) < 0x1_8000
    } else {
        tile4_addr(bg.tile_b, tile_n, px, py) < 0x1_8000
    }
}

/// Color of pixel `i` of the background line: the palette color of its
/// tile's pixel (transparent for color 0, and where the tile data would lie
/// past the end of VRAM).
pub open spec fn text_color(bg: Background, m: Memory, vcount: u16, i: u32) -> u16 {
    let entry = text_entry(bg, m, vcount, i);
    let tile_n = bits_spec(entry, 9, 0);
    let (px, py) = text_pixel_xy(bg, m, vcount, i);
    if !text_in_vram(bg, m, vcount, i) {
        TRANSPARENT
    } else if bg.palette_f {
        m.bg_color(bits_spec(entry, 15, 12), m.tile_data8_spec(bg.tile_b, tile_n, px, py))
    } else {
        m.bg_color(bits_spec(entry, 15, 12), m.tile_data4_spec(bg.tile_b, tile_n, px, py))
    }
}

/// Painting steps of a text background line: pixel `i` goes to screen
/// column `i - hscroll`, wrapping around the width.
pub open spec fn text_steps(bg: Background, m: Memory, vcount: u16) -> spec_fn(int) -> (u32, u16) {
    |k: int| ((k as u32).wrapping_sub(bg.hscroll as u32) % bg.width, text_color(bg, m, vcount, k as u32))
}

/// Whether `a` lies outside 0 to `max` - 1.
pub open spec fn out_of_bound_spec(a: i32, max: u32) -> bool {
    a < 0 || a >= max as i32
}

/// `a` brought back into range by wrapping around `max`: the remainder
/// for non-negative `a`; for negative `a`, `max` plus the remainder of the
/// division truncated toward zero (so a multiple of `max` gives `max`).
pub open spec fn wrap_around_spec(a: i32, max: u32) -> i32 {
    if a < 0 {
        (max - (-a) % (max as int)) as i32
    } else {
        (a as int % (max as int)) as i32
    }
}

/// Whether `a` lies outside 0 to `max` - 1.
pub fn out_of_bound(a: i32, max: u32) -> (r: bool)
    ensures
        r == out_of_bound_spec(a, max),
{
    a < 0 || a >= #[verifier::truncate] (max as i32)
}

/// `a` wrapped around `max`.
pub fn wrap_around(a: i32, max: u32) -> (r: i32)
    requires
        0 < max <= 0x7fff_ffff,
    ensures
        r == wrap_around_spec(a, max),
        0 <= r <= max,
{
    if a < 0 {
        let n = ((-(a as i64)) as u64 % (max as u64)) as u32;
        (max - n) as i32
    } else {
        (a as u32 % max) as i32
    }
}

/// Texture coordinate, on the current line, of pixel `i` of an affine
/// background: (parameter * i + reference) / 256, in wrapping arithmetic.
pub open spec fn affine_coord(p: i32, i: u32, reference: i32) -> i32 {
    p.wrapping_mul(i as i32).wrapping_add(reference) >> 8i32
}

/// Texture coordinate after the out of bound handling: wrapped when the
/// background wraps, else none.
pub open spec fn affine_fit(a: i32, max: u32, wrap: bool) -> Option<i32> {
    if !out_of_bound_spec(a, max) {
        Some(a)
    } else if wrap {
        Some(wrap_around_spec(a, max))
    } else {
        None
    }
}

/// Texture coordinates of pixel `i` of an affine background line, or none
/// when they fall outside a background that does not wrap.
pub open spec fn affine_xy(bg: Background, i: u32) -> Option<(u32, u32)> {
    let tx = affine_fit(affine_coord(bg.matrix.0, i, bg.internal.0), bg.width, bg.wrap_f);
    let ty = affine_fit(affine_coord(bg.matrix.2, i, bg.internal.1), bg.height, bg.wrap_f);
    if tx is Some && ty is Some {
        Some((tx->0 as u32, ty->0 as u32))
    } else {
        None
    }
}

/// Color of texture point (`x`, `y`) of an affine background: 8-bit tile
/// data, palette 0.
pub open spec fn affine_color(bg: Background, m: Memory, x: u32, y: u32) -> u16 {
    let tile_n = m.vram@[bg.map_b * 0x800 + (y / 8) * affine_map_width(bg.size_r) + x / 8] as u32;
    m.bg_color(0, m.tile_data8_spec(bg.tile_b, tile_n, x % 8, y % 8))
}

/// Painting steps of an affine background line: pixel `i` goes to
/// column `i`; a pixel outside a background that does not wrap is
/// transparent.
pub open spec fn affine_steps(bg: Background, m: Memory) -> spec_fn(int) -> (u32, u16) {
    |k: int|
        (
            k as u32,
            match affine_xy(bg, k as u32) {
                Some(t) => affine_color(bg, m, t.0, t.1),
                None => TRANSPARENT,
            },
        )
}

/// Line buffer of an affine background after a line: entries of pixels
/// outside a background that does not wrap are cleared to transparent.
pub open spec fn affine_buffer(bg: Background) -> Seq<u16> {
    Seq::new(
        bg.pixel@.len(),
        |k: int|
            if k < bg.width && affine_xy(bg, k as u32) is None {
                TRANSPARENT
            } else {
                bg.pixel@[k]
            },
    )
}

/// Painting steps of a bitmap line: column `x` takes `f(x)`.
pub open spec fn bitmap_steps(f: spec_fn(u32) -> u16) -> spec_fn(int) -> (u32, u16) {
    |k: int| (k as u32, f(k as u32))
}

/// `a` and `b` agree on every field of a background but the line buffer
/// and the affine reference point of the line.
pub open spec fn same_registers(a: Background, b: Background) -> bool {
    &&& a.index == b.index
    &&& a.bgcnt == b.bgcnt
    &&& a.priority == b.priority
    &&& a.tile_b == b.tile_b
    &&& a.map_b == b.map_b
    &&& a.affine_f == b.affine_f
    &&& a.mosaic_f == b.mosaic_f
    &&& a.palette_f == b.palette_f
    &&& a.wrap_f == b.wrap_f
    &&& a.size_r == b.size_r
    &&& a.width == b.width
    &&& a.height == b.height
    &&& a.hscroll == b.hscroll
    &&& a.vscroll == b.vscroll
    &&& a.matrix == b.matrix
    &&& a.coord == b.coord
}

/// The affine background as it draws line `vcount`: line 0 starts again
/// from the reference point.
pub open spec fn affine_start(bg: Background, vcount: u16) -> Background {
    if vcount == 0 {
        Background { internal: bg.coord, ..bg }
    } else {
        bg
    }
}

/// `n` is `o` with layer `k` replaced by a layer with pixels `p`.
pub open spec fn layer_painted(n: PPU, o: PPU, k: int, p: Seq<u16>) -> bool {
    &&& n.layer.len() == 5
    &&& forall|j: int| 0 <= j < 5 && j != k ==> n.layer[j] == o.layer[j]
    &&& n.layer[k].wf()
    &&& n.layer[k].pixel@ == p
}

impl PPU {
    /// Draw the current line of text background `index` on the layer of
    /// its priority.
    pub fn draw_text_background(&mut self, index: usize, memory: &Memory)
        requires
            old(self).wf(),
            memory.wf(),
            index < 4,
            old(self).background[index as int].width > 0,
        ensures
            final(self).wf(),
            others_unchanged(*final(self), *old(self)),
            final(self).background == old(self).background,
            layer_painted(
                *final(self),
                *old(self),
                old(self).background[index as int].priority as int,
                paint_all(
                    old(self).layer[old(self).background[index as int].priority as int].pixel@,
                    text_steps(old(self).background[index as int], *memory, old(self).vcount),
                    old(self).window.cnt@,
                    index as u32,
                    old(self).background[index as int].width as nat,
                ),
            ),
    {
        let ghost bg = self.background[index as int];
        let width = self.background[index].width;
        let height = self.background[index].height;
        let hscroll = self.background[index].hscroll;
        let vscroll = self.background[index].vscroll;
        let map_b = self.background[index].map_b;
        let size_r = self.background[index].size_r;
        let tile_b = self.background[index].tile_b;
        let palette_f = self.background[index].palette_f;
        let p = self.background[index].priority as usize;
        let line_n = (self.vcount.wrapping_add(vscroll) as u32) % height;
        let ghost f = text_steps(bg, *memory, self.vcount);
        let ghost old_self = *self;
        let ghost p0 = self.layer[p as int].pixel@;
        let mut i: u32 = 0;
        while i < width
            invariant
                self.wf(),
                memory.wf(),
                others_unchanged(*self, old_self),
                self.background == old_self.background,
                index < 4,
                bg == self.background[index as int],
                width == bg.width && height == bg.height && hscroll == bg.hscroll && vscroll == bg.vscroll,
                map_b == bg.map_b && size_r == bg.size_r && tile_b == bg.tile_b && palette_f == bg.palette_f,
                p == bg.priority,
                width > 0 && height > 0 && width <= 1024 && height <= 1024,
                line_n == text_line_n(bg, self.vcount),
                f == text_steps(bg, *memory, self.vcount),
                i <= width,
                layer_painted(*self, old_self, p as int, paint_all(p0, f, self.window.cnt@, index as u32, i as nat)),
            decreases width - i,
        {
            let tile_x = i / 8;
            let tile_y = line_n / 8;
            let entry = memory.text_tile_map(map_b, size_r, tile_x, tile_y);
            let tile_n = entry.bits(9, 0);
            let mut pixel_x = i % 8;
            let mut pixel_y = line_n % 8;
            if entry.bit(10) {
                pixel_x = 7 - pixel_x;
            }
            if entry.bit(11) {
                pixel_y = 7 - pixel_y;
            }
            let palette_n = entry.bits(15, 12);
            let in_vram = if palette_f {
                tile_b * 0x4000 + tile_n * 64 + pixel_y * 8 + pixel_x < 0x1_8000
            } else {
                tile_b * 0x4000 + tile_n * 32 + pixel_y * 4 + pixel_x / 2 < 0x1_8000
            };
            let color = if in_vram {
                let palette_entry = memory.tile_data(palette_f, tile_b, tile_n, pixel_x, pixel_y);
                proof {
                    crate::memory::palette::lemma_palette_slot(palette_n, palette_entry);
                }
                memory.bg_palette(palette_n, palette_entry)
            } else {
                TRANSPARENT
            };
            let x = i.wrapping_sub(hscroll as u32) % width;
            self.layer[p].paint(x, color, &self.window, index as u32);
            i = i + 1;
        }
    }

    /// Draw the current line of affine background `index` on the layer of
    /// its priority, then move its reference point to the next line. A
    /// background with no size draws nothing; its reference point moves
    /// all the same.
    pub fn draw_affine_background(&mut self, index: usize, memory: &Memory)
        requires
            old(self).wf(),
            memory.wf(),
            index < 4,
        ensures
            final(self).wf(),
            others_unchanged(*final(self), *old(self)),
            ({
                let bg = affine_start(old(self).background[index as int], old(self).vcount);
                &&& final(self).background.len() == 4
                &&& forall|j: int| 0 <= j < 4 && j != index ==> final(self).background[j] == old(self).background[j]
                &&& same_registers(final(self).background[index as int], bg)
                &&& final(self).background[index as int].pixel@ == affine_buffer(bg)
                &&& final(self).background[index as int].internal == (
                    bg.internal.0.wrapping_add(bg.matrix.1),
                    bg.internal.1.wrapping_add(bg.matrix.3),
                )
                &&& layer_painted(
                    *final(self),
                    *old(self),
                    bg.priority as int,
                    paint_all(
                        old(self).layer[bg.priority as int].pixel@,
                        affine_steps(bg, *memory),
                        old(self).window.cnt@,
                        index as u32,
                        bg.width as nat,
                    ),
                )
            }),
    {
        if self.vcount == 0 {
            self.background[index].internal = self.background[index].coord;
        }
        let ghost bg = self.background[index as int];
        let width = self.background[index].width;
        let height = self.background[index].height;
        let wrap = self.background[index].wrap_f;
        let map_b = self.background[index].map_b;
        let size_r = self.background[index].size_r;
        let tile_b = self.background[index].tile_b;
        let matrix = self.background[index].matrix;
        let internal = self.background[index].internal;
        let p = self.background[index].priority as usize;
        let ghost f = affine_steps(bg, *memory);
        let ghost mid = *self;
        let ghost p0 = self.layer[p as int].pixel@;
        let mut i: u32 = 0;
        while i < width
            invariant
                self.wf(),
                memory.wf(),
                others_unchanged(*self, mid),
                index < 4,
                self.background.len() == 4,
                forall|j: int| 0 <= j < 4 && j != index ==> self.background[j] == old(self).background[j],
                same_registers(self.background[index as int], bg),
                self.background[index as int].internal == bg.internal,
                self.background[index as int].pixel@.len() == 1024,
                forall|k: int|
                    0 <= k < 1024 ==> self.background[index as int].pixel@[k] == (if k < i && affine_xy(bg, k as u32) is None {
                        TRANSPARENT
                    } else {
                        bg.pixel@[k]
                    }),
                bg.wf(),
                bg.index == index,
                width == bg.width && height == bg.height && wrap == bg.wrap_f && map_b == bg.map_b,
                size_r == bg.size_r && tile_b == bg.tile_b && matrix == bg.matrix && internal == bg.internal,
                p == bg.priority,
                (width > 0 ==> height > 0) && width <= 1024 && height <= 1024,
                f == affine_steps(bg, *memory),
                i <= width,
                layer_painted(*self, mid, p as int, paint_all(p0, f, self.window.cnt@, index as u32, i as nat)),
            decreases width - i,
        {
            let ghost before = self.background[index as int].pixel@;
            assert((bg.width, bg.height) == dimension_spec(bg.affine_f, bg.size_r));
            let mut text_x = matrix.0.wrapping_mul(i as i32).wrapping_add(internal.0) >> 8i32;
            let mut text_y = matrix.2.wrapping_mul(i as i32).wrapping_add(internal.1) >> 8i32;
            let mut inside = true;
            if out_of_bound(text_x, width) {
                if wrap {
                    text_x = wrap_around(text_x, width);
                } else {
                    inside = false;
                }
            }
            if inside && out_of_bound(text_y, height) {
                if wrap {
                    text_y = wrap_around(text_y, height);
                } else {
                    inside = false;
                }
            }
            if !inside {
                self.background[index].pixel.set(i as usize, TRANSPARENT);
                self.layer[p].paint(i, TRANSPARENT, &self.window, index as u32);
            } else {
                let tile_x = text_x as u32 / 8;
                let tile_y = text_y as u32 / 8;
                let pixel_x = text_x as u32 % 8;
                let pixel_y = text_y as u32 % 8;
                let tile_n = memory.affine_tile_map(map_b, size_r, tile_x, tile_y) as u32;
                let palette_entry = memory.tile_data8(tile_b, tile_n, pixel_x, pixel_y);
                proof {
                    crate::memory::palette::lemma_palette_slot(0, palette_entry);
                }
                let color = memory.bg_palette(0, palette_entry);
                self.layer[p].paint(i, color, &self.window, index as u32);
            }
            i = i + 1;
        }
        let n0 = internal.0.wrapping_add(matrix.1);
        let n1 = internal.1.wrapping_add(matrix.3);
        self.background[index].internal = (n0, n1);
    }

    /// Draw the current line of bitmap mode 3 (one page of 240 x 160 RGB15
    /// pixels) on layer 0; the lines past the page read on into VRAM, up to
    /// line 203, the last one inside it.
    pub fn draw_bitmap_3(&mut self, memory: &Memory)
        requires
            old(self).wf(),
            memory.wf(),
            old(self).vcount <= 203,
        ensures
            final(self).wf(),
            others_unchanged(*final(self), *old(self)),
            final(self).background == old(self).background,
            layer_painted(
                *final(self),
                *old(self),
                0,
                paint_all(
                    old(self).layer[0].pixel@,
                    bitmap_steps(|x: u32| le16(memory.vram@, (old(self).vcount * 240 + x) * 2)),
                    old(self).window.cnt@,
                    2,
                    240,
                ),
            ),
    {
        let line_n = self.vcount as u32;
        let ghost f = bitmap_steps(|x: u32| le16(memory.vram@, (line_n * 240 + x) * 2));
        let ghost old_self = *self;
        let ghost p0 = self.layer[0].pixel@;
        let mut x: u32 = 0;
        while x < 240
            invariant
                self.wf(),
                memory.wf(),
                others_unchanged(*self, old_self),
                self.background == old_self.background,
                line_n <= 203,
                x <= 240,
                f == bitmap_steps(|x: u32| le16(memory.vram@, (line_n * 240 + x) * 2)),
                layer_painted(*self, old_self, 0, paint_all(p0, f, self.window.cnt@, 2, x as nat)),
            decreases 240 - x,
        {
            let pixel = memory.vram16((line_n * 240 + x) * 2);
            self.layer[0].paint(x, pixel, &self.window, 2);
            x = x + 1;
        }
    }

    /// Draw the current line of bitmap mode 4 (two pages of 240 x 160
    /// palette indices) on layer 0.
    pub fn draw_bitmap_4(&mut self, memory: &Memory)
        requires
            old(self).wf(),
            memory.wf(),
        ensures
            final(self).wf(),
            others_unchanged(*final(self), *old(self)),
            final(self).background == old(self).background,
            layer_painted(
                *final(self),
                *old(self),
                0,
                paint_all(
                    old(self).layer[0].pixel@,
                    bitmap_steps(
                        |x: u32|
                            memory.bg_color(
                                0,
                                memory.vram@[(if old(self).flip { 0xa000int } else { 0 }) + old(self).vcount * 240
                                    + x] as u32,
                            ),
                    ),
                    old(self).window.cnt@,
                    2,
                    240,
                ),
            ),
    {
        let start: u32 = if self.flip {
            0xa000
        } else {
            0
        };
        let line_n = self.vcount as u32;
        let ghost f = bitmap_steps(
            |x: u32|
                memory.bg_color(
                    0,
                    memory.vram@[(if self.flip { 0xa000int } else { 0 }) + self.vcount * 240 + x] as u32,
                ),
        );
        let ghost old_self = *self;
        let ghost p0 = self.layer[0].pixel@;
        let mut x: u32 = 0;
        while x < 240
            invariant
                self.wf(),
                memory.wf(),
                others_unchanged(*self, old_self),
                self.background == old_self.background,
                line_n == self.vcount,
                line_n <= 227,
                start == (if self.flip { 0xa000int } else { 0 }),
                x <= 240,
                f == bitmap_steps(
                    |x: u32|
                        memory.bg_color(
                            0,
                            memory.vram@[(if self.flip { 0xa000int } else { 0 }) + self.vcount * 240 + x] as u32,
                        ),
                ),
                layer_painted(*self, old_self, 0, paint_all(p0, f, self.window.cnt@, 2, x as nat)),
            decreases 240 - x,
        {
            let palette_entry = memory.vram8(start + line_n * 240 + x);
            proof {
                crate::memory::palette::lemma_palette_slot(0, palette_entry as u32);
            }
            let color = memory.bg_palette(0, palette_entry as u32);
            self.layer[0].paint(x, color, &self.window, 2);
            x = x + 1;
        }
    }

    /// Draw the current line of bitmap mode 5 (two pages of 160 x 128 RGB15
    /// pixels) on layer 0; lines from 128 on are empty.
    pub fn draw_bitmap_5(&mut self, memory: &Memory)
        requires
            old(self).wf(),
            memory.wf(),
        ensures
            final(self).wf(),
            others_unchanged(*final(self), *old(self)),
            final(self).background == old(self).background,
            old(self).vcount > 127 ==> final(self).layer == old(self).layer,
            old(self).vcount <= 127 ==> layer_painted(
                *final(self),
                *old(self),
                0,
                paint_all(
                    old(self).layer[0].pixel@,
                    bitmap_steps(
                        |x: u32|
                            le16(
                                memory.vram@,
                                (if old(self).flip { 0xa000int } else { 0 }) + (old(self).vcount * 160 + x) * 2,
                            ),
                    ),
                    old(self).window.cnt@,
                    2,
                    160,
                ),
            ),
    {
        let start: u32 = if self.flip {
            0xa000
        } else {
            0
        };
        let line_n = self.vcount as u32;
        if line_n > 127 {
            return ;
        }
        let ghost f = bitmap_steps(
            |x: u32|
                le16(memory.vram@, (if self.flip { 0xa000int } else { 0 }) + (self.vcount * 160 + x) * 2),
        );
        let ghost old_self = *self;
        let ghost p0 = self.layer[0].pixel@;
        let mut x: u32 = 0;
        while x < 160
            invariant
                self.wf(),
                memory.wf(),
                others_unchanged(*self, old_self),
                self.background == old_self.background,
                line_n == self.vcount,
                line_n <= 127,
                start == (if self.flip { 0xa000int } else { 0 }),
                x <= 160,
                f == bitmap_steps(
                    |x: u32|
                        le16(memory.vram@, (if self.flip { 0xa000int } else { 0 }) + (self.vcount * 160 + x) * 2),
                ),
                layer_painted(*self, old_self, 0, paint_all(p0, f, self.window.cnt@, 2, x as nat)),
            decreases 160 - x,
        {
            let pixel = memory.vram16(start + (line_n * 160 + x) * 2);
            self.layer[0].paint(x, pixel, &self.window, 2);
            x = x + 1;
        }
    }
}

/// Color of pixel (`px`, `py`) of the tile of map entry `entry`: the
/// palette color (palette from bits 15 - 12) of the tile (bits 9 - 0),
/// transparent where the tile data lies past the end of VRAM.
pub open spec fn tile_pixel_color(bg: Background, m: Memory, entry: u32, px: u32, py: u32) -> u16 {
    let tile_n = bits_spec(entry, 9, 0);
    let palette = bits_spec(entry, 15, 12);
    if bg.palette_f {
        if tile8_addr(bg.tile_b, tile_n, px, py) < 0x1_8000 {
            m.bg_color(palette, m.vram@[tile8_addr(bg.tile_b, tile_n, px, py)] as u32)
        } else {
            TRANSPARENT
        }
    } else {
        if tile4_addr(bg.tile_b, tile_n, px, py) < 0x1_8000 {
            let b = m.vram@[tile4_addr(bg.tile_b, tile_n, px, py)] as u32;
            m.bg_color(palette, if px % 2 == 1 { b / 16 } else { b % 16 })
        } else {
            TRANSPARENT
        }
    }
}

/// A text background shows each tile as its map entry says: pixel `i` of
/// the line is column `i % 8` of its tile and the line is row `line % 8`,
/// mirrored to column `7 - i % 8` when the entry has bit 10 (horizontal
/// flip) set, and to row `7 - line % 8` with bit 11 (vertical flip).
pub proof fn lemma_text_flips(bg: Background, m: Memory, vcount: u16, i: u32)
    ensures
        ({
            let e = text_entry(bg, m, vcount, i);
            let x = i % 8;
            let y = text_line_n(bg, vcount) % 8;
            text_color(bg, m, vcount, i) == tile_pixel_color(
                bg,
                m,
                e,
                if bit_spec(e, 10) { (7 - x) as u32 } else { x },
                if bit_spec(e, 11) { (7 - y) as u32 } else { y },
            )
        }),
{
}

/// With the horizontal flip bit, a text background pixel shows the tile
/// column mirrored from the one it shows without: pixels `i` and `j` of
/// one tile whose columns add up to 7 show each other's tile column.
pub proof fn lemma_text_hflip_mirror(bg: Background, m: Memory, vcount: u16, i: u32, j: u32)
    requires
        i / 8 == j / 8,
        i % 8 + j % 8 == 7,
        bit_spec(text_entry(bg, m, vcount, i), 10),
    ensures
        ({
            let e = text_entry(bg, m, vcount, i);
            let y = text_line_n(bg, vcount) % 8;
            let py = if bit_spec(e, 11) { (7 - y) as u32 } else { y };
            &&& text_entry(bg, m, vcount, j) == e
            &&& text_color(bg, m, vcount, i) == tile_pixel_color(bg, m, e, j % 8, py)
            &&& text_color(bg, m, vcount, j) == tile_pixel_color(bg, m, e, i % 8, py)
        }),
{
    lemma_text_flips(bg, m, vcount, i);
    lemma_text_flips(bg, m, vcount, j);
}

} // verus!
