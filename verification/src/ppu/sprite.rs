//! Sprites (objects): text sprites and affine (rotated or scaled) sprites.
use vstd::prelude::*;
use crate::util::{sign_extend, sign_extend_spec};
use crate::memory::Memory;
use crate::memory::vram::tile4_addr;
use crate::memory::vram::tile8_addr;
use crate::ppu::TRANSPARENT;
use crate::ppu::layer::{Layer, paint_all, lemma_paint_all_len};
use crate::ppu::window::Window;

verus! {

/// Width and height in pixels of a sprite of shape `shape` (square,
/// horizontal, vertical) and size `size`; none for the prohibited shape 3.
pub open spec fn sprite_dimension_spec(shape: u32, size: u32) -> (u32, u32) {
    if shape == 0 {
        if size == 0 {
            (8, 8)
        } else if size == 1 {
            (16, 16)
        } else if size == 2 {
            (32, 32)
        } else {
            (64, 64)
        }
    } else if shape == 1 {
        if size == 0 {
            (16, 8)
        } else if size == 1 {
            (32, 8)
        } else if size == 2 {
            (32, 16)
        } else {
            (64, 32)
        }
    } else if shape == 2 {
        if size == 0 {
            (8, 16)
        } else if size == 1 {
            (8, 32)
        } else if size == 2 {
            (16, 32)
        } else {
            (32, 64)
        }
    } else {
        (0, 0)
    }
}

/// Width and height in pixels of a sprite.
pub fn sprite_dimension(shape: u32, size: u32) -> (r: (u32, u32))
    ensures
        r == sprite_dimension_spec(shape, size),
{
    match (shape, size) {
        (0, 0) => (8, 8),
        (0, 1) => (16, 16),
        (0, 2) => (32, 32),
        (0, _) => (64, 64),
        (1, 0) => (16, 8),
        (1, 1) => (32, 8),
        (1, 2) => (32, 16),
        (1, _) => (64, 32),
        (2, 0) => (8, 16),
        (2, 1) => (8, 32),
        (2, 2) => (16, 32),
        (2, _) => (32, 64),
        _ => (0, 0),
    }
}

/// A sprite, from its three attribute halfwords.
pub struct Sprite {
    /// Index of the sprite, 0 - 127.
    pub index: usize,
    /// Raw attributes 0 - 2.
    pub attr: [u16; 3],
    /// X coordinate (9 bits), top left for text sprites.
    pub xcoord: u32,
    /// Y coordinate (8 bits), top left.
    pub ycoord: u32,
    /// Width in pixels.
    pub width: u32,
    /// Height in pixels.
    pub height: u32,
    /// 0 normal, 1 semi-transparent, 2 window.
    pub mode: u32,
    /// Rotation / scaling.
    pub affine_f: bool,
    /// Double size (affine), or disabled (text).
    pub double_f: bool,
    pub mosaic_f: bool,
    /// Palette type: 256 colors when set, 16 palettes of 16 otherwise.
    pub palette_f: bool,
    pub hflip: bool,
    pub vflip: bool,
    /// Shape (attribute 0 bits 15 - 14).
    pub shape: u32,
    /// Size (attribute 1 bits 15 - 14).
    pub size: u32,
    /// Rotation / scaling parameter group.
    pub affine_i: u32,
    /// First tile.
    pub tile_n: u32,
    pub priority: u32,
    /// Palette of a 16 color sprite.
    pub palette_n: u32,
    /// Transform matrix for rotation and scaling.
    pub matrix: (i32, i32, i32, i32),
}

impl Sprite {
    /// Fields within their attribute bit widths; size from shape and size.
    pub open spec fn wf(&self) -> bool {
        &&& self.index < 128
        &&& self.xcoord < 512
        &&& self.ycoord < 256
        &&& self.mode < 4
        &&& self.shape < 4
        &&& self.size < 4
        &&& self.affine_i < 32
        &&& self.tile_n < 1024
        &&& self.priority < 4
        &&& self.palette_n < 16
        &&& (self.width, self.height) == sprite_dimension_spec(self.shape, self.size) || (self.width
            == 0 && self.height == 0)
    }

    /// Sprite 0 with every attribute clear and no size.
    pub fn new() -> (s: Self)
        ensures
            s.wf(),
            s.index == 0 && s.attr@ == seq![0u16, 0u16, 0u16],
            s.xcoord == 0 && s.ycoord == 0 && s.width == 0 && s.height == 0 && s.mode == 0,
            !s.affine_f && !s.double_f && !s.mosaic_f && !s.palette_f && !s.hflip && !s.vflip,
            s.shape == 0 && s.size == 0 && s.affine_i == 0 && s.tile_n == 0,
            s.priority == 0 && s.palette_n == 0 && s.matrix == (0i32, 0i32, 0i32, 0i32),
    {
        let s = Sprite {
            index: 0,
            attr: [0u16; 3],
            xcoord: 0,
            ycoord: 0,
            width: 0,
            height: 0,
            mode: 0,
            affine_f: false,
            double_f: false,
            mosaic_f: false,
            palette_f: false,
            hflip: false,
            vflip: false,
            shape: 0,
            size: 0,
            affine_i: 0,
            tile_n: 0,
            priority: 0,
            palette_n: 0,
            matrix: (0, 0, 0, 0),
        };
        s
    }

    /// A text sprite with the double size flag is disabled.
    pub open spec fn disabled_spec(&self) -> bool {
        !self.affine_f && self.double_f
    }

    /// Whether line `vcount` crosses the sprite (its coordinates read as
    /// signed 9-bit and 8-bit numbers; its size doubled by the double flag)
    /// and the sprite starts left of the screen's right edge.
    pub open spec fn visible_spec(&self, vcount: u32) -> bool {
        let x = sign_extend_spec(self.xcoord, 8);
        let y = sign_extend_spec(self.ycoord, 7);
        let w = if self.double_f { 2 * self.width } else { self.width as int };
        let h = if self.double_f { 2 * self.height } else { self.height as int };
        x < 240 && x + w >= 0 && y <= vcount as i32 && y + h > vcount as i32
    }

    /// Whether the sprite is disabled.
    pub fn disabled(&self) -> (r: bool)
        ensures
            r == self.disabled_spec(),
    {
        !self.affine_f && self.double_f
    }

    /// Whether line `vcount` crosses the sprite.
    pub fn visible(&self, vcount: u32) -> (r: bool)
        requires
            self.wf(),
        ensures
            r == self.visible_spec(vcount),
    {
        let x = sign_extend(self.xcoord, 8);
        let y = sign_extend(self.ycoord, 7);
        let mut w = self.width as i32;
        let mut h = self.height as i32;
        if self.double_f {
            w = w * 2;
            h = h * 2;
        }
        let xc = self.xcoord;
        let yc = self.ycoord;
        assert(-256 <= x < 256 && -128 <= y < 128) by (bit_vector)
            requires
                x == sign_extend_spec(xc, 8),
                y == sign_extend_spec(yc, 7),
                xc < 512,
                yc < 256,
        ;
        x < 240 && x + w >= 0 && y <= #[verifier::truncate] (vcount as i32) && y + h
            > #[verifier::truncate] (vcount as i32)
    }

    /// Tile coordinate (`tile_x`, `tile_y`) and pixel coordinate in that
    /// tile of pixel `i` of line `vcount` of a text sprite, after the
    /// flips; lines wrap around at 256.
    pub open spec fn text_xy(&self, vcount: u32, i: u32) -> (u32, u32, u32, u32) {
        let y = vcount.wrapping_sub(self.ycoord) % 256;
        let tile_y = if self.vflip { (self.height / 8).wrapping_sub(y / 8).wrapping_sub(1) } else { y / 8 };
        let pixel_y = if self.vflip { (7 - y % 8) as u32 } else { y % 8 };
        let tile_x = if self.hflip { (self.width / 8 - i / 8 - 1) as u32 } else { i / 8 };
        let pixel_x = if self.hflip { (7 - i % 8) as u32 } else { i % 8 };
        (tile_x, tile_y, pixel_x, pixel_y)
    }

    /// Tiles per row of the sprite's tile data: the sprite's width in one
    /// dimensional layout, 8 otherwise.
    pub open spec fn row_tiles(&self, sequential: bool) -> u32 {
        if sequential {
            self.width / 8
        } else {
            8
        }
    }

    /// Color of a pixel of tile `tile_n` of the sprite tile data (block 4):
    /// transparent for color 0, and where the tile data would lie past the
    /// end of VRAM.
    pub open spec fn tile_color(&self, m: Memory, tile_n: u32, px: u32, py: u32) -> u16 {
        if self.palette_f {
            if tile8_addr(4, tile_n, px, py) < 0x1_8000 {
                m.obj_color(self.palette_n, m.tile_data8_spec(4, tile_n, px, py))
            } else {
                TRANSPARENT
            }
        } else {
            if tile4_addr(4, tile_n, px, py) < 0x1_8000 {
                m.obj_color(self.palette_n, m.tile_data4_spec(4, tile_n, px, py))
            } else {
                TRANSPARENT
            }
        }
    }

    /// Painting steps of line `vcount` of a text sprite: pixel `i` goes to
    /// column `xcoord + i`, wrapping around at 512.
    pub open spec fn text_steps(&self, m: Memory, vcount: u32, sequential: bool) -> spec_fn(int) -> (u32, u16) {
        |k: int|
            {
                let t = self.text_xy(vcount, k as u32);
                let tile_n = self.tile_n.wrapping_add(t.1.wrapping_mul(self.row_tiles(sequential))).wrapping_add(
                    t.0,
                );
                (((self.xcoord + k as u32) % 512) as u32, self.tile_color(m, tile_n, t.2, t.3))
            }
    }

    /// Half width, half height of the viewport and center of an affine
    /// sprite (the double flag doubles the viewport, not the sprite).
    pub open spec fn affine_frame(&self) -> (int, int, int, int) {
        let hw = self.width as int / 2;
        let hh = self.height as int / 2;
        let xc = self.xcoord + hw + if self.double_f { hw } else { 0 };
        let yc = self.ycoord + hh + if self.double_f { hh } else { 0 };
        (if self.double_f { 2 * hw } else { hw }, if self.double_f { 2 * hh } else { hh }, xc % 512, yc
            % 256)
    }

    /// Painting steps of line `vcount` of an affine sprite: step `k` is the
    /// screen offset `x = k - half width` from the center; the matrix maps
    /// (`x`, line - center) to a texture offset from the texture's center.
    pub open spec fn affine_steps(&self, m: Memory, vcount: u32, sequential: bool) -> spec_fn(int) -> (u32, u16) {
        |k: int|
            {
                let f = self.affine_frame();
                let x = (k - f.0) as i32;
                let y = (vcount as i32).wrapping_sub(f.3 as i32);
                let tx = (self.matrix.0.wrapping_mul(x).wrapping_add(self.matrix.1.wrapping_mul(y)) >> 8i32)
                    + self.width as int / 2;
                let ty = (self.matrix.2.wrapping_mul(x).wrapping_add(self.matrix.3.wrapping_mul(y)) >> 8i32)
                    + self.height as int / 2;
                let col = ((f.2 + x) as i32) as u32;
                if tx < 0 || tx >= self.width || ty < 0 || ty >= self.height {
                    (col, TRANSPARENT)
                } else {
                    let tile_n = self.tile_n.wrapping_add(
                        ((ty / 8) as u32).wrapping_mul(self.row_tiles(sequential)),
                    ).wrapping_add((tx / 8) as u32);
                    (col, self.tile_color(m, tile_n, (tx % 8) as u32, (ty % 8) as u32))
                }
            }
    }

    /// Painted line after drawing the sprite on line `vcount`: nothing when
    /// it is disabled or off the line, else the affine or text steps.
    pub open spec fn drawn(&self, p: Seq<u16>, m: Memory, vcount: u32, sequential: bool, cnt: Seq<u8>) -> Seq<u16> {
        if self.disabled_spec() || !self.visible_spec(vcount) {
            p
        } else if self.affine_f {
            paint_all(p, self.affine_steps(m, vcount, sequential), cnt, 4, (2 * self.affine_frame().0) as nat)
        } else {
            paint_all(p, self.text_steps(m, vcount, sequential), cnt, 4, self.width as nat)
        }
    }

    /// Color of a pixel of tile `tile_n` of the sprite tile data.
    fn tile_color_exec(&self, memory: &Memory, tile_n: u32, px: u32, py: u32) -> (r: u16)
        requires
            memory.wf(),
            self.wf(),
            px < 8,
            py < 8,
        ensures
            r == self.tile_color(*memory, tile_n, px, py),
    {
        if self.palette_f {
            if tile_n < 0x200 && 4 * 0x4000 + tile_n * 64 + py * 8 + px < 0x1_8000 {
                let e = memory.tile_data8(4, tile_n, px, py);
                proof {
                    crate::memory::palette::lemma_palette_slot(self.palette_n, e);
                }
                memory.obj_palette(self.palette_n, e)
            } else {
                TRANSPARENT
            }
        } else {
            if tile_n < 0x400 && 4 * 0x4000 + tile_n * 32 + py * 4 + px / 2 < 0x1_8000 {
                let e = memory.tile_data4(4, tile_n, px, py);
                proof {
                    crate::memory::palette::lemma_palette_slot(self.palette_n, e);
                }
                memory.obj_palette(self.palette_n, e)
            } else {
                TRANSPARENT
            }
        }
    }

    /// Draw line `vcount` of the sprite on `layer`, through the window mask
    /// for sprites (layer 4 of the mask).
    pub fn draw(&self, vcount: u32, sequential: bool, layer: &mut Layer, window: &Window, memory: &Memory)
        requires
            self.wf(),
            old(layer).wf(),
            window.wf(),
            memory.wf(),
        ensures
            final(layer).wf(),
            final(layer).pixel@ == self.drawn(old(layer).pixel@, *memory, vcount, sequential, window.cnt@),
    {
        if !self.disabled() && self.visible(vcount) {
            if self.affine_f {
                self.draw_affine(vcount, sequential, layer, window, memory)
            } else {
                self.draw_text(vcount, sequential, layer, window, memory)
            }
        }
    }

    /// Draw line `vcount` of a text sprite.
    pub fn draw_text(&self, vcount: u32, sequential: bool, layer: &mut Layer, window: &Window, memory: &Memory)
        requires
            self.wf(),
            old(layer).wf(),
            window.wf(),
            memory.wf(),
        ensures
            final(layer).wf(),
            final(layer).pixel@ == paint_all(
                old(layer).pixel@,
                self.text_steps(*memory, vcount, sequential),
                window.cnt@,
                4,
                self.width as nat,
            ),
    {
        let y = vcount.wrapping_sub(self.ycoord) % 256;
        let w = if sequential {
            self.width / 8
        } else {
            8
        };
        let mut tile_y = y / 8;
        let mut pixel_y = y % 8;
        if self.vflip {
            tile_y = (self.height / 8).wrapping_sub(tile_y).wrapping_sub(1);
            pixel_y = 7 - pixel_y;
        }
        let ghost p0 = layer.pixel@;
        let ghost f = self.text_steps(*memory, vcount, sequential);
        let mut i: u32 = 0;
        while i < self.width
            invariant
                self.wf(),
                layer.wf(),
                window.wf(),
                memory.wf(),
                i <= self.width,
                w == self.row_tiles(sequential),
                tile_y == self.text_xy(vcount, 0).1,
                pixel_y == self.text_xy(vcount, 0).3,
                pixel_y < 8,
                f == self.text_steps(*memory, vcount, sequential),
                layer.pixel@ == paint_all(p0, f, window.cnt@, 4, i as nat),
            decreases self.width - i,
        {
            let mut tile_x = i / 8;
            let mut pixel_x = i % 8;
            if self.hflip {
                tile_x = self.width / 8 - tile_x - 1;
                pixel_x = 7 - pixel_x;
            }
            let tile_n = self.tile_n.wrapping_add(tile_y.wrapping_mul(w)).wrapping_add(tile_x);
            let color = self.tile_color_exec(memory, tile_n, pixel_x, pixel_y);
            let x = (self.xcoord + i) % 512;
            layer.paint(x, color, window, 4);
            i = i + 1;
        }
    }

    /// Draw line `vcount` of an affine sprite.
    pub fn draw_affine(&self, vcount: u32, sequential: bool, layer: &mut Layer, window: &Window, memory: &Memory)
        requires
            self.wf(),
            old(layer).wf(),
            window.wf(),
            memory.wf(),
        ensures
            final(layer).wf(),
            final(layer).pixel@ == paint_all(
                old(layer).pixel@,
                self.affine_steps(*memory, vcount, sequential),
                window.cnt@,
                4,
                (2 * self.affine_frame().0) as nat,
            ),
    {
        let mut half_width = self.width as i32 / 2;
        let mut half_height = self.height as i32 / 2;
        let mut xcenter = self.xcoord as i32 + half_width;
        let mut ycenter = self.ycoord as i32 + half_height;
        if self.double_f {
            xcenter = xcenter + half_width;
            ycenter = ycenter + half_height;
            half_width = half_width * 2;
            half_height = half_height * 2;
        }
        xcenter = xcenter % 512;
        ycenter = ycenter % 256;
        let y = (#[verifier::truncate] (vcount as i32)).wrapping_sub(ycenter);
        let w = if sequential {
            self.width / 8
        } else {
            8
        };
        let ghost p0 = layer.pixel@;
        let ghost f = self.affine_steps(*memory, vcount, sequential);
        let width = self.width as i32;
        let height = self.height as i32;
        let mut k: i32 = 0;
        while k < 2 * half_width
            invariant
                self.wf(),
                layer.wf(),
                window.wf(),
                memory.wf(),
                0 <= k <= 2 * half_width,
                (half_width as int, half_height as int, xcenter as int, ycenter as int) == self.affine_frame(),
                y == (vcount as i32).wrapping_sub(ycenter),
                w == self.row_tiles(sequential),
                width == self.width && height == self.height,
                self.width <= 64 && self.height <= 64,
                f == self.affine_steps(*memory, vcount, sequential),
                layer.pixel@ == paint_all(p0, f, window.cnt@, 4, k as nat),
            decreases 2 * half_width - k,
        {
            let x = k - half_width;
            let sx = self.matrix.0.wrapping_mul(x).wrapping_add(self.matrix.1.wrapping_mul(y));
            let sy = self.matrix.2.wrapping_mul(x).wrapping_add(self.matrix.3.wrapping_mul(y));
            proof {
                crate::util::lemma_shift8(sx);
                crate::util::lemma_shift8(sy);
            }
            let text_x = (self.matrix.0.wrapping_mul(x).wrapping_add(self.matrix.1.wrapping_mul(y)) >> 8i32)
                + width / 2;
            let text_y = (self.matrix.2.wrapping_mul(x).wrapping_add(self.matrix.3.wrapping_mul(y)) >> 8i32)
                + height / 2;
            let col = (xcenter + x) as u32;
            if text_x < 0 || text_x >= width || text_y < 0 || text_y >= height {
                layer.paint(col, TRANSPARENT, window, 4);
            } else {
                let tile_x = text_x as u32 / 8;
                let tile_y = text_y as u32 / 8;
                let pixel_x = text_x as u32 % 8;
                let pixel_y = text_y as u32 % 8;
                let tile_n = self.tile_n.wrapping_add(tile_y.wrapping_mul(w)).wrapping_add(tile_x);
                let color = self.tile_color_exec(memory, tile_n, pixel_x, pixel_y);
                layer.paint(col, color, window, 4);
            }
            k = k + 1;
        }
    }
}

} // verus!
