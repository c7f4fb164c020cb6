//! Picture processing: backgrounds, sprites and windows, line by line.
pub mod layer;
pub mod window;
pub mod background;
pub mod sprite;
pub mod color;

use vstd::prelude::*;
use crate::util::{bits_spec, bit_spec, rgb24_spec, BitField, Color};
use crate::memory::{Memory, MemView, le16};
use crate::memory::oam::loaded_from_oam;
use crate::interrupt::{IRQController, Interrupt, requested};
use crate::cpu::CPU;
use layer::{Layer, paint_all};
use window::{Window, winin_spec};
use background::{
    Background,
    text_steps,
    affine_steps,
    affine_start,
    affine_buffer,
    same_registers,
    bitmap_steps,
    layer_painted,
};
use sprite::Sprite;

verus! {

/// Color value of a transparent pixel (bit 15 is unused by RGB15 colors).
pub const TRANSPARENT: u16 = 0x8000;

/// The picture processor: display registers, backgrounds, sprites, the
/// window mask and the layers of the current line, and the frame buffer.
pub struct PPU {
    /// Raw display control register.
    pub dispcnt: u16,
    /// Raw display status register.
    pub dispstat: u16,
    /// Line number of the current scanline.
    pub vcount: u16,
    /// Video mode.
    pub mode: u32,
    /// Page shown in the bitmap modes 4 and 5.
    pub flip: bool,
    /// Sprite tile layout: one dimensional when set, two dimensional otherwise.
    pub sequential: bool,
    /// Forced blank.
    pub fblank: bool,
    /// Affine sprite parameters.
    pub obj_param: Vec<u16>,
    /// Backgrounds 0 - 3.
    pub background: Vec<Background>,
    /// Sprites 0 - 127.
    pub sprite: Vec<Sprite>,
    pub window: Window,
    /// Layers 0 - 3 (by priority), and layer 4 for the backdrop.
    pub layer: Vec<Layer>,
    /// Frame buffer, 240 x 160 RGB24 pixels.
    pub buffer: Vec<u32>,
}

/// `a` and `b` agree on everything but the layers and backgrounds.
pub open spec fn others_unchanged(a: PPU, b: PPU) -> bool {
    &&& a.dispcnt == b.dispcnt
    &&& a.dispstat == b.dispstat
    &&& a.vcount == b.vcount
    &&& a.mode == b.mode
    &&& a.flip == b.flip
    &&& a.sequential == b.sequential
    &&& a.fblank == b.fblank
    &&& a.obj_param == b.obj_param
    &&& a.sprite == b.sprite
    &&& a.window == b.window
    &&& a.buffer == b.buffer
}

impl PPU {
    /// Backgrounds and sprites know their index, every buffer has its size,
    /// the line number is below 228 and the mode below 8.
    pub open spec fn wf(&self) -> bool {
        &&& self.background.len() == 4
        &&& forall|i: int|
            0 <= i < 4 ==> (#[trigger] self.background[i]).wf() && self.background[i].index == i
        &&& self.sprite.len() == 128
        &&& forall|i: int| 0 <= i < 128 ==> (#[trigger] self.sprite[i]).wf() && self.sprite[i].index == i
        &&& self.obj_param.len() == 0x100
        &&& self.window.wf()
        &&& self.layer.len() == 5
        &&& forall|i: int| 0 <= i < 5 ==> (#[trigger] self.layer[i]).wf()
        &&& self.buffer.len() == 240 * 160
        &&& self.vcount <= 227
        &&& self.mode < 8
    }
}


/// Pixel lines of the five layers.
pub open spec fn layer_lines(p: PPU) -> Seq<Seq<u16>> {
    Seq::new(5, |k: int| p.layer[k].pixel@)
}

/// Whether background `i` is enabled in the display control register.
pub open spec fn bg_on(dispcnt: u16, i: int) -> bool {
    bit_spec(dispcnt as u32, (8 + i) as u32)
}

/// Layers after drawing text background `bg` (nothing when it has no size).
pub open spec fn text_drawn(l: Seq<Seq<u16>>, bg: Background, m: Memory, vcount: u16, cnt: Seq<u8>) -> Seq<Seq<u16>> {
    if bg.width > 0 {
        l.update(
            bg.priority as int,
            paint_all(l[bg.priority as int], text_steps(bg, m, vcount), cnt, bg.index as u32, bg.width as nat),
        )
    } else {
        l
    }
}

/// Layers after drawing affine background `bg` (nothing when it has no size).
pub open spec fn affine_drawn(l: Seq<Seq<u16>>, bg: Background, m: Memory, vcount: u16, cnt: Seq<u8>) -> Seq<Seq<u16>> {
    let b = affine_start(bg, vcount);
    if bg.width > 0 {
        l.update(
            b.priority as int,
            paint_all(l[b.priority as int], affine_steps(b, m), cnt, b.index as u32, b.width as nat),
        )
    } else {
        l
    }
}

/// Whether background `j` is drawn as an affine background in video mode
/// `mode`: background 2 in mode 1, backgrounds 2 and 3 in mode 2, when
/// enabled.
pub open spec fn affine_in_mode(mode: u32, dispcnt: u16, bgs: Seq<Background>, j: int) -> bool {
    &&& (mode == 1 && j == 2) || (mode == 2 && (j == 2 || j == 3))
    &&& bg_on(dispcnt, j)
}

/// Background `n` is `o` after drawing a line of it as an affine background.
pub open spec fn affine_advanced(n: Background, o: Background, vcount: u16) -> bool {
    let b = affine_start(o, vcount);
    &&& same_registers(n, b)
    &&& n.pixel@ == affine_buffer(b)
    &&& n.internal == (b.internal.0.wrapping_add(b.matrix.1), b.internal.1.wrapping_add(b.matrix.3))
}

/// Backgrounds `n` are `o` after drawing the line in video mode `mode`.
pub open spec fn backgrounds_after(n: Seq<Background>, o: Seq<Background>, mode: u32, dispcnt: u16, vcount: u16) -> bool {
    &&& n.len() == 4
    &&& forall|j: int|
        0 <= j < 4 ==> if affine_in_mode(mode, dispcnt, o, j) {
            affine_advanced(#[trigger] n[j], o[j], vcount)
        } else {
            n[j] == o[j]
        }
}

/// Layers after drawing the backgrounds of line `vcount` in video mode
/// `mode`, lower numbered backgrounds last (so on top within a priority).
/// Modes 6 and 7 draw no background.
pub open spec fn backgrounds_drawn(
    l: Seq<Seq<u16>>,
    mode: u32,
    dispcnt: u16,
    flip: bool,
    bgs: Seq<Background>,
    m: Memory,
    vcount: u16,
    cnt: Seq<u8>,
) -> Seq<Seq<u16>> {
    let t = |l: Seq<Seq<u16>>, i: int| if bg_on(dispcnt, i) { text_drawn(l, bgs[i], m, vcount, cnt) } else { l };
    let a = |l: Seq<Seq<u16>>, i: int| if bg_on(dispcnt, i) { affine_drawn(l, bgs[i], m, vcount, cnt) } else { l };
    let page: int = if flip { 0xa000 } else { 0 };
    if mode == 0 {
        t(t(t(t(l, 3), 2), 1), 0)
    } else if mode == 1 {
        t(t(a(l, 2), 1), 0)
    } else if mode == 2 {
        a(a(l, 3), 2)
    } else if mode == 3 {
        l.update(0, paint_all(l[0], bitmap_steps(|x: u32| le16(m.vram@, (vcount * 240 + x) * 2)), cnt, 2, 240))
    } else if mode == 4 {
        l.update(
            0,
            paint_all(
                l[0],
                bitmap_steps(|x: u32| m.bg_color(0, m.vram@[page + vcount * 240 + x] as u32)),
                cnt,
                2,
                240,
            ),
        )
    } else if mode == 5 && vcount <= 127 {
        l.update(
            0,
            paint_all(l[0], bitmap_steps(|x: u32| le16(m.vram@, page + (vcount * 160 + x) * 2)), cnt, 2, 160),
        )
    } else {
        l
    }
}

/// Layers after drawing sprites 127 down to 128 - `c` of `s` on line
/// `vcount`, each on the layer of its priority.
pub open spec fn sprites_drawn(
    l: Seq<Seq<u16>>,
    s: Seq<Sprite>,
    m: Memory,
    vcount: u32,
    sequential: bool,
    cnt: Seq<u8>,
    c: nat,
) -> Seq<Seq<u16>>
    decreases c,
{
    if c == 0 {
        l
    } else {
        let prev = sprites_drawn(l, s, m, vcount, sequential, cnt, (c - 1) as nat);
        let sp = s[128 - c];
        prev.update(sp.priority as int, sp.drawn(prev[sp.priority as int], m, vcount, sequential, cnt))
    }
}

/// Window mask of line `vcount`: everything shown, or WINOUT when a
/// window is enabled, then window 1 and window 0 on top.
pub open spec fn window_spec(dispcnt: u16, vcount: u16, m: Memory) -> Seq<u8> {
    let c0 = Seq::new(256, |i: int| 0xffu8);
    let c1 = if bits_spec(dispcnt as u32, 15, 13) > 0 { Seq::new(256, |i: int| m.winout_spec() as u8) } else { c0 };
    let c2 = if bit_spec(dispcnt as u32, 14) {
        winin_spec(c1, vcount as u32, m.winh_spec(1), m.winv_spec(1), m.winin_spec(1))
    } else {
        c1
    };
    if bit_spec(dispcnt as u32, 13) {
        winin_spec(c2, vcount as u32, m.winh_spec(0), m.winv_spec(0), m.winin_spec(0))
    } else {
        c2
    }
}

/// Topmost opaque color at pixel `x` among layers `j` to 4.
pub open spec fn top_color(l: Seq<Seq<u16>>, x: int, j: int) -> Option<u16>
    decreases 5 - j,
{
    if j >= 5 || j < 0 {
        None
    } else if l[j][x] != TRANSPARENT {
        Some(l[j][x])
    } else {
        top_color(l, x, j + 1)
    }
}

/// Frame buffer after rendering line `vcount` from layers `l`: each pixel
/// takes the topmost opaque layer color in RGB24; where every layer is
/// transparent it keeps its value.
pub open spec fn combined(buf: Seq<u32>, l: Seq<Seq<u16>>, vcount: int) -> Seq<u32> {
    Seq::new(
        buf.len(),
        |k: int|
            if vcount * 240 <= k < vcount * 240 + 240 {
                match top_color(l, k - vcount * 240, 0) {
                    Some(c) => rgb24_spec(c),
                    None => buf[k],
                }
            } else {
                buf[k]
            },
    )
}

/// The line after `v` (lines 0 - 227).
pub open spec fn next_vcount(v: u16) -> u16 {
    if v + 1 > 227 {
        0
    } else {
        (v + 1) as u16
    }
}

/// Whether the line counter match interrupt fires on line `v`: enabled in
/// DISPSTAT bit 5, and `v` is the line in DISPSTAT bits 15 - 8.
pub open spec fn vcount_match(dispstat: u16, v: u16) -> bool {
    bit_spec(dispstat as u32, 5) && v == dispstat >> 8u16
}

/// Controller `n`, processor `c` and memory `nm` are `o`, `oc` and `om`
/// after a request of `irq` when `fire` holds, and unchanged otherwise.
pub open spec fn line_irq(
    n: IRQController,
    o: IRQController,
    c: CPU,
    oc: CPU,
    nm: MemView,
    om: MemView,
    fire: bool,
    irq: Interrupt,
) -> bool {
    if fire {
        requested(n, o, c, oc, nm, om, irq)
    } else {
        n == o && c == oc && nm == om
    }
}

/// Layers at the start of a line: four transparent layers and the
/// backdrop layer filled with the backdrop color.
pub open spec fn initial_layers(m: Memory) -> Seq<Seq<u16>> {
    Seq::new(5, |k: int| if k < 4 { Seq::new(240, |i: int| TRANSPARENT) } else { Seq::new(240, |i: int| le16(m.param@, 0)) })
}

/// `n` is `o` with layer lines `l`.
pub proof fn lemma_layer_lines(n: PPU, o: PPU, k: int, p: Seq<u16>)
    requires
        layer_painted(n, o, k, p),
        0 <= k < 5,
    ensures
        layer_lines(n) == layer_lines(o).update(k, p),
{
}

/// `n`, controller `ni`, processor `nc` and memory `m` are `o`, `oi`, `oc`
/// and `om` after drawing the next line: the line counter moves on (with
/// its match interrupt), the blank flags clear, the window mask, the
/// backgrounds and the sprites (loaded from OAM) are drawn on the layers
/// from memory `m`, and the line is rendered into the frame buffer
/// (blanked first when the display is forced blank).
pub open spec fn hdrawn(
    n: PPU,
    o: PPU,
    ni: IRQController,
    oi: IRQController,
    nc: CPU,
    oc: CPU,
    m: Memory,
    om: Memory,
) -> bool {
    let v = next_vcount(o.vcount);
    let cnt = window_spec(o.dispcnt, v, m);
    let l1 = backgrounds_drawn(
        initial_layers(m),
        o.mode,
        o.dispcnt,
        o.flip,
        o.background@,
        m,
        v,
        cnt,
    );
    let l2 = sprites_drawn(l1, n.sprite@, m, v as u32, o.sequential, cnt, 128);
    &&& n.vcount == v
    &&& n.dispstat == o.dispstat & !3u16
    &&& line_irq(ni, oi, nc, oc, m@, om@, vcount_match(o.dispstat, v), Interrupt::VCount)
    &&& n.window.cnt@ == cnt
    &&& backgrounds_after(n.background@, o.background@, o.mode, o.dispcnt, v)
    &&& forall|i: int| 0 <= i < 128 ==> loaded_from_oam(#[trigger] n.sprite[i], o.sprite[i], m.oam@)
    &&& layer_lines(n) == l2
    &&& n.buffer@ == combined(
        if o.fblank { Seq::new(240 * 160, |i: int| 0u32) } else { o.buffer@ },
        l2,
        v as int,
    )
    &&& n.dispcnt == o.dispcnt && n.mode == o.mode
    &&& n.flip == o.flip && n.sequential == o.sequential
    &&& n.fblank == o.fblank && n.obj_param == o.obj_param
}

/// `n`, `ni`, `nc` are `o`, `oi`, `oc` at the start of the horizontal
/// blank: the H-Blank flag is set, and the H-Blank interrupt is requested
/// when DISPSTAT bit 4 enables it.
pub open spec fn hblanked(
    n: PPU,
    o: PPU,
    ni: IRQController,
    oi: IRQController,
    nc: CPU,
    oc: CPU,
    nm: MemView,
    om: MemView,
) -> bool {
    &&& n == PPU { dispstat: o.dispstat | 0b10u16, ..o }
    &&& line_irq(ni, oi, nc, oc, nm, om, bit_spec(o.dispstat as u32, 4), Interrupt::HBlank)
}

/// `n`, `ni`, `nc` are `o`, `oi`, `oc` at the start of a line of the
/// vertical blank: the line counter moves on (with its match interrupt),
/// the V-Blank flag is set, and on line 160 the V-Blank interrupt is
/// requested when DISPSTAT bit 3 enables it.
pub open spec fn vblanked(
    n: PPU,
    o: PPU,
    ni: IRQController,
    oi: IRQController,
    nc: CPU,
    oc: CPU,
    nm: MemView,
    om: MemView,
) -> bool {
    let v = next_vcount(o.vcount);
    &&& n == PPU { vcount: v, dispstat: o.dispstat | 0b01u16, ..o }
    &&& exists|i1: IRQController, c1: CPU, m1: MemView|
        #[trigger] line_irq(i1, oi, c1, oc, m1, om, vcount_match(o.dispstat, v), Interrupt::VCount) && line_irq(
            ni,
            i1,
            nc,
            c1,
            nm,
            m1,
            bit_spec(o.dispstat as u32, 3) && v == 160,
            Interrupt::VBlank,
        )
}

/// Sprites below 128 - `c` do not take part in drawing the first `c`.
pub proof fn lemma_sprites_drawn_frame(
    l: Seq<Seq<u16>>,
    s1: Seq<Sprite>,
    s2: Seq<Sprite>,
    m: Memory,
    vcount: u32,
    sequential: bool,
    cnt: Seq<u8>,
    c: nat,
)
    requires
        c <= 128,
        forall|j: int| 128 - c <= j < 128 ==> s1[j] == s2[j],
    ensures
        sprites_drawn(l, s1, m, vcount, sequential, cnt, c) == sprites_drawn(l, s2, m, vcount, sequential, cnt, c),
    decreases c,
{
    if c > 0 {
        lemma_sprites_drawn_frame(l, s1, s2, m, vcount, sequential, cnt, (c - 1) as nat);
    }
}

impl PPU {
    /// State after reset.
    pub open spec fn is_reset(&self) -> bool {
        &&& self.dispcnt == 0 && self.dispstat == 0 && self.vcount == 227 && self.mode == 0
        &&& !self.flip && !self.sequential && !self.fblank
        &&& self.obj_param@ == Seq::new(0x100, |i: int| 0u16)
        &&& forall|i: int| 0 <= i < 4 ==> (#[trigger] self.background[i]).width == 0 && self.background[i].bgcnt == 0
        &&& forall|i: int| 0 <= i < 128 ==> (#[trigger] self.sprite[i]).width == 0 && self.sprite[i].attr@ == seq![0u16, 0u16, 0u16]
        &&& forall|i: int| 0 <= i < 256 ==> self.window.cnt[i] == 0
        &&& layer_lines(*self) == Seq::new(5, |k: int| Seq::new(240, |i: int| TRANSPARENT))
        &&& self.buffer@ == Seq::new(240 * 160, |i: int| 0u32)
    }

    /// Display off, line 227 (the line counter moves on at the start of each
    /// line), four cleared backgrounds and 128 cleared sprites, empty
    /// window mask, transparent layers, black frame.
    pub fn new() -> (p: Self)
        ensures
            p.wf(),
            p.is_reset(),
    {
        let mut background: Vec<Background> = Vec::new();
        let mut i: usize = 0;
        while i < 4
            invariant
                i <= 4,
                background.len() == i,
                forall|j: int| 0 <= j < i ==> (#[trigger] background[j]).wf() && background[j].index == j
                    && background[j].width == 0 && background[j].bgcnt == 0,
            decreases 4 - i,
        {
            let mut b = Background::new();
            b.index = i;
            background.push(b);
            i = i + 1;
        }
        let mut sprite: Vec<Sprite> = Vec::new();
        let mut i: usize = 0;
        while i < 128
            invariant
                i <= 128,
                sprite.len() == i,
                forall|j: int| 0 <= j < i ==> (#[trigger] sprite[j]).wf() && sprite[j].index == j
                    && sprite[j].width == 0 && sprite[j].attr@ == seq![0u16, 0u16, 0u16],
            decreases 128 - i,
        {
            let mut s = Sprite::new();
            s.index = i;
            sprite.push(s);
            i = i + 1;
        }
        let mut layer: Vec<Layer> = Vec::new();
        let mut i: usize = 0;
        while i < 5
            invariant
                i <= 5,
                layer.len() == i,
                forall|j: int| 0 <= j < i ==> (#[trigger] layer[j]).wf() && layer[j].pixel@ == Seq::new(240, |k: int| TRANSPARENT),
            decreases 5 - i,
        {
            layer.push(Layer::new());
            i = i + 1;
        }
        let p = PPU {
            dispcnt: 0,
            dispstat: 0,
            vcount: 227,
            mode: 0,
            flip: false,
            sequential: false,
            fblank: false,
            obj_param: vec![0u16; 0x100],
            background,
            sprite,
            window: Window::new(),
            layer,
            buffer: vec![0u32; 240 * 160],
        };
        assert(p.obj_param@ =~= Seq::new(0x100, |i: int| 0u16));
        assert(p.buffer@ =~= Seq::new(240 * 160, |i: int| 0u32));
        assert(layer_lines(p) =~= Seq::new(5, |k: int| Seq::new(240, |i: int| TRANSPARENT)));
        p
    }

    /// Start drawing the next line: move the line counter on, clear the
    /// blank flags, draw the window mask, the backgrounds and the sprites
    /// on the layers, and render the line into the frame buffer.
    pub fn hdraw(&mut self, irqcnt: &mut IRQController, cpu: &mut CPU, memory: &mut Memory)
        requires
            old(self).wf(),
            old(memory).wf(),
            next_vcount(old(self).vcount) < 160,
        ensures
            final(self).wf(),
            final(memory).wf(),
            hdrawn(
                *final(self),
                *old(self),
                *final(irqcnt),
                *old(irqcnt),
                *final(cpu),
                *old(cpu),
                *final(memory),
                *old(memory),
            ),
    {
        self.increment_vcount(irqcnt, cpu, memory);
        let memory: &Memory = memory;
        self.dispstat = self.dispstat & !0b11u16;
        if self.fblank {
            self.force_blank();
        }
        let bd = memory.backdrop();
        self.layer[4].fill(bd);
        self.layer[0].clear();
        self.layer[1].clear();
        self.layer[2].clear();
        self.layer[3].clear();
        assert(layer_lines(*self) =~= initial_layers(*memory));
        self.draw_window(memory);
        self.draw_background(memory);
        self.draw_sprites(memory);
        self.combine_layers();
    }

    /// Start the horizontal blank: set the H-Blank flag, and request the
    /// H-Blank interrupt when DISPSTAT bit 4 enables it.
    pub fn hblank(&mut self, irqcnt: &mut IRQController, cpu: &mut CPU, memory: &mut Memory)
        requires
            old(memory).wf(),
        ensures
            final(memory).wf(),
            hblanked(
                *final(self),
                *old(self),
                *final(irqcnt),
                *old(irqcnt),
                *final(cpu),
                *old(cpu),
                final(memory)@,
                old(memory)@,
            ),
    {
        self.dispstat = self.dispstat | 0b10u16;
        proof {
            crate::util::lemma_or_bit16(old(self).dispstat, 0b10, 4);
        }
        if self.dispstat.bit(4) {
            irqcnt.request(Interrupt::HBlank, cpu, memory);
        }
    }

    /// Start a line of the vertical blank: move the line counter on, set the
    /// V-Blank flag, and on line 160 request the V-Blank interrupt when
    /// DISPSTAT bit 3 enables it.
    pub fn vblank(&mut self, irqcnt: &mut IRQController, cpu: &mut CPU, memory: &mut Memory)
        requires
            old(self).wf(),
            old(memory).wf(),
        ensures
            final(self).wf(),
            final(memory).wf(),
            vblanked(
                *final(self),
                *old(self),
                *final(irqcnt),
                *old(irqcnt),
                *final(cpu),
                *old(cpu),
                final(memory)@,
                old(memory)@,
            ),
    {
        self.increment_vcount(irqcnt, cpu, memory);
        let ghost i1 = *irqcnt;
        let ghost c1 = *cpu;
        let ghost m1 = memory@;
        self.dispstat = self.dispstat | 0b01u16;
        proof {
            crate::util::lemma_or_bit16(old(self).dispstat, 0b01, 3);
        }
        if self.dispstat.bit(3) && self.vcount == 160 {
            irqcnt.request(Interrupt::VBlank, cpu, memory);
        }
        assert(line_irq(
            i1,
            *old(irqcnt),
            c1,
            *old(cpu),
            m1,
            old(memory)@,
            vcount_match(old(self).dispstat, self.vcount),
            Interrupt::VCount,
        ));
    }

    /// Move the line counter to the next line (wrapping after 227), and
    /// request the line counter match interrupt when it fires.
    pub fn increment_vcount(&mut self, irqcnt: &mut IRQController, cpu: &mut CPU, memory: &mut Memory)
        requires
            old(self).wf(),
            old(memory).wf(),
        ensures
            final(self).wf(),
            final(memory).wf(),
            *final(self) == (PPU { vcount: next_vcount(old(self).vcount), ..*old(self) }),
            line_irq(
                *final(irqcnt),
                *old(irqcnt),
                *final(cpu),
                *old(cpu),
                final(memory)@,
                old(memory)@,
                vcount_match(old(self).dispstat, next_vcount(old(self).vcount)),
                Interrupt::VCount,
            ),
    {
        self.vcount = self.vcount + 1;
        if self.vcount > 227 {
            self.vcount = 0;
        }
        if self.dispstat.bit(5) && self.vcount == self.dispstat >> 8u16 {
            irqcnt.request(Interrupt::VCount, cpu, memory);
        }
    }

    /// Topmost opaque layer color at pixel `i`.
    fn top_pixel(&self, i: usize) -> (r: Option<u16>)
        requires
            self.wf(),
            i < 240,
        ensures
            r == top_color(layer_lines(*self), i as int, 0),
    {
        let ghost l = layer_lines(*self);
        let mut j: usize = 0;
        while j < 5
            invariant
                self.wf(),
                l == layer_lines(*self),
                i < 240,
                j <= 5,
                top_color(l, i as int, j as int) == top_color(l, i as int, 0),
            decreases 5 - j,
        {
            let pixel = self.layer[j].pixel[i];
            if pixel != TRANSPARENT {
                return Some(pixel);
            }
            j = j + 1;
        }
        None
    }

    /// Render the current line into the frame buffer: each pixel takes the
    /// topmost opaque layer color, converted to RGB24.
    pub fn combine_layers(&mut self)
        requires
            old(self).wf(),
            old(self).vcount < 160,
        ensures
            final(self).wf(),
            *final(self) == (PPU { buffer: final(self).buffer, ..*old(self) }),
            final(self).buffer@ == combined(old(self).buffer@, layer_lines(*old(self)), old(self).vcount as int),
    {
        let n = self.vcount as usize * 240;
        let ghost l = layer_lines(*self);
        let ghost b0 = self.buffer@;
        let mut i: usize = 0;
        while i < 240
            invariant
                self.wf(),
                *self == (PPU { buffer: self.buffer, ..*old(self) }),
                l == layer_lines(*old(self)),
                b0 == old(self).buffer@,
                n == old(self).vcount * 240,
                n + 240 <= 240 * 160,
                i <= 240,
                forall|k: int|
                    0 <= k < 240 * 160 ==> self.buffer@[k] == if n <= k < n + i {
                        match top_color(l, k - n, 0) {
                            Some(c) => rgb24_spec(c),
                            None => b0[k],
                        }
                    } else {
                        b0[k]
                    },
            decreases 240 - i,
        {
            match self.top_pixel(i) {
                Some(c) => {
                    self.buffer.set(n + i, c.to_rgb24());
                },
                None => {},
            }
            i = i + 1;
        }

    }

    /// Draw the backgrounds of the current line, by video mode.
    pub fn draw_background(&mut self, memory: &Memory)
        requires
            old(self).wf(),
            memory.wf(),
            old(self).mode == 3 ==> old(self).vcount <= 203,
        ensures
            final(self).wf(),
            others_unchanged(*final(self), *old(self)),
            backgrounds_after(final(self).background@, old(self).background@, old(self).mode, old(self).dispcnt, old(self).vcount),
            layer_lines(*final(self)) == backgrounds_drawn(
                layer_lines(*old(self)),
                old(self).mode,
                old(self).dispcnt,
                old(self).flip,
                old(self).background@,
                *memory,
                old(self).vcount,
                old(self).window.cnt@,
            ),
    {
        let ghost o = *self;
        match self.mode {
            0 => self.draw_mode_0(memory),
            1 => self.draw_mode_1(memory),
            2 => self.draw_mode_2(memory),
            3 => {
                self.draw_bitmap_3(memory);
                proof {
                    lemma_layer_lines(*self, o, 0, layer_lines(*self)[0]);
                }
            },
            4 => {
                self.draw_bitmap_4(memory);
                proof {
                    lemma_layer_lines(*self, o, 0, layer_lines(*self)[0]);
                }
            },
            5 => {
                self.draw_bitmap_5(memory);
                proof {
                    if o.vcount <= 127 {
                        lemma_layer_lines(*self, o, 0, layer_lines(*self)[0]);
                    }
                }
            },
            _ => {},
        }
    }
}


impl PPU {
    /// Draw the enabled text backgrounds 3, 2, 1, 0 of mode 0.
    pub fn draw_mode_0(&mut self, memory: &Memory)
        requires
            old(self).wf(),
            memory.wf(),
            old(self).mode == 0,
        ensures
            final(self).wf(),
            others_unchanged(*final(self), *old(self)),
            final(self).background == old(self).background,
            layer_lines(*final(self)) == backgrounds_drawn(
                layer_lines(*old(self)),
                0,
                old(self).dispcnt,
                old(self).flip,
                old(self).background@,
                *memory,
                old(self).vcount,
                old(self).window.cnt@,
            ),
    {
        self.draw_text_if(11, 3, memory);
        self.draw_text_if(10, 2, memory);
        self.draw_text_if(9, 1, memory);
        self.draw_text_if(8, 0, memory);
    }

    /// Draw text background `index` when bit `b` of the display control
    /// register enables it and it has a size.
    fn draw_text_if(&mut self, b: u32, index: usize, memory: &Memory)
        requires
            old(self).wf(),
            memory.wf(),
            index < 4,
            b == 8 + index,
        ensures
            final(self).wf(),
            others_unchanged(*final(self), *old(self)),
            final(self).background == old(self).background,
            layer_lines(*final(self)) == if bg_on(old(self).dispcnt, index as int) {
                text_drawn(
                    layer_lines(*old(self)),
                    old(self).background[index as int],
                    *memory,
                    old(self).vcount,
                    old(self).window.cnt@,
                )
            } else {
                layer_lines(*old(self))
            },
    {
        if self.dispcnt.bit(b) && self.background[index].width > 0 {
            let ghost o = *self;
            self.draw_text_background(index, memory);
            proof {
                let bg = o.background[index as int];
                lemma_layer_lines(*self, o, bg.priority as int, self.layer[bg.priority as int].pixel@);
            }
        }
    }

    /// Draw affine background `index` when bit `b` of the display control
    /// register enables it.
    fn draw_affine_if(&mut self, b: u32, index: usize, memory: &Memory)
        requires
            old(self).wf(),
            memory.wf(),
            index < 4,
            b == 8 + index,
        ensures
            final(self).wf(),
            others_unchanged(*final(self), *old(self)),
            final(self).background.len() == 4,
            forall|j: int| 0 <= j < 4 && j != index ==> final(self).background[j] == old(self).background[j],
            bg_on(old(self).dispcnt, index as int) ==> affine_advanced(
                final(self).background[index as int],
                old(self).background[index as int],
                old(self).vcount,
            ),
            !bg_on(old(self).dispcnt, index as int) ==> final(self).background[index as int] == old(
                self,
            ).background[index as int],
            layer_lines(*final(self)) == if bg_on(old(self).dispcnt, index as int) {
                affine_drawn(
                    layer_lines(*old(self)),
                    old(self).background[index as int],
                    *memory,
                    old(self).vcount,
                    old(self).window.cnt@,
                )
            } else {
                layer_lines(*old(self))
            },
    {
        if self.dispcnt.bit(b) {
            let ghost o = *self;
            self.draw_affine_background(index, memory);
            proof {
                let bg = affine_start(o.background[index as int], o.vcount);
                lemma_layer_lines(*self, o, bg.priority as int, self.layer[bg.priority as int].pixel@);
                if bg.width == 0 {
                    assert(layer_lines(*self) =~= layer_lines(o));
                }
            }
        }
    }

    /// Draw the enabled affine background 2 and text backgrounds 1, 0 of mode 1.
    pub fn draw_mode_1(&mut self, memory: &Memory)
        requires
            old(self).wf(),
            memory.wf(),
            old(self).mode == 1,
        ensures
            final(self).wf(),
            others_unchanged(*final(self), *old(self)),
            backgrounds_after(final(self).background@, old(self).background@, 1, old(self).dispcnt, old(self).vcount),
            layer_lines(*final(self)) == backgrounds_drawn(
                layer_lines(*old(self)),
                1,
                old(self).dispcnt,
                old(self).flip,
                old(self).background@,
                *memory,
                old(self).vcount,
                old(self).window.cnt@,
            ),
    {
        self.draw_affine_if(10, 2, memory);
        self.draw_text_if(9, 1, memory);
        self.draw_text_if(8, 0, memory);
    }

    /// Draw the enabled affine backgrounds 3, 2 of mode 2.
    pub fn draw_mode_2(&mut self, memory: &Memory)
        requires
            old(self).wf(),
            memory.wf(),
            old(self).mode == 2,
        ensures
            final(self).wf(),
            others_unchanged(*final(self), *old(self)),
            backgrounds_after(final(self).background@, old(self).background@, 2, old(self).dispcnt, old(self).vcount),
            layer_lines(*final(self)) == backgrounds_drawn(
                layer_lines(*old(self)),
                2,
                old(self).dispcnt,
                old(self).flip,
                old(self).background@,
                *memory,
                old(self).vcount,
                old(self).window.cnt@,
            ),
    {
        self.draw_affine_if(11, 3, memory);
        self.draw_affine_if(10, 2, memory);
    }

    /// Load every sprite's attributes from OAM, then draw sprites 127 down
    /// to 0 (so lower numbered sprites end on top), each on the layer of
    /// its priority.
    pub fn draw_sprites(&mut self, memory: &Memory)
        requires
            old(self).wf(),
            memory.wf(),
        ensures
            final(self).wf(),
            forall|i: int| 0 <= i < 128 ==> loaded_from_oam(#[trigger] final(self).sprite[i], old(self).sprite[i], memory.oam@),
            layer_lines(*final(self)) == sprites_drawn(
                layer_lines(*old(self)),
                final(self).sprite@,
                *memory,
                old(self).vcount as u32,
                old(self).sequential,
                old(self).window.cnt@,
                128,
            ),
            *final(self) == (PPU { sprite: final(self).sprite, layer: final(self).layer, ..*old(self) }),
    {
        let vcount = self.vcount as u32;
        let sequential = self.sequential;
        let ghost l0 = layer_lines(*self);
        let mut c: usize = 0;
        while c < 128
            invariant
                self.wf(),
                memory.wf(),
                c <= 128,
                vcount == old(self).vcount,
                sequential == old(self).sequential,
                *self == (PPU { sprite: self.sprite, layer: self.layer, ..*old(self) }),
                l0 == layer_lines(*old(self)),
                forall|i: int| 128 - c <= i < 128 ==> loaded_from_oam(#[trigger] self.sprite[i], old(self).sprite[i], memory.oam@),
                forall|i: int| 0 <= i < 128 - c ==> self.sprite[i] == old(self).sprite[i],
                layer_lines(*self) == sprites_drawn(l0, self.sprite@, *memory, vcount, sequential, self.window.cnt@, c as nat),
            decreases 128 - c,
        {
            let i = 127 - c;
            let ghost before = *self;
            memory.update_sprite(&mut self.sprite[i]);
            proof {
                lemma_sprites_drawn_frame(l0, before.sprite@, self.sprite@, *memory, vcount, sequential, self.window.cnt@, c as nat);
            }
            let ghost mid = *self;
            let p = self.sprite[i].priority as usize;
            self.sprite[i].draw(vcount, sequential, &mut self.layer[p], &self.window, memory);
            c = c + 1;
        }
    }

    /// Draw the window mask of the current line.
    pub fn draw_window(&mut self, memory: &Memory)
        requires
            old(self).wf(),
            memory.wf(),
        ensures
            final(self).wf(),
            *final(self) == (PPU { window: final(self).window, ..*old(self) }),
            final(self).window.cnt@ == window_spec(old(self).dispcnt, old(self).vcount, *memory),
    {
        self.window.clear();
        if self.dispcnt.bits(15, 13) > 0 {
            self.window.draw_winout(memory);
        }
        if self.dispcnt.bit(14) {
            self.window.draw_winin(self.vcount as u32, 1, memory);
        }
        if self.dispcnt.bit(13) {
            self.window.draw_winin(self.vcount as u32, 0, memory);
        }
    }

    /// Blank the frame buffer.
    pub fn force_blank(&mut self)
        requires
            old(self).wf(),
        ensures
            final(self).wf(),
            *final(self) == (PPU { buffer: final(self).buffer, ..*old(self) }),
            final(self).buffer@ == Seq::new(240 * 160, |i: int| 0u32),
    {
        let mut i: usize = 0;
        while i < 240 * 160
            invariant
                self.wf(),
                *self == (PPU { buffer: self.buffer, ..*old(self) }),
                i <= 240 * 160,
                forall|j: int| 0 <= j < i ==> self.buffer[j] == 0,
            decreases 240 * 160 - i,
        {
            self.buffer.set(i, 0);
            i = i + 1;
        }

    }
}

} // verus!

verus! {

/// A cleared window mask lets every layer be drawn at every pixel on screen.
pub proof fn lemma_cleared_window_shows_all(x: u32, index: u32)
    requires
        x < 240,
        index < 8,
    ensures
        window::display_flag(Seq::new(256, |i: int| 0xffu8), x, index),
{
    assert(((0xffu8 as u32) >> index) & 1 == 1) by (bit_vector)
        requires
            index < 8,
    ;
}

/// The rendered pixel is the color of the first opaque layer: an opaque
/// pixel of layer `j` shows unless a layer before it is opaque there.
pub proof fn lemma_top_color(l: Seq<Seq<u16>>, x: int, j: int)
    requires
        0 <= j < 5,
        l[j][x] != TRANSPARENT,
        forall|i: int| 0 <= i < j ==> l[i][x] == TRANSPARENT,
    ensures
        top_color(l, x, 0) == Some(l[j][x]),
{
    if j > 0 {
        lemma_top_color_skip(l, x, 0, j);
    }
}

proof fn lemma_top_color_skip(l: Seq<Seq<u16>>, x: int, i: int, j: int)
    requires
        0 <= i <= j < 5,
        l[j][x] != TRANSPARENT,
        forall|k: int| 0 <= k < j ==> l[k][x] == TRANSPARENT,
    ensures
        top_color(l, x, i) == Some(l[j][x]),
    decreases j - i,
{
    if i < j {
        lemma_top_color_skip(l, x, i + 1, j);
    }
}

} // verus!

verus! {

/// Color of the last of steps 0 to `n` - 1 that paints column `x` (an
/// opaque color, on screen, shown by the window), if any.
pub open spec fn last_paint(f: spec_fn(int) -> (u32, u16), cnt: Seq<u8>, index: u32, n: nat, x: int) -> Option<u16>
    decreases n,
{
    if n == 0 {
        None
    } else {
        let s = f(n - 1);
        if s.0 == x && s.1 != TRANSPARENT && s.0 < 240 && window::display_flag(cnt, s.0, index) {
            Some(s.1)
        } else {
            last_paint(f, cnt, index, (n - 1) as nat, x)
        }
    }
}

/// A painted line shows, at each column, the color of the last step that
/// paints it, or what was there before when no step does.
pub proof fn lemma_paint_all_at(p: Seq<u16>, f: spec_fn(int) -> (u32, u16), cnt: Seq<u8>, index: u32, n: nat, x: int)
    requires
        p.len() == 240,
        0 <= x < 240,
    ensures
        paint_all(p, f, cnt, index, n)[x] == match last_paint(f, cnt, index, n, x) {
            Some(c) => c,
            None => p[x],
        },
    decreases n,
{
    if n > 0 {
        lemma_paint_all_at(p, f, cnt, index, (n - 1) as nat, x);
        layer::lemma_paint_all_len(p, f, cnt, index, (n - 1) as nat);
    }
}

/// Backgrounds are drawn in reverse order so that a lower numbered
/// background covers a higher numbered one of the same priority: where it
/// paints a column, its color is what the layer shows.
pub proof fn lemma_lower_background_on_top(
    l: Seq<Seq<u16>>,
    hi: Background,
    lo: Background,
    m: Memory,
    vcount: u16,
    cnt: Seq<u8>,
    x: int,
    c: u16,
)
    requires
        l.len() == 5,
        forall|k: int| 0 <= k < 5 ==> (#[trigger] l[k]).len() == 240,
        hi.priority == lo.priority,
        hi.priority < 5,
        lo.width > 0,
        0 <= x < 240,
        last_paint(text_steps(lo, m, vcount), cnt, lo.index as u32, lo.width as nat, x) == Some(c),
    ensures
        text_drawn(text_drawn(l, hi, m, vcount, cnt), lo, m, vcount, cnt)[lo.priority as int][x] == c,
{
    let l1 = text_drawn(l, hi, m, vcount, cnt);
    if hi.width > 0 {
        layer::lemma_paint_all_len(l[hi.priority as int], text_steps(hi, m, vcount), cnt, hi.index as u32, hi.width as nat);
    }

    lemma_paint_all_at(l1[lo.priority as int], text_steps(lo, m, vcount), cnt, lo.index as u32, lo.width as nat, x);
}

/// Sprites are drawn from 127 down to 0 so that a lower numbered sprite
/// covers a higher numbered one of the same priority: where sprite 0
/// paints a column, its color is what its layer shows.
pub proof fn lemma_sprite_zero_on_top(
    l: Seq<Seq<u16>>,
    s: Seq<Sprite>,
    m: Memory,
    vcount: u32,
    sequential: bool,
    cnt: Seq<u8>,
    x: int,
    c: u16,
)
    requires
        l.len() == 5,
        forall|k: int| 0 <= k < 5 ==> (#[trigger] l[k]).len() == 240,
        s.len() == 128,
        forall|i: int| 0 <= i < 128 ==> (#[trigger] s[i]).wf(),
        0 <= x < 240,
        !s[0].disabled_spec() && s[0].visible_spec(vcount) && !s[0].affine_f,
        last_paint(s[0].text_steps(m, vcount, sequential), cnt, 4, s[0].width as nat, x) == Some(c),
    ensures
        sprites_drawn(l, s, m, vcount, sequential, cnt, 128)[s[0].priority as int][x] == c,
{
    lemma_sprites_drawn_len(l, s, m, vcount, sequential, cnt, 127);
    let prev = sprites_drawn(l, s, m, vcount, sequential, cnt, 127);
    lemma_paint_all_at(prev[s[0].priority as int], s[0].text_steps(m, vcount, sequential), cnt, 4, s[0].width as nat, x);
}

/// Drawing sprites keeps five layers of 240 pixels.
pub proof fn lemma_sprites_drawn_len(
    l: Seq<Seq<u16>>,
    s: Seq<Sprite>,
    m: Memory,
    vcount: u32,
    sequential: bool,
    cnt: Seq<u8>,
    c: nat,
)
    requires
        l.len() == 5,
        forall|k: int| 0 <= k < 5 ==> (#[trigger] l[k]).len() == 240,
        s.len() == 128,
        forall|i: int| 0 <= i < 128 ==> (#[trigger] s[i]).wf(),
        c <= 128,
    ensures
        sprites_drawn(l, s, m, vcount, sequential, cnt, c).len() == 5,
        forall|k: int| 0 <= k < 5 ==> (#[trigger] sprites_drawn(l, s, m, vcount, sequential, cnt, c)[k]).len() == 240,
    decreases c,
{
    if c > 0 {
        lemma_sprites_drawn_len(l, s, m, vcount, sequential, cnt, (c - 1) as nat);
        let prev = sprites_drawn(l, s, m, vcount, sequential, cnt, (c - 1) as nat);
        let sp = s[128 - c];
        let q = prev[sp.priority as int];
        layer::lemma_paint_all_len(q, sp.affine_steps(m, vcount, sequential), cnt, 4, (2 * sp.affine_frame().0) as nat);
        layer::lemma_paint_all_len(q, sp.text_steps(m, vcount, sequential), cnt, 4, sp.width as nat);
    }
}

} // verus!
