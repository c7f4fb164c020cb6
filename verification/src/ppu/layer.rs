//! A line of one layer: a color per pixel, or transparent.
use vstd::prelude::*;
use crate::ppu::TRANSPARENT;
use crate::ppu::window::{Window, display_flag};

verus! {

/// Colors of the 240 pixels of a line of one layer.
pub struct Layer {
    pub pixel: Vec<u16>,
}

/// Line after painting `color` at pixel `x` for layer `index` through the
/// window mask `cnt`: transparent colors, pixels off screen and pixels the
/// window hides leave it unchanged.
pub open spec fn painted(p: Seq<u16>, x: u32, color: u16, cnt: Seq<u8>, index: u32) -> Seq<u16> {
    if color != TRANSPARENT && x < 240 && display_flag(cnt, x, index) {
        p.update(x as int, color)
    } else {
        p
    }
}

/// Line after painting steps 0 to `n` - 1 in order, step `k` painting
/// color `f(k).1` at pixel `f(k).0` for layer `index`.
pub open spec fn paint_all(p: Seq<u16>, f: spec_fn(int) -> (u32, u16), cnt: Seq<u8>, index: u32, n: nat) -> Seq<u16>
    decreases n,
{
    if n == 0 {
        p
    } else {
        let s = f(n - 1);
        painted(paint_all(p, f, cnt, index, (n - 1) as nat), s.0, s.1, cnt, index)
    }
}

/// Painting keeps the length of a line.
pub proof fn lemma_paint_all_len(p: Seq<u16>, f: spec_fn(int) -> (u32, u16), cnt: Seq<u8>, index: u32, n: nat)
    requires
        p.len() == 240,
    ensures
        paint_all(p, f, cnt, index, n).len() == 240,
    decreases n,
{
    if n > 0 {
        lemma_paint_all_len(p, f, cnt, index, (n - 1) as nat);
    }
}

impl Layer {
    /// The line has 240 pixels.
    pub open spec fn wf(&self) -> bool {
        self.pixel.len() == 240
    }

    /// A transparent line.
    pub fn new() -> (l: Self)
        ensures
            l.wf(),
            l.pixel@ == Seq::new(240, |i: int| TRANSPARENT),
    {
        let l = Layer { pixel: vec![TRANSPARENT; 240] };
        l
    }

    /// Paint `color` at pixel `x`, where the window lets layer `index` be drawn.
    pub fn paint(&mut self, x: u32, color: u16, window: &Window, index: u32)
        requires
            old(self).wf(),
            window.wf(),
            index < 32,
        ensures
            final(self).wf(),
            final(self).pixel@ == painted(old(self).pixel@, x, color, window.cnt@, index),
    {
        if color == TRANSPARENT || x >= 240 {
            return ;
        }
        if window.get_display_flag(x, index) {
            self.pixel.set(x as usize, color);
        }
    }

    /// Fill every pixel with `color`.
    pub(crate) fn fill(&mut self, color: u16)
        requires
            old(self).wf(),
        ensures
            final(self).wf(),
            final(self).pixel@ == Seq::new(240, |i: int| color),
    {
        let mut i: usize = 0;
        while i < 240
            invariant
                i <= 240,
                self.pixel.len() == 240,
                forall|j: int| 0 <= j < i ==> self.pixel[j] == color,
            decreases 240 - i,
        {
            self.pixel.set(i, color);
            i = i + 1;
        }

    }

    /// Make every pixel transparent.
    pub fn clear(&mut self)
        requires
            old(self).wf(),
        ensures
            final(self).wf(),
            final(self).pixel@ == Seq::new(240, |i: int| TRANSPARENT),
    {
        let mut i: usize = 0;
        while i < 240
            invariant
                i <= 240,
                self.pixel.len() == 240,
                forall|j: int| 0 <= j < i ==> self.pixel[j] == TRANSPARENT,
            decreases 240 - i,
        {
            self.pixel.set(i, TRANSPARENT);
            i = i + 1;
        }

    }
}

} // verus!
