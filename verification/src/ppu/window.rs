//! Window masks: for each pixel of a line, which layers may be drawn.
use vstd::prelude::*;
use crate::util::{bit_spec, BitField};
use crate::memory::{Memory, le16};
use crate::ppu::TRANSPARENT;
use crate::ppu::layer::Layer;

verus! {

/// Window mask of a line: bit `i` of entry `x` lets layer `i` (0 - 3
/// backgrounds, 4 sprites) be drawn at pixel `x`.
pub struct Window {
    pub cnt: Vec<u8>,
}

/// Whether layer `index` may be drawn at pixel `x` (only pixels 0 - 239
/// are on screen).
pub open spec fn display_flag(cnt: Seq<u8>, x: u32, index: u32) -> bool {
    x < 240 && bit_spec(cnt[x as int] as u32, index)
}

/// Whether a window with vertical bounds `y1` (top) and `y2` (bottom,
/// exclusive) covers line `vcount`; the bounds wrap when `y1 > y2`.
pub open spec fn covers_line(y1: u32, y2: u32, vcount: u32) -> bool {
    if y1 > y2 {
        vcount < y2 || vcount >= y1
    } else {
        vcount >= y1 && vcount < y2
    }
}

/// Whether a window with horizontal bounds `x1` (left) and `x2` (right,
/// exclusive) covers pixel `i`; the bounds wrap when `x1 > x2`.
pub open spec fn covers_pixel(x1: u32, x2: u32, i: int) -> bool {
    if x1 > x2 {
        i < x2 || (x1 <= i < 240)
    } else {
        x1 <= i < x2
    }
}

/// Mask after drawing an inside window with bounds `(x1, x2)`, `(y1, y2)`
/// and control `winin` on line `vcount`.
pub open spec fn winin_spec(cnt: Seq<u8>, vcount: u32, h: (u32, u32), v: (u32, u32), winin: u8) -> Seq<u8> {
    if covers_line(v.0, v.1, vcount) {
        Seq::new(cnt.len(), |i: int| if covers_pixel(h.0, h.1, i) { winin } else { cnt[i] })
    } else {
        cnt
    }
}

impl Window {
    /// The mask has an entry for each of 256 pixels.
    pub open spec fn wf(&self) -> bool {
        self.cnt.len() == 256
    }

    /// A mask that lets nothing be drawn.
    pub fn new() -> (w: Self)
        ensures
            w.wf(),
            forall|i: int| 0 <= i < 256 ==> w.cnt[i] == 0,
    {
        Window { cnt: vec![0u8; 256] }
    }

    /// Draw an inside window (0 or 1) on line `vcount`: the pixels it
    /// covers take its WININ control.
    pub fn draw_winin(&mut self, vcount: u32, index: usize, memory: &Memory)
        requires
            old(self).wf(),
            memory.wf(),
            index < 0x7fdd,
        ensures
            final(self).wf(),
            final(self).cnt@ == winin_spec(
                old(self).cnt@,
                vcount,
                memory.winh_spec(index as int),
                memory.winv_spec(index as int),
                memory.winin_spec(index as int),
            ),
    {
        let (x1, x2) = memory.get_winh(index);
        let (y1, y2) = memory.get_winv(index);
        let winin = memory.get_winin(index);
        let covered = if y1 > y2 {
            vcount < y2 || vcount >= y1
        } else {
            vcount >= y1 && vcount < y2
        };
        if covered {
            let ghost old_cnt = self.cnt@;
            let mut i: usize = 0;
            while i < 256
                invariant
                    i <= 256,
                    self.cnt.len() == 256,
                    old_cnt.len() == 256,
                    x1 < 256 && x2 < 256,
                    forall|j: int|
                        0 <= j < i ==> self.cnt[j] == (if covers_pixel(x1, x2, j) {
                            winin
                        } else {
                            old_cnt[j]
                        }),
                    forall|j: int| i <= j < 256 ==> self.cnt[j] == old_cnt[j],
                decreases 256 - i,
            {
                let inside = if x1 > x2 {
                    (i as u32) < x2 || (x1 <= i as u32 && i < 240)
                } else {
                    x1 <= i as u32 && (i as u32) < x2
                };
                if inside {
                    self.cnt.set(i, winin);
                }
                i = i + 1;
            }
        }
    }

    /// Every pixel takes the WINOUT control (outside of the windows).
    pub fn draw_winout(&mut self, memory: &Memory)
        requires
            old(self).wf(),
            memory.wf(),
        ensures
            final(self).wf(),
            final(self).cnt@ == Seq::new(256, |i: int| memory.winout_spec() as u8),
    {
        let winout = #[verifier::truncate] (memory.get_winout() as u8);
        let mut i: usize = 0;
        while i < 256
            invariant
                i <= 256,
                self.cnt.len() == 256,
                winout == memory.winout_spec() as u8,
                forall|j: int| 0 <= j < i ==> self.cnt[j] == winout,
            decreases 256 - i,
        {
            self.cnt.set(i, winout);
            i = i + 1;
        }

    }

    /// The pixels where `layer` (the sprite window layer) is drawn take the
    /// object window control (high byte of WINOUT).
    pub fn draw_objwin(&mut self, layer: &Layer, memory: &Memory)
        requires
            old(self).wf(),
            layer.wf(),
            memory.wf(),
        ensures
            final(self).wf(),
            final(self).cnt@ == Seq::new(
                256,
                |i: int|
                    if i < 240 && layer.pixel[i] != TRANSPARENT {
                        (memory.winout_spec() >> 8u16) as u8
                    } else {
                        old(self).cnt[i]
                    },
            ),
    {
        let objwin = #[verifier::truncate] ((memory.get_winout() >> 8u16) as u8);
        let ghost old_cnt = self.cnt@;
        let mut i: usize = 0;
        while i < 240
            invariant
                i <= 240,
                self.cnt.len() == 256,
                layer.wf(),
                old_cnt.len() == 256,
                objwin == (memory.winout_spec() >> 8u16) as u8,
                forall|j: int|
                    0 <= j < i ==> self.cnt[j] == (if layer.pixel[j] != TRANSPARENT {
                        objwin
                    } else {
                        old_cnt[j]
                    }),
                forall|j: int| i <= j < 256 ==> self.cnt[j] == old_cnt[j],
            decreases 240 - i,
        {
            if layer.pixel[i] != TRANSPARENT {
                self.cnt.set(i, objwin);
            }
            i = i + 1;
        }
        assert(self.cnt@ =~= Seq::new(
            256,
            |i: int|
                if i < 240 && layer.pixel[i] != TRANSPARENT {
                    (memory.winout_spec() >> 8u16) as u8
                } else {
                    old_cnt[i]
                },
        ));
    }

    /// Whether layer `index` may be drawn at pixel `x`.
    pub fn get_display_flag(&self, x: u32, index: u32) -> (r: bool)
        requires
            self.wf(),
            index < 32,
        ensures
            r == display_flag(self.cnt@, x, index),
    {
        if x >= 240 {
            return false;
        }
        (self.cnt[x as usize] as u32).bit(index)
    }

    /// Let every layer be drawn everywhere.
    pub fn clear(&mut self)
        requires
            old(self).wf(),
        ensures
            final(self).wf(),
            final(self).cnt@ == Seq::new(256, |i: int| 0xffu8),
    {
        let mut i: usize = 0;
        while i < 256
            invariant
                i <= 256,
                self.cnt.len() == 256,
                forall|j: int| 0 <= j < i ==> self.cnt[j] == 0xff,
            decreases 256 - i,
        {
            self.cnt.set(i, 0xff);
            i = i + 1;
        }

    }
}

} // verus!
