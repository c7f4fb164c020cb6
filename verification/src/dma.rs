//! The four DMA channels.
use vstd::prelude::*;
use crate::util::{add32, sub32, bits_spec, bit_spec, BitField};
use crate::memory::{Memory, MemView, view_wf, region_of, region_size, offset_spec};
use crate::memory::{lemma_store_wf, lemma_store32_other_word, lemma_store32_load32_mirror};
use crate::memory::{lemma_store16_other_half, lemma_store16_load16};

verus! {

/// The four channels.
pub struct DMA {
    pub channel: Vec<DMAChannel>,
}

/// One channel.
#[derive(Clone, Copy, Debug)]
pub struct DMAChannel {
    /// DMA index 0 - 3.
    pub index: usize,
    /// Internal register of the current source address.
    pub src: u32,
    /// Internal register of the current destination address.
    pub dst: u32,
    /// Number of words or halfwords to copy.
    pub count: u16,
    /// Control bits: 6-5 destination control, 8-7 source control, 9 repeat,
    /// 10 word transfer, 11 DRQ, 13-12 start timing, 14 IRQ, 15 enable.
    pub control: u16,
}

/// Address increment of a transfer unit for address control `cnt`
/// (0 increment, 1 decrement, 2 fixed, 3 increment and reload).
pub open spec fn increment_spec(word_f: bool, cnt: u32) -> u32 {
    let inc: u32 = if word_f { 4 } else { 2 };
    if cnt == 1 {
        sub32(0, inc)
    } else if cnt == 2 {
        0
    } else {
        inc
    }
}

/// `a` after `n` steps of `inc`, modulo 2^32.
pub open spec fn advance(a: u32, inc: u32, n: nat) -> u32
    decreases n,
{
    if n == 0 {
        a
    } else {
        advance(add32(a, inc), inc, (n - 1) as nat)
    }
}

/// Memory after copying `n` halfwords from `src` to `dst`, stepping the
/// addresses by `si` and `di`.
pub open spec fn copy16(m: MemView, src: u32, dst: u32, si: u32, di: u32, n: nat) -> MemView
    decreases n,
{
    if n == 0 {
        m
    } else {
        copy16(m.store16(dst, m.load16(src)), add32(src, si), add32(dst, di), si, di, (n - 1) as nat)
    }
}

/// Memory after copying `n` words from `src` to `dst`.
pub open spec fn copy32(m: MemView, src: u32, dst: u32, si: u32, di: u32, n: nat) -> MemView
    decreases n,
{
    if n == 0 {
        m
    } else {
        copy32(m.store32(dst, m.load32(src)), add32(src, si), add32(dst, di), si, di, (n - 1) as nat)
    }
}

impl DMAChannel {
    /// Start timing, bits 13-12 of the control.
    pub open spec fn start_spec(&self) -> u32 {
        bits_spec(self.control as u32, 13, 12)
    }

    /// Enable flag, bit 15.
    pub open spec fn enable_spec(&self) -> bool {
        bit_spec(self.control as u32, 15)
    }

    /// Word transfer flag, bit 10.
    pub open spec fn word_spec(&self) -> bool {
        bit_spec(self.control as u32, 10)
    }

    /// Repeat flag, bit 9.
    pub open spec fn repeat_spec(&self) -> bool {
        bit_spec(self.control as u32, 9)
    }

    /// Source address control, bits 8-7.
    pub open spec fn srccnt_spec(&self) -> u32 {
        bits_spec(self.control as u32, 8, 7)
    }

    /// Destination address control, bits 6-5.
    pub open spec fn dstcnt_spec(&self) -> u32 {
        bits_spec(self.control as u32, 6, 5)
    }

    /// Memory after this channel's transfer.
    pub open spec fn copied(&self, m: MemView) -> MemView {
        let si = increment_spec(self.word_spec(), self.srccnt_spec());
        let di = increment_spec(self.word_spec(), self.dstcnt_spec());
        if self.word_spec() {
            copy32(m, self.src, self.dst, si, di, self.count as nat)
        } else {
            copy16(m, self.src, self.dst, si, di, self.count as nat)
        }
    }

    /// The channel after its transfer: addresses moved on (the destination
    /// stays with "increment and reload").
    pub open spec fn moved(&self) -> DMAChannel {
        let si = increment_spec(self.word_spec(), self.srccnt_spec());
        let di = increment_spec(self.word_spec(), self.dstcnt_spec());
        DMAChannel {
            src: advance(self.src, si, self.count as nat),
            dst: if self.dstcnt_spec() != 3 { advance(self.dst, di, self.count as nat) } else { self.dst },
            ..*self
        }
    }

    /// Channel and memory after `transfer`: unchanged when the channel is
    /// disabled or has the special start timing; otherwise the data is
    /// copied, the addresses move on, and a transfer that does not repeat
    /// clears the enable bit.
    pub open spec fn transfer_spec(&self, m: MemView) -> (DMAChannel, MemView) {
        if self.start_spec() == 3 || !self.enable_spec() {
            (*self, m)
        } else {
            (
                DMAChannel {
                    control: if self.repeat_spec() { self.control } else { self.control & !0x8000u16 },
                    ..self.moved()
                },
                self.copied(m),
            )
        }
    }

    /// A channel with every register clear.
    pub fn new() -> (r: Self)
        ensures
            r == (DMAChannel { index: 0, src: 0, dst: 0, count: 0, control: 0 }),
    {
        DMAChannel { index: 0, src: 0, dst: 0, count: 0, control: 0 }
    }

    /// Start timing.
    pub fn start(&self) -> (r: u32)
        ensures
            r == self.start_spec(),
            r < 4,
    {
        self.control.bits(13, 12)
    }

    /// Enable flag.
    pub fn enable(&self) -> (r: bool)
        ensures
            r == self.enable_spec(),
    {
        self.control.bit(15)
    }

    /// Word transfer flag.
    pub fn word_f(&self) -> (r: bool)
        ensures
            r == self.word_spec(),
    {
        self.control.bit(10)
    }

    /// Repeat flag.
    pub fn repeat_f(&self) -> (r: bool)
        ensures
            r == self.repeat_spec(),
    {
        self.control.bit(9)
    }

    /// Source address control.
    pub fn srccnt(&self) -> (r: u32)
        ensures
            r == self.srccnt_spec(),
            r < 4,
    {
        self.control.bits(8, 7)
    }

    /// Destination address control.
    pub fn dstcnt(&self) -> (r: u32)
        ensures
            r == self.dstcnt_spec(),
            r < 4,
    {
        self.control.bits(6, 5)
    }

    /// Run the transfer when the channel is enabled and its start timing
    /// is not the special one; a transfer that does not repeat clears the
    /// enable bit.
    pub fn transfer(&mut self, memory: &mut Memory)
        requires
            old(memory).wf(),
        ensures
            final(memory).wf(),
            (*final(self), final(memory)@) == old(self).transfer_spec(old(memory)@),
    {
        if self.start() == 3 {
            return ;
        }
        if !self.enable() {
            return ;
        }
        if self.word_f() {
            self.transfer32(memory);
        } else {
            self.transfer16(memory);
        }
        if !self.repeat_f() {
            self.control = self.control & !0x8000u16;
        }
    }

    /// Copy `count` halfwords.
    pub fn transfer16(&mut self, memory: &mut Memory)
        requires
            old(memory).wf(),
        ensures
            final(memory).wf(),
            final(memory)@ == copy16(
                old(memory)@,
                old(self).src,
                old(self).dst,
                increment_spec(old(self).word_spec(), old(self).srccnt_spec()),
                increment_spec(old(self).word_spec(), old(self).dstcnt_spec()),
                old(self).count as nat,
            ),
            *final(self) == old(self).moved(),
    {
        let mut src = self.src;
        let mut dst = self.dst;
        let srcinc = Self::get_increment(self.word_f(), self.srccnt());
        let dstinc = Self::get_increment(self.word_f(), self.dstcnt());
        let n = self.count;
        let mut i: u16 = 0;
        while i < n
            invariant
                i <= n,
                memory.wf(),
                copy16(memory@, src, dst, srcinc, dstinc, (n - i) as nat) == copy16(
                    old(memory)@,
                    old(self).src,
                    old(self).dst,
                    srcinc,
                    dstinc,
                    n as nat,
                ),
                advance(src, srcinc, (n - i) as nat) == advance(old(self).src, srcinc, n as nat),
                advance(dst, dstinc, (n - i) as nat) == advance(old(self).dst, dstinc, n as nat),
            decreases n - i,
        {
            let v = memory.load16(src);
            memory.store16(dst, v);
            src = src.wrapping_add(srcinc);
            dst = dst.wrapping_add(dstinc);
            i = i + 1;
        }
        self.src = src;
        if self.dstcnt() != 3 {
            self.dst = dst;
        }
    }

    /// Copy `count` words.
    pub fn transfer32(&mut self, memory: &mut Memory)
        requires
            old(memory).wf(),
        ensures
            final(memory).wf(),
            final(memory)@ == copy32(
                old(memory)@,
                old(self).src,
                old(self).dst,
                increment_spec(old(self).word_spec(), old(self).srccnt_spec()),
                increment_spec(old(self).word_spec(), old(self).dstcnt_spec()),
                old(self).count as nat,
            ),
            *final(self) == old(self).moved(),
    {
        let mut src = self.src;
        let mut dst = self.dst;
        let srcinc = Self::get_increment(self.word_f(), self.srccnt());
        let dstinc = Self::get_increment(self.word_f(), self.dstcnt());
        let n = self.count;
        let mut i: u16 = 0;
        while i < n
            invariant
                i <= n,
                memory.wf(),
                copy32(memory@, src, dst, srcinc, dstinc, (n - i) as nat) == copy32(
                    old(memory)@,
                    old(self).src,
                    old(self).dst,
                    srcinc,
                    dstinc,
                    n as nat,
                ),
                advance(src, srcinc, (n - i) as nat) == advance(old(self).src, srcinc, n as nat),
                advance(dst, dstinc, (n - i) as nat) == advance(old(self).dst, dstinc, n as nat),
            decreases n - i,
        {
            let v = memory.load32(src);
            memory.store32(dst, v);
            src = src.wrapping_add(srcinc);
            dst = dst.wrapping_add(dstinc);
            i = i + 1;
        }
        self.src = src;
        if self.dstcnt() != 3 {
            self.dst = dst;
        }
    }

    /// Address increment per transfer unit for address control `cnt`.
    pub fn get_increment(word_f: bool, cnt: u32) -> (r: u32)
        requires
            cnt < 4,
        ensures
            r == increment_spec(word_f, cnt),
    {
        let inc: u32 = if word_f {
            4
        } else {
            2
        };
        match cnt {
            0b00 => inc,
            0b01 => 0u32.wrapping_sub(inc),
            0b10 => 0,
            _ => inc,
        }
    }
}

/// Channels and memory after channels 0 to `i` - 1 ran their transfers in turn.
pub open spec fn request_spec(ch: Seq<DMAChannel>, m: MemView, i: nat) -> (Seq<DMAChannel>, MemView)
    decreases i,
{
    if i == 0 {
        (ch, m)
    } else {
        let t = request_spec(ch, m, (i - 1) as nat);
        let r = t.0[i - 1].transfer_spec(t.1);
        (t.0.update(i - 1, r.0), r.1)
    }
}

impl DMA {
    /// Four channels, numbered, with clear registers.
    pub open spec fn wf(&self) -> bool {
        &&& self.channel@.len() == 4
        &&& forall|i: int| 0 <= i < 4 ==> (#[trigger] self.channel@[i]).index == i
    }

    /// Four channels with clear registers.
    pub fn new() -> (d: Self)
        ensures
            d.wf(),
            forall|i: int|
                0 <= i < 4 ==> #[trigger] d.channel@[i] == (DMAChannel {
                    index: i as usize,
                    src: 0,
                    dst: 0,
                    count: 0,
                    control: 0,
                }),
    {
        let mut channel: Vec<DMAChannel> = Vec::new();
        let mut i: usize = 0;
        while i < 4
            invariant
                i <= 4,
                channel@.len() == i,
                forall|j: int|
                    0 <= j < i ==> #[trigger] channel@[j] == (DMAChannel {
                        index: j as usize,
                        src: 0,
                        dst: 0,
                        count: 0,
                        control: 0,
                    }),
            decreases 4 - i,
        {
            let mut c = DMAChannel::new();
            c.index = i;
            channel.push(c);
            i = i + 1;
        }
        DMA { channel }
    }

    /// Run the transfers of the four channels in turn.
    pub fn request(&mut self, memory: &mut Memory)
        requires
            old(self).wf(),
            old(memory).wf(),
        ensures
            final(self).wf(),
            final(memory).wf(),
            (final(self).channel@, final(memory)@) == request_spec(old(self).channel@, old(memory)@, 4),
    {
        let mut i: usize = 0;
        while i < 4
            invariant
                i <= 4,
                self.wf(),
                memory.wf(),
                (self.channel@, memory@) == request_spec(old(self).channel@, old(memory)@, i as nat),
            decreases 4 - i,
        {
            let mut c = self.channel[i];
            c.transfer(memory);
            self.channel.set(i, c);
            i = i + 1;
        }
    }
}

/// `a` and `b` address different words of memory.
pub open spec fn other_words(a: u32, b: u32) -> bool {
    region_of(a) != region_of(b) || offset_spec(a, 0x00ff_fffc) != offset_spec(b, 0x00ff_fffc)
}

/// `a` and `b` address different halfwords of memory.
pub open spec fn other_halves(a: u32, b: u32) -> bool {
    region_of(a) != region_of(b) || offset_spec(a, 0x00ff_fffe) != offset_spec(b, 0x00ff_fffe)
}

/// A word store at aligned address `a` lands in memory.
pub open spec fn word_storable(a: u32) -> bool {
    &&& 1 <= region_of(a) <= 6
    &&& a % 4 == 0
    &&& offset_spec(a, 0x00ff_fffc) + 4 <= region_size(region_of(a))
}

/// A halfword store at address `a` lands in memory.
pub open spec fn half_storable(a: u32) -> bool {
    &&& 1 <= region_of(a) <= 6
    &&& offset_spec(a, 0x00ff_fffe) + 2 <= region_size(region_of(a))
}

/// A word copy leaves alone every word that it does not write.
proof fn lemma_copy32_frame(m: MemView, src: u32, dst: u32, si: u32, di: u32, n: nat, w: u32)
    requires
        view_wf(m),
        forall|x: nat| x < n ==> other_words(#[trigger] advance(dst, di, x), w),
    ensures
        copy32(m, src, dst, si, di, n).load32(w) == m.load32(w),
    decreases n,
{
    if n > 0 {
        let m1 = m.store32(dst, m.load32(src));
        assert(other_words(advance(dst, di, 0), w));
        lemma_store32_other_word(m, dst, w, m.load32(src));
        lemma_store_wf(m, dst, m.load32(src));
        assert forall|x: nat| x < n - 1 implies other_words(#[trigger] advance(add32(dst, di), di, x), w) by {
            assert(advance(dst, di, x + 1) == advance(add32(dst, di), di, x));
        }
        lemma_copy32_frame(m1, add32(src, si), add32(dst, di), si, di, (n - 1) as nat, w);
    }
}

/// A word DMA copy whose destination words are distinct, land in memory
/// and do not overlap its source words leaves at destination word `k` the
/// source word `k`.
pub proof fn lemma_copy32_copies(m: MemView, src: u32, dst: u32, si: u32, di: u32, n: nat, k: nat)
    requires
        view_wf(m),
        k < n,
        forall|x: nat| x < n ==> word_storable(#[trigger] advance(dst, di, x)),
        forall|x: nat, y: nat| x < n && y < n ==> other_words(#[trigger] advance(dst, di, x), #[trigger] advance(src, si, y)),
        forall|x: nat, y: nat| x < y < n ==> other_words(#[trigger] advance(dst, di, x), #[trigger] advance(dst, di, y)),
    ensures
        copy32(m, src, dst, si, di, n).load32(advance(dst, di, k)) == m.load32(advance(src, si, k)),
    decreases n,
{
    let v = m.load32(src);
    let m1 = m.store32(dst, v);
    lemma_store_wf(m, dst, v);
    let s1 = add32(src, si);
    let d1 = add32(dst, di);
    assert forall|x: nat| #[trigger] advance(d1, di, x) == advance(dst, di, x + 1) by {}
    assert forall|x: nat| #[trigger] advance(s1, si, x) == advance(src, si, x + 1) by {}
    if k == 0 {
        assert(word_storable(advance(dst, di, 0)));
        lemma_store32_load32_mirror(m, dst, dst, v);
        assert forall|x: nat| x < n - 1 implies other_words(#[trigger] advance(d1, di, x), dst) by {
            assert(other_words(advance(dst, di, 0), advance(dst, di, x + 1)));
        }
        lemma_copy32_frame(m1, s1, d1, si, di, (n - 1) as nat, dst);
    } else {
        assert(other_words(advance(dst, di, 0), advance(src, si, k)));
        lemma_store32_other_word(m, dst, advance(src, si, k), v);
        assert forall|x: nat| x < n - 1 implies word_storable(#[trigger] advance(d1, di, x)) by {
            assert(word_storable(advance(dst, di, x + 1)));
        }
        assert forall|x: nat, y: nat| x < n - 1 && y < n - 1 implies other_words(
            #[trigger] advance(d1, di, x),
            #[trigger] advance(s1, si, y),
        ) by {
            assert(other_words(advance(dst, di, x + 1), advance(src, si, y + 1)));
        }
        assert forall|x: nat, y: nat| x < y < n - 1 implies other_words(
            #[trigger] advance(d1, di, x),
            #[trigger] advance(d1, di, y),
        ) by {
            assert(other_words(advance(dst, di, x + 1), advance(dst, di, y + 1)));
        }
        lemma_copy32_copies(m1, s1, d1, si, di, (n - 1) as nat, (k - 1) as nat);
        assert(advance(d1, di, (k - 1) as nat) == advance(dst, di, k));
        assert(advance(s1, si, (k - 1) as nat) == advance(src, si, k));
    }
}

/// A halfword copy leaves alone every halfword that it does not write.
proof fn lemma_copy16_frame(m: MemView, src: u32, dst: u32, si: u32, di: u32, n: nat, w: u32)
    requires
        view_wf(m),
        forall|x: nat| x < n ==> other_halves(#[trigger] advance(dst, di, x), w),
    ensures
        copy16(m, src, dst, si, di, n).load16(w) == m.load16(w),
    decreases n,
{
    if n > 0 {
        let m1 = m.store16(dst, m.load16(src));
        assert(other_halves(advance(dst, di, 0), w));
        lemma_store16_other_half(m, dst, w, m.load16(src));
        lemma_store_wf(m, dst, m.load16(src) as u32);
        assert forall|x: nat| x < n - 1 implies other_halves(#[trigger] advance(add32(dst, di), di, x), w) by {
            assert(advance(dst, di, x + 1) == advance(add32(dst, di), di, x));
        }
        lemma_copy16_frame(m1, add32(src, si), add32(dst, di), si, di, (n - 1) as nat, w);
    }
}

/// A halfword DMA copy whose destination halfwords are distinct, land in
/// memory and do not overlap its source halfwords leaves at destination
/// halfword `k` the source halfword `k`.
pub proof fn lemma_copy16_copies(m: MemView, src: u32, dst: u32, si: u32, di: u32, n: nat, k: nat)
    requires
        view_wf(m),
        k < n,
        forall|x: nat| x < n ==> half_storable(#[trigger] advance(dst, di, x)),
        forall|x: nat, y: nat| x < n && y < n ==> other_halves(#[trigger] advance(dst, di, x), #[trigger] advance(src, si, y)),
        forall|x: nat, y: nat| x < y < n ==> other_halves(#[trigger] advance(dst, di, x), #[trigger] advance(dst, di, y)),
    ensures
        copy16(m, src, dst, si, di, n).load16(advance(dst, di, k)) == m.load16(advance(src, si, k)),
    decreases n,
{
    let v = m.load16(src);
    let m1 = m.store16(dst, v);
    lemma_store_wf(m, dst, v as u32);
    let s1 = add32(src, si);
    let d1 = add32(dst, di);
    assert forall|x: nat| #[trigger] advance(d1, di, x) == advance(dst, di, x + 1) by {}
    assert forall|x: nat| #[trigger] advance(s1, si, x) == advance(src, si, x + 1) by {}
    if k == 0 {
        assert(half_storable(advance(dst, di, 0)));
        lemma_store16_load16(m, dst, v);
        assert forall|x: nat| x < n - 1 implies other_halves(#[trigger] advance(d1, di, x), dst) by {
            assert(other_halves(advance(dst, di, 0), advance(dst, di, x + 1)));
        }
        lemma_copy16_frame(m1, s1, d1, si, di, (n - 1) as nat, dst);
    } else {
        assert(other_halves(advance(dst, di, 0), advance(src, si, k)));
        lemma_store16_other_half(m, dst, advance(src, si, k), v);
        assert forall|x: nat| x < n - 1 implies half_storable(#[trigger] advance(d1, di, x)) by {
            assert(half_storable(advance(dst, di, x + 1)));
        }
        assert forall|x: nat, y: nat| x < n - 1 && y < n - 1 implies other_halves(
            #[trigger] advance(d1, di, x),
            #[trigger] advance(s1, si, y),
        ) by {
            assert(other_halves(advance(dst, di, x + 1), advance(src, si, y + 1)));
        }
        assert forall|x: nat, y: nat| x < y < n - 1 implies other_halves(
            #[trigger] advance(d1, di, x),
            #[trigger] advance(d1, di, y),
        ) by {
            assert(other_halves(advance(dst, di, x + 1), advance(dst, di, y + 1)));
        }
        lemma_copy16_copies(m1, s1, d1, si, di, (n - 1) as nat, (k - 1) as nat);
        assert(advance(d1, di, (k - 1) as nat) == advance(dst, di, k));
        assert(advance(s1, si, (k - 1) as nat) == advance(src, si, k));
    }
}

} // verus!
