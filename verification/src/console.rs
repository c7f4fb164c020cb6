//! The console: processor, picture processor, DMA, timers, interrupt
//! controller and memory, run frame by frame.
use vstd::prelude::*;
use crate::cpu::CPU;
use crate::ppu::PPU;
use crate::dma::DMA;
use crate::timer::Timers;
use crate::interrupt::IRQController;
use crate::memory::{Memory, MemView};
use crate::memory::ioreg::io_stored;
use crate::memory::ioreg::ppu::{ppu_io_written, bgs_io_written};
use crate::ppu::{hdrawn, hblanked, vblanked};
use crate::timer::{timers_run_spec, timers_irqs, request_chain};

verus! {

/// The devices of the console.
pub struct Console {
    pub cpu: CPU,
    pub ppu: PPU,
    pub dma: DMA,
    pub timers: Timers,
    pub irqcnt: IRQController,
    pub memory: Memory,
}

/// Console `n` is `o` after the devices take the write of `value` to IO
/// register `address`: the picture processor's display registers, then
/// the memory side devices.
pub open spec fn io_applied(n: Console, o: Console, address: u32, value: u16) -> bool {
    let r = address & 0xffff;
    &&& n.ppu == PPU { background: n.ppu.background, ..ppu_io_written(o.ppu, r, value) }
    &&& n.ppu.background@ == bgs_io_written(o.ppu.background@, r, value)
    &&& io_stored(
        n.memory@,
        o.memory@,
        n.cpu,
        o.cpu,
        n.dma.channel@,
        o.dma.channel@,
        n.timers.timer@,
        o.timers.timer@,
        n.irqcnt,
        o.irqcnt,
        address,
        value,
    )
}

/// `s` is the sequence of consoles as the writes `w` are applied in order.
pub open spec fn io_chain(s: Seq<Console>, w: Seq<(u32, u16)>) -> bool {
    &&& s.len() == w.len() + 1
    &&& forall|k: int| 0 <= k < w.len() ==> #[trigger] io_applied(s[k + 1], s[k], w[k].0, w[k].1)
}

/// `n` is `o` after the IO register writes logged by the memory are
/// handed to the devices in order (the log is emptied first).
pub open spec fn io_drained(n: Console, o: Console) -> bool {
    exists|s: Seq<Console>|
        {
            &&& #[trigger] io_chain(s, o.memory@.io_writes)
            &&& s[0].memory@ == (MemView { io_writes: Seq::empty(), ..o.memory@ })
            &&& s[0].cpu == o.cpu && s[0].ppu == o.ppu && s[0].dma == o.dma
            &&& s[0].timers == o.timers && s[0].irqcnt == o.irqcnt
            &&& s.last() == n
        }
}

/// `n` is `o` after one instruction, with the IO register writes it made
/// handed to the devices.
pub open spec fn console_stepped(n: Console, o: Console) -> bool {
    exists|c1: Console|
        {
            &&& (c1.cpu@, c1.memory@) == crate::cpu::cpu_step_spec(o.cpu@, o.memory@)
            &&& c1.ppu == o.ppu && c1.dma == o.dma && c1.timers == o.timers
            &&& c1.irqcnt == o.irqcnt
            &&& #[trigger] io_drained(n, c1)
        }
}

/// `s` is the sequence of consoles as instructions run one by one from
/// `s[0]` while the cycle counter is below `stop`, for at most `bound`
/// instructions.
pub open spec fn stepped_until(s: Seq<Console>, stop: u64, bound: nat) -> bool {
    &&& 1 <= s.len() <= bound + 1
    &&& forall|k: int| 0 <= k < s.len() - 1 ==> (#[trigger] s[k]).cpu.counter < stop
    &&& forall|k: int| 0 <= k < s.len() - 1 ==> #[trigger] console_stepped(s[k + 1], s[k])
    &&& s.last().cpu.counter >= stop || s.len() == bound + 1
}

/// `n` is `o` after the processor runs until `cycles` more cycles have
/// elapsed (each instruction costs at least one cycle; nothing runs when
/// the cycle counter cannot count that far), each instruction's IO
/// register writes handed to the devices at once, and then the timers
/// advance by `cycles` cycles.
pub open spec fn ran_for(n: Console, o: Console, cycles: u32) -> bool {
    exists|s: Seq<Console>|
        #![trigger s.last()]
        {
            &&& s[0] == o
            &&& o.cpu.counter <= u64::MAX - cycles ==> stepped_until(s, (o.cpu.counter + cycles) as u64, cycles as nat)
            &&& o.cpu.counter > u64::MAX - cycles ==> s.len() == 1
            &&& n.timers.timer@ == timers_run_spec(s.last().timers.timer@, cycles, 0, false)
            &&& exists|r: Seq<(IRQController, CPU, MemView)>|
                {
                    &&& #[trigger] request_chain(r, timers_irqs(s.last().timers.timer@, cycles, 0, false))
                    &&& r[0] == (s.last().irqcnt, s.last().cpu, s.last().memory@)
                    &&& r.last() == (n.irqcnt, n.cpu, n.memory@)
                }
            &&& n.ppu == s.last().ppu && n.dma == s.last().dma
        }
}

/// Step `k` of a frame takes `o` to `n`: for each of the 160 drawn lines,
/// drawing, 960 cycles, horizontal blank, 272 cycles; then for each of the
/// 68 lines of the vertical blank, its start and 1232 cycles.
pub open spec fn frame_step(n: Console, o: Console, k: int) -> bool {
    let same = n.dma == o.dma && n.timers == o.timers;
    if k < 640 {
        if k % 4 == 0 {
            hdrawn(n.ppu, o.ppu, n.irqcnt, o.irqcnt, n.cpu, o.cpu, n.memory, o.memory) && same
        } else if k % 4 == 1 {
            ran_for(n, o, 960)
        } else if k % 4 == 2 {
            hblanked(n.ppu, o.ppu, n.irqcnt, o.irqcnt, n.cpu, o.cpu, n.memory@, o.memory@) && same
        } else {
            ran_for(n, o, 272)
        }
    } else if (k - 640) % 2 == 0 {
        vblanked(n.ppu, o.ppu, n.irqcnt, o.irqcnt, n.cpu, o.cpu, n.memory@, o.memory@) && same
    } else {
        ran_for(n, o, 1232)
    }
}

/// `s` is the sequence of consoles through the steps of a frame.
pub open spec fn frame_chain(s: Seq<Console>) -> bool {
    &&& s.len() == 777
    &&& forall|k: int| 0 <= k < 776 ==> #[trigger] frame_step(s[k + 1], s[k], k)
}

impl Console {
    /// Every device is well formed.
    pub open spec fn wf(&self) -> bool {
        &&& self.memory.wf()
        &&& self.ppu.wf()
        &&& self.dma.wf()
        &&& self.timers.wf()
    }

    /// Every device after reset.
    pub fn new() -> (c: Self)
        ensures
            c.wf(),
            c.cpu.is_reset(),
            c.ppu.is_reset(),
            forall|i: int|
                0 <= i < 4 ==> #[trigger] c.dma.channel@[i] == (crate::dma::DMAChannel {
                    index: i as usize,
                    src: 0,
                    dst: 0,
                    count: 0,
                    control: 0,
                }),
            forall|i: int| 0 <= i < 4 ==> #[trigger] c.timers.timer@[i] == crate::timer::Timer::new_spec(),
            c.irqcnt.ime == 0 && c.irqcnt.ie == 0 && c.irqcnt.irf == 0,
            c.memory.is_reset(),
    {
        Console {
            cpu: CPU::new(),
            ppu: PPU::new(),
            dma: DMA::new(),
            timers: Timers::new(),
            irqcnt: IRQController::new(),
            memory: Memory::new(),
        }
    }

    /// Hand the IO register writes logged by the memory to the devices,
    /// oldest first. Writes that the devices themselves log meanwhile (a
    /// DMA transfer into IO RAM) wait for the next call.
    pub fn apply_io_writes(&mut self)
        requires
            old(self).wf(),
        ensures
            final(self).wf(),
            final(self).ppu.vcount == old(self).ppu.vcount,
            io_drained(*final(self), *old(self)),
    {
        let mut writes: Vec<(u32, u16)> = Vec::new();
        std::mem::swap(&mut writes, &mut self.memory.io_writes);
        let ghost mut s: Seq<Console> = seq![*self];
        let mut k: usize = 0;
        while k < writes.len()
            invariant
                self.wf(),
                self.ppu.vcount == old(self).ppu.vcount,
                writes@ == old(self).memory@.io_writes,
                k <= writes.len(),
                io_chain(s, writes@.take(k as int)),
                s[0].memory@ == (MemView { io_writes: Seq::empty(), ..old(self).memory@ }),
                s[0].cpu == old(self).cpu && s[0].ppu == old(self).ppu && s[0].dma == old(self).dma,
                s[0].timers == old(self).timers && s[0].irqcnt == old(self).irqcnt,
                s.last() == *self,
            decreases writes.len() - k,
        {
            let (address, value) = writes[k];
            let ghost before = *self;
            self.ppu.io_write(address, value);
            self.memory.ioram_store16(
                address,
                value,
                &mut self.cpu,
                &mut self.dma,
                &mut self.timers,
                &mut self.irqcnt,
            );
            proof {
                let s2 = s.push(*self);
                assert forall|j: int| 0 <= j < k + 1 implies #[trigger] io_applied(
                    s2[j + 1],
                    s2[j],
                    writes@.take(k + 1)[j].0,
                    writes@.take(k + 1)[j].1,
                ) by {}
                s = s2;
            }
            k = k + 1;
        }
        proof {
            assert(writes@.take(writes@.len() as int) =~= writes@);
        }
    }

    /// Execute one instruction, then hand the IO register writes to the
    /// devices.
    pub fn step(&mut self)
        requires
            old(self).wf(),
        ensures
            final(self).wf(),
            final(self).ppu.vcount == old(self).ppu.vcount,
            console_stepped(*final(self), *old(self)),
    {
        self.cpu.step(&mut self.memory);
        let ghost c1 = *self;
        self.apply_io_writes();
        proof {
            assert(io_drained(*self, c1));
        }
    }

    /// Run instructions one by one until `cycles` more cycles have elapsed
    /// (unless the cycle counter cannot count that far), each followed by
    /// its IO register writes, then advance the timers by as many cycles.
    fn run_for(&mut self, cycles: u32)
        requires
            old(self).wf(),
            cycles <= 0x1000,
        ensures
            final(self).wf(),
            final(self).ppu.vcount == old(self).ppu.vcount,
            ran_for(*final(self), *old(self), cycles),
    {
        let ghost mut s: Seq<Console> = seq![*self];
        if self.cpu.counter <= u64::MAX - cycles as u64 {
            let stop = self.cpu.counter + cycles as u64;
            let mut n: u32 = 0;
            while n < cycles && self.cpu.counter < stop
                invariant
                    self.wf(),
                    self.ppu.vcount == old(self).ppu.vcount,
                    n <= cycles,
                    stop == old(self).cpu.counter + cycles,
                    s.len() == n + 1,
                    s[0] == *old(self),
                    s.last() == *self,
                    forall|k: int| 0 <= k < s.len() - 1 ==> (#[trigger] s[k]).cpu.counter < stop,
                    forall|k: int| 0 <= k < s.len() - 1 ==> #[trigger] console_stepped(s[k + 1], s[k]),
                decreases cycles - n,
            {
                let ghost before = *self;
                self.step();
                proof {
                    let s2 = s.push(*self);
                    assert forall|k: int| 0 <= k < s2.len() - 1 implies #[trigger] console_stepped(
                        s2[k + 1],
                        s2[k],
                    ) by {
                        if k < s.len() - 1 {
                            assert(s2[k] == s[k] && s2[k + 1] == s[k + 1]);
                        } else {
                            assert(s2[k] == before && s2[k + 1] == *self);
                        }
                    }
                    assert forall|k: int| 0 <= k < s2.len() - 1 implies (#[trigger] s2[k]).cpu.counter < stop by {
                        if k < s.len() - 1 {
                            assert(s2[k] == s[k]);
                        } else {
                            assert(s2[k] == before);
                        }
                    }
                    s = s2;
                }
                n = n + 1;
            }
            proof {
                assert(stepped_until(s, stop, cycles as nat));
            }
        }
        let ghost c2 = *self;
        self.timers.run(cycles, &mut self.irqcnt, &mut self.cpu, &mut self.memory);
        proof {
            assert(s.last() == c2);
        }
    }

    /// Render a frame: 160 lines of drawing (960 cycles) and horizontal
    /// blank (272 cycles), then 68 lines of vertical blank (1232 cycles).
    pub fn step_frame(&mut self)
        requires
            old(self).wf(),
            old(self).ppu.vcount == 227,
        ensures
            final(self).wf(),
            final(self).ppu.vcount == 227,
            exists|s: Seq<Console>| #[trigger] frame_chain(s) && s[0] == *old(self) && s.last() == *final(self),
    {
        let ghost mut s: Seq<Console> = seq![*self];
        let mut line: u16 = 0;
        while line < 160
            invariant
                self.wf(),
                line <= 160,
                self.ppu.vcount == if line == 0 { 227 } else { (line - 1) as u16 },
                s.len() == 4 * line + 1,
                forall|k: int| 0 <= k < 4 * line ==> #[trigger] frame_step(s[k + 1], s[k], k),
                s[0] == *old(self),
                s.last() == *self,
            decreases 160 - line,
        {
            let ghost c0 = *self;
            self.ppu.hdraw(&mut self.irqcnt, &mut self.cpu, &mut self.memory);
            let ghost c1 = *self;
            self.run_for(960);
            let ghost c2 = *self;
            self.ppu.hblank(&mut self.irqcnt, &mut self.cpu, &mut self.memory);
            let ghost c3 = *self;
            self.run_for(272);
            proof {
                let b = 4 * line as int;
                let s2 = s.push(c1).push(c2).push(c3).push(*self);



                assert forall|k: int| 0 <= k < b + 4 implies #[trigger] frame_step(s2[k + 1], s2[k], k) by {}
                s = s2;
            }
            line = line + 1;
        }
        let mut line: u16 = 0;
        while line < 68
            invariant
                self.wf(),
                line <= 68,
                self.ppu.vcount == 159 + line,
                s.len() == 641 + 2 * line,
                forall|k: int| 0 <= k < 640 + 2 * line ==> #[trigger] frame_step(s[k + 1], s[k], k),
                s[0] == *old(self),
                s.last() == *self,
            decreases 68 - line,
        {
            let ghost c0 = *self;
            self.ppu.vblank(&mut self.irqcnt, &mut self.cpu, &mut self.memory);
            let ghost c1 = *self;
            self.run_for(1232);
            proof {
                let b = 640 + 2 * line as int;
                let s2 = s.push(c1).push(*self);

                assert forall|k: int| 0 <= k < b + 2 implies #[trigger] frame_step(s2[k + 1], s2[k], k) by {}
                s = s2;
            }
            line = line + 1;
        }
        assert(frame_chain(s));
    }
}

} // verus!
