//! How far the cycle counter moves: per instruction, per interrupt, per
//! run of the processor and over a frame.
use vstd::prelude::*;
use crate::cpu::{CPU, CpuView, tick, cpu_step_spec, interrupt_taken, thumb};
use crate::interrupt::{IRQController, Interrupt, requested};
use crate::memory::MemView;
use crate::timer::request_chain;
use crate::ppu::{line_irq, hdrawn, hblanked, vblanked};
use crate::console::{
    Console,
    io_applied,
    io_chain,
    io_drained,
    console_stepped,
    stepped_until,
    ran_for,
    frame_step,
    frame_chain,
};

verus! {

/// Cycle counter `o` after `d` more cycles (it wraps around).
pub open spec fn after_cycles(o: u64, d: nat) -> u64 {
    ((o + d) % 0x1_0000_0000_0000_0000int) as u64
}

/// The cycle counter went from `o` to `n` by at least `d` cycles.
pub open spec fn counted(n: u64, o: u64, d: nat) -> bool {
    exists|e: nat| e >= d && n == #[trigger] after_cycles(o, e)
}

/// Cycles that step `k` of a frame runs the processor for.
pub open spec fn frame_cycles(k: int) -> nat {
    if k < 640 {
        if k % 4 == 1 {
            960
        } else if k % 4 == 3 {
            272
        } else {
            0
        }
    } else if (k - 640) % 2 == 1 {
        1232
    } else {
        0
    }
}

/// Cycles that the first `j` steps of a frame run the processor for: 1232
/// for each drawn line, 960 more once a line's drawing part has run, then
/// 1232 for each line of the vertical blank.
pub open spec fn cycles_before(j: int) -> nat {
    if j <= 640 {
        ((j / 4) * 1232 + if j % 4 >= 2 { 960int } else { 0 }) as nat
    } else {
        (160 * 1232 + ((j - 640) / 2) * 1232) as nat
    }
}

proof fn lemma_cycles_before_step(j: int)
    requires
        0 <= j < 776,
    ensures
        cycles_before(j + 1) == cycles_before(j) + frame_cycles(j),
{
}

proof fn lemma_tick(o: u64, n: nat)
    requires
        n <= 3,
    ensures
        tick(o, n as int) == after_cycles(o, n),
{
    let x = o + n;
    if x > u64::MAX {
        assert(x % 0x1_0000_0000_0000_0000int == x - 0x1_0000_0000_0000_0000int) by (nonlinear_arith)
            requires
                0x1_0000_0000_0000_0000int <= x < 0x2_0000_0000_0000_0000int,
        ;
    } else {
        vstd::arithmetic::div_mod::lemma_small_mod(x as nat, 0x1_0000_0000_0000_0000nat);
    }
}

proof fn lemma_counted_refl(o: u64)
    ensures
        counted(o, o, 0),
{
    vstd::arithmetic::div_mod::lemma_small_mod(o as nat, 0x1_0000_0000_0000_0000nat);
    assert(o == after_cycles(o, 0));
}

proof fn lemma_counted_trans(n: u64, m: u64, o: u64, a: nat, b: nat)
    requires
        counted(m, o, a),
        counted(n, m, b),
    ensures
        counted(n, o, a + b),
{
    let e1 = choose|e: nat| e >= a && m == #[trigger] after_cycles(o, e);
    let e2 = choose|e: nat| e >= b && n == #[trigger] after_cycles(m, e);
    let big = 0x1_0000_0000_0000_0000int;
    vstd::arithmetic::div_mod::lemma_add_mod_noop_right(e2 as int, o + e1, big);
    assert(n == after_cycles(o, e1 + e2));
}

proof fn lemma_counted_weaken(n: u64, o: u64, a: nat, b: nat)
    requires
        counted(n, o, a),
        b <= a,
    ensures
        counted(n, o, b),
{
    let e = choose|e: nat| e >= a && n == #[trigger] after_cycles(o, e);
    assert(n == after_cycles(o, e));
}

/// Taking an interrupt costs two cycles, or none when IRQs are disabled.
proof fn lemma_interrupt_counted(c: CPU, o: CPU)
    requires
        interrupt_taken(c, o),
    ensures
        counted(c.counter, o.counter, 0),
{
    if c == o {
        lemma_counted_refl(o.counter);
    } else {
        lemma_tick(o.counter, 2);
        assert(c.counter == after_cycles(o.counter, 2));
    }
}

proof fn lemma_requested_counted(
    n: IRQController,
    o: IRQController,
    c: CPU,
    oc: CPU,
    nm: MemView,
    om: MemView,
    irq: Interrupt,
)
    requires
        requested(n, o, c, oc, nm, om, irq),
    ensures
        counted(c.counter, oc.counter, 0),
{
    if c == oc {
        lemma_counted_refl(oc.counter);
    } else {
        lemma_interrupt_counted(c, oc);
    }
}

proof fn lemma_line_irq_counted(
    n: IRQController,
    o: IRQController,
    c: CPU,
    oc: CPU,
    nm: MemView,
    om: MemView,
    fire: bool,
    irq: Interrupt,
)
    requires
        line_irq(n, o, c, oc, nm, om, fire, irq),
    ensures
        counted(c.counter, oc.counter, 0),
{
    if fire {
        lemma_requested_counted(n, o, c, oc, nm, om, irq);
    } else {
        lemma_counted_refl(oc.counter);
    }
}

/// A chain of interrupt requests moves the cycle counter on, or not at all.
proof fn lemma_request_chain_counted(r: Seq<(IRQController, CPU, MemView)>, irqs: Seq<Interrupt>, j: int)
    requires
        request_chain(r, irqs),
        0 <= j <= irqs.len(),
    ensures
        counted(r[j].1.counter, r[0].1.counter, 0),
    decreases j,
{
    if j == 0 {
        lemma_counted_refl(r[0].1.counter);
    } else {
        lemma_request_chain_counted(r, irqs, j - 1);
        let k = j - 1;
        assert(requested(r[k + 1].0, r[k].0, r[k + 1].1, r[k].1, r[k + 1].2, r[k].2, irqs[k]));
        lemma_requested_counted(r[j].0, r[j - 1].0, r[j].1, r[j - 1].1, r[j].2, r[j - 1].2, irqs[j - 1]);
        lemma_counted_trans(r[j].1.counter, r[j - 1].1.counter, r[0].1.counter, 0, 0);
    }
}

/// Handing IO register writes to the devices moves the cycle counter on
/// (by the interrupts they let through), or not at all.
proof fn lemma_io_chain_counted(s: Seq<Console>, w: Seq<(u32, u16)>, j: int)
    requires
        io_chain(s, w),
        0 <= j <= w.len(),
    ensures
        counted(s[j].cpu.counter, s[0].cpu.counter, 0),
    decreases j,
{
    if j == 0 {
        lemma_counted_refl(s[0].cpu.counter);
    } else {
        lemma_io_chain_counted(s, w, j - 1);
        let k = j - 1;
        assert(io_applied(s[k + 1], s[k], w[k].0, w[k].1));
        if s[j].cpu == s[j - 1].cpu {
            lemma_counted_refl(s[j - 1].cpu.counter);
        } else {
            lemma_interrupt_counted(s[j].cpu, s[j - 1].cpu);
        }
        lemma_counted_trans(s[j].cpu.counter, s[j - 1].cpu.counter, s[0].cpu.counter, 0, 0);
    }
}

proof fn lemma_io_drained_counted(n: Console, o: Console)
    requires
        io_drained(n, o),
    ensures
        counted(n.cpu.counter, o.cpu.counter, 0),
{
    let s = choose|s: Seq<Console>|
        {
            &&& #[trigger] io_chain(s, o.memory@.io_writes)
            &&& s[0].memory@ == (MemView { io_writes: Seq::empty(), ..o.memory@ })
            &&& s[0].cpu == o.cpu && s[0].ppu == o.ppu && s[0].dma == o.dma
            &&& s[0].timers == o.timers && s[0].irqcnt == o.irqcnt
            &&& s.last() == n
        };
    lemma_io_chain_counted(s, o.memory@.io_writes, o.memory@.io_writes.len() as int);
}

/// An instruction costs at least one cycle.
proof fn lemma_cpu_step_counted(c: CpuView, m: MemView)
    ensures
        counted(cpu_step_spec(c, m).0.counter, c.counter, 1),
{
    let t = if thumb(c.cpsr) {
        crate::cpu::thumb::lemma_thumb_step_cycles(c, m);
        crate::cpu::thumb::thumb_step_spec(c, m)
    } else {
        crate::cpu::arm::lemma_arm_step_cycles(c, m);
        crate::cpu::arm::arm_step_spec(c, m)
    };
    lemma_tick(t.0.counter, 1);
    assert(cpu_step_spec(c, m).0.counter == after_cycles(t.0.counter, 1));
    if t.0.counter == c.counter {
        lemma_counted_refl(c.counter);
    } else {
        lemma_tick(c.counter, 2);
        assert(t.0.counter == after_cycles(c.counter, 2));
    }
    lemma_counted_trans(cpu_step_spec(c, m).0.counter, t.0.counter, c.counter, 0, 1);
}

/// A step of the console (an instruction and its IO register writes)
/// costs at least one cycle.
proof fn lemma_console_step_counted(n: Console, o: Console)
    requires
        console_stepped(n, o),
    ensures
        counted(n.cpu.counter, o.cpu.counter, 1),
{
    let c1 = choose|c1: Console|
        {
            &&& (c1.cpu@, c1.memory@) == cpu_step_spec(o.cpu@, o.memory@)
            &&& c1.ppu == o.ppu && c1.dma == o.dma && c1.timers == o.timers
            &&& c1.irqcnt == o.irqcnt
            &&& #[trigger] io_drained(n, c1)
        };
    lemma_cpu_step_counted(o.cpu@, o.memory@);
    lemma_io_drained_counted(n, c1);
    lemma_counted_trans(n.cpu.counter, c1.cpu.counter, o.cpu.counter, 1, 0);
}

proof fn lemma_steps_counted(s: Seq<Console>, stop: u64, bound: nat, j: int)
    requires
        stepped_until(s, stop, bound),
        0 <= j < s.len(),
    ensures
        counted(s[j].cpu.counter, s[0].cpu.counter, j as nat),
    decreases j,
{
    if j == 0 {
        lemma_counted_refl(s[0].cpu.counter);
    } else {
        lemma_steps_counted(s, stop, bound, j - 1);
        let k = j - 1;
        assert(console_stepped(s[k + 1], s[k]));
        lemma_console_step_counted(s[j], s[j - 1]);
        lemma_counted_trans(s[j].cpu.counter, s[j - 1].cpu.counter, s[0].cpu.counter, (j - 1) as nat, 1);
    }
}

/// Running until `bound` more cycles have elapsed costs at least `bound`
/// cycles, when the counter can count that far.
proof fn lemma_stepped_until_counted(s: Seq<Console>, bound: nat)
    requires
        s[0].cpu.counter + bound <= u64::MAX,
        stepped_until(s, (s[0].cpu.counter + bound) as u64, bound),
    ensures
        counted(s.last().cpu.counter, s[0].cpu.counter, bound),
{
    let stop = (s[0].cpu.counter + bound) as u64;
    lemma_steps_counted(s, stop, bound, s.len() - 1);
    let e = choose|e: nat| e >= (s.len() - 1) as nat && s.last().cpu.counter == #[trigger] after_cycles(
        s[0].cpu.counter,
        e,
    );
    if e < bound {
        vstd::arithmetic::div_mod::lemma_small_mod((s[0].cpu.counter + e) as nat, 0x1_0000_0000_0000_0000nat);
        assert(s.last().cpu.counter < stop);
    }
    assert(s.last().cpu.counter == after_cycles(s[0].cpu.counter, e));
}

/// A run of the processor for `cycles` cycles, with the timers after it,
/// costs at least `cycles` cycles.
proof fn lemma_ran_for_counted(n: Console, o: Console, cycles: u32)
    requires
        ran_for(n, o, cycles),
        o.cpu.counter <= u64::MAX - cycles,
    ensures
        counted(n.cpu.counter, o.cpu.counter, cycles as nat),
{
    let s = choose|s: Seq<Console>|
        #![trigger s.last()]
        {
            &&& s[0] == o
            &&& o.cpu.counter <= u64::MAX - cycles ==> stepped_until(s, (o.cpu.counter + cycles) as u64, cycles as nat)
            &&& o.cpu.counter > u64::MAX - cycles ==> s.len() == 1
            &&& n.timers.timer@ == crate::timer::timers_run_spec(s.last().timers.timer@, cycles, 0, false)
            &&& exists|r: Seq<(IRQController, CPU, MemView)>|
                {
                    &&& #[trigger] request_chain(r, crate::timer::timers_irqs(s.last().timers.timer@, cycles, 0, false))
                    &&& r[0] == (s.last().irqcnt, s.last().cpu, s.last().memory@)
                    &&& r.last() == (n.irqcnt, n.cpu, n.memory@)
                }
            &&& n.ppu == s.last().ppu && n.dma == s.last().dma
        };
    lemma_stepped_until_counted(s, cycles as nat);
    let irqs = crate::timer::timers_irqs(s.last().timers.timer@, cycles, 0, false);
    let r = choose|r: Seq<(IRQController, CPU, MemView)>|
        {
            &&& #[trigger] request_chain(r, irqs)
            &&& r[0] == (s.last().irqcnt, s.last().cpu, s.last().memory@)
            &&& r.last() == (n.irqcnt, n.cpu, n.memory@)
        };
    lemma_request_chain_counted(r, irqs, irqs.len() as int);
    lemma_counted_trans(n.cpu.counter, s.last().cpu.counter, o.cpu.counter, cycles as nat, 0);
}

proof fn lemma_frame_step_counted(n: Console, o: Console, k: int)
    requires
        0 <= k < 776,
        frame_step(n, o, k),
        o.cpu.counter <= u64::MAX - frame_cycles(k),
    ensures
        counted(n.cpu.counter, o.cpu.counter, frame_cycles(k)),
{
    if k < 640 {
        if k % 4 == 0 {
            let v = crate::ppu::next_vcount(o.ppu.vcount);
            lemma_line_irq_counted(
                n.irqcnt,
                o.irqcnt,
                n.cpu,
                o.cpu,
                n.memory@,
                o.memory@,
                crate::ppu::vcount_match(o.ppu.dispstat, v),
                Interrupt::VCount,
            );
        } else if k % 4 == 1 {
            lemma_ran_for_counted(n, o, 960);
        } else if k % 4 == 2 {
            lemma_line_irq_counted(
                n.irqcnt,
                o.irqcnt,
                n.cpu,
                o.cpu,
                n.memory@,
                o.memory@,
                crate::util::bit_spec(o.ppu.dispstat as u32, 4),
                Interrupt::HBlank,
            );
        } else {
            lemma_ran_for_counted(n, o, 272);
        }
    } else if (k - 640) % 2 == 0 {
        let v = crate::ppu::next_vcount(o.ppu.vcount);
        let (i1, c1, m1) = choose|i1: IRQController, c1: CPU, m1: MemView|
            #[trigger] line_irq(i1, o.irqcnt, c1, o.cpu, m1, o.memory@, crate::ppu::vcount_match(o.ppu.dispstat, v), Interrupt::VCount)
                && line_irq(
                n.irqcnt,
                i1,
                n.cpu,
                c1,
                n.memory@,
                m1,
                crate::util::bit_spec(o.ppu.dispstat as u32, 3) && v == 160,
                Interrupt::VBlank,
            );
        lemma_line_irq_counted(i1, o.irqcnt, c1, o.cpu, m1, o.memory@, crate::ppu::vcount_match(o.ppu.dispstat, v), Interrupt::VCount);
        lemma_line_irq_counted(
            n.irqcnt,
            i1,
            n.cpu,
            c1,
            n.memory@,
            m1,
            crate::util::bit_spec(o.ppu.dispstat as u32, 3) && v == 160,
            Interrupt::VBlank,
        );
        lemma_counted_trans(n.cpu.counter, c1.counter, o.cpu.counter, 0, 0);
    } else {
        lemma_ran_for_counted(n, o, 1232);
    }
}

proof fn lemma_frame_prefix_counted(s: Seq<Console>, j: int)
    requires
        frame_chain(s),
        0 <= j <= 776,
        forall|k: int| 0 <= k < 776 ==> (#[trigger] s[k]).cpu.counter <= u64::MAX - frame_cycles(k),
    ensures
        counted(s[j].cpu.counter, s[0].cpu.counter, cycles_before(j)),
    decreases j,
{
    if j == 0 {
        lemma_counted_refl(s[0].cpu.counter);
    } else {
        lemma_frame_prefix_counted(s, j - 1);
        let k = j - 1;
        assert(frame_step(s[k + 1], s[k], k));
        assert(s[j - 1].cpu.counter <= u64::MAX - frame_cycles(j - 1));
        lemma_frame_step_counted(s[j], s[j - 1], j - 1);
        lemma_cycles_before_step(j - 1);
        lemma_counted_trans(
            s[j].cpu.counter,
            s[j - 1].cpu.counter,
            s[0].cpu.counter,
            cycles_before(j - 1),
            frame_cycles(j - 1),
        );
    }
}

/// A frame runs the processor for 160 × (960 + 272) + 68 × 1232 = 280896
/// cycles at least: the cycle counter moves on by that much (counted
/// modulo 2^64, as it wraps around), as long as no run of the processor
/// starts within its length of the counter's end.
pub proof fn lemma_frame_cycles(s: Seq<Console>)
    requires
        frame_chain(s),
        forall|k: int| 0 <= k < 776 ==> (#[trigger] s[k]).cpu.counter <= u64::MAX - frame_cycles(k),
    ensures
        counted(s.last().cpu.counter, s[0].cpu.counter, 280896),
        s.last().cpu.counter >= s[0].cpu.counter + 280896 || exists|e: nat|
            e >= 280896 && s[0].cpu.counter + e > u64::MAX && s.last().cpu.counter == #[trigger] after_cycles(
                s[0].cpu.counter,
                e,
            ),
{
    lemma_frame_prefix_counted(s, 776);
    assert(cycles_before(776) == 280896);
    let e = choose|e: nat| e >= 280896 && s.last().cpu.counter == #[trigger] after_cycles(s[0].cpu.counter, e);
    if s[0].cpu.counter + e <= u64::MAX {
        vstd::arithmetic::div_mod::lemma_small_mod((s[0].cpu.counter + e) as nat, 0x1_0000_0000_0000_0000nat);
    }
}

} // verus!
