//! The four hardware timers.
use vstd::prelude::*;
use crate::interrupt::{IRQController, Interrupt, enabled, raised, requested};
use crate::cpu::CPU;
use crate::memory::{Memory, MemView};

verus! {

/// Prescaler for each value of the two frequency bits of the control register.
pub open spec fn prescaler_spec(sel: u32) -> u32 {
    if sel == 0 {
        1
    } else if sel == 1 {
        64
    } else if sel == 2 {
        256
    } else {
        1024
    }
}

/// Interrupt of timer `i`.
pub open spec fn irq_spec(i: int) -> Interrupt {
    if i == 0 {
        Interrupt::Timer0
    } else if i == 1 {
        Interrupt::Timer1
    } else if i == 2 {
        Interrupt::Timer2
    } else {
        Interrupt::Timer3
    }
}

/// Prescaler for each value of the two frequency bits.
pub fn prescaler(sel: u32) -> (r: u32)
    requires
        sel < 4,
    ensures
        r == prescaler_spec(sel),
        sel == 0 ==> r == 1,
        sel == 1 ==> r == 64,
        sel == 2 ==> r == 256,
        sel == 3 ==> r == 1024,
{
    match sel {
        0 => 1,
        1 => 64,
        2 => 256,
        _ => 1024,
    }
}

/// Interrupt of timer `i`.
pub fn irq(i: usize) -> (r: Interrupt)
    requires
        i < 4,
    ensures
        r == irq_spec(i as int),
{
    match i {
        0 => Interrupt::Timer0,
        1 => Interrupt::Timer1,
        2 => Interrupt::Timer2,
        _ => Interrupt::Timer3,
    }
}

/// The four timers.
pub struct Timers {
    pub timer: Vec<Timer>,
}

/// One timer.
#[derive(Clone, Copy, Debug)]
pub struct Timer {
    /// Initial value on reload.
    pub reload: u16,
    /// Timer data.
    pub counter: u16,
    /// Leftover ticks (less than the prescaler).
    pub modulo: u32,
    /// 1, 64, 256 or 1024; 0 before the control register is written.
    pub prescaler: u32,
    /// Interrupt on overflow.
    pub irq_f: bool,
    /// Count up when the previous timer overflows.
    pub cascade_f: bool,
    /// Enable flag.
    pub enable: bool,
}

impl Timer {
    /// A timer that runs has a prescaler, and the leftover ticks stay below 1024.
    pub open spec fn wf(&self) -> bool {
        &&& self.modulo < 1024
        &&& self.prescaler <= 1024
        &&& self.enable ==> self.prescaler >= 1
    }

    /// Counter value, counter overflow and leftover ticks after `ticks` more ticks.
    pub open spec fn count_spec(&self, ticks: u32) -> (u16, bool, u32) {
        if self.enable {
            let m = self.modulo + ticks;
            let inc = ((m / self.prescaler as int) % 0x1_0000) as u16;
            let sum = self.counter + inc;
            let overflow = sum > u16::MAX;
            (if overflow { self.reload } else { sum as u16 }, overflow, (m % self.prescaler as int) as u32)
        } else {
            (self.counter, false, self.modulo)
        }
    }

    /// A disabled timer with every register clear.
    pub fn new() -> (r: Self)
        ensures
            r == (Timer {
                reload: 0,
                counter: 0,
                modulo: 0,
                prescaler: 0,
                irq_f: false,
                cascade_f: false,
                enable: false,
            }),
            r.wf(),
    {
        Timer {
            reload: 0,
            counter: 0,
            prescaler: 0,
            modulo: 0,
            irq_f: false,
            cascade_f: false,
            enable: false,
        }
    }

    /// Advance an enabled timer by `ticks` cycles; on overflow the counter
    /// is reloaded. Return whether it overflowed. A disabled timer stays.
    pub fn increment_counter(&mut self, ticks: u32) -> (overflow: bool)
        requires
            old(self).wf(),
            old(self).enable ==> old(self).modulo + ticks <= u32::MAX,
        ensures
            final(self).wf(),
            final(self).counter == old(self).count_spec(ticks).0,
            overflow == old(self).count_spec(ticks).1,
            final(self).modulo == old(self).count_spec(ticks).2,
            final(self).reload == old(self).reload,
            final(self).prescaler == old(self).prescaler,
            final(self).irq_f == old(self).irq_f,
            final(self).cascade_f == old(self).cascade_f,
            final(self).enable == old(self).enable,
    {
        if self.enable {
            self.modulo = self.modulo + ticks;
            let q = self.modulo / self.prescaler;
            let increment = #[verifier::truncate] (q as u16);
            proof {
                crate::util::lemma_truncate(q);
            }
            let sum: u32 = self.counter as u32 + increment as u32;
            let overflow = sum > 0xffff;
            self.counter = if overflow {
                self.reload
            } else {
                sum as u16
            };
            self.modulo = self.modulo % self.prescaler;
            overflow
        } else {
            false
        }
    }
}

impl Timers {
    /// Every timer is well formed, and there are four.
    pub open spec fn wf(&self) -> bool {
        &&& self.timer@.len() == 4
        &&& forall|i: int| 0 <= i < 4 ==> (#[trigger] self.timer@[i]).wf()
    }

    /// Four disabled timers.
    pub fn new() -> (r: Self)
        ensures
            r.wf(),
            forall|i: int| 0 <= i < 4 ==> #[trigger] r.timer@[i] == Timer::new_spec(),
    {
        let t = Timer::new();
        let mut v: Vec<Timer> = Vec::new();
        v.push(t);
        v.push(t);
        v.push(t);
        v.push(t);
        Timers { timer: v }
    }

    /// Advance the timers by `value` cycles. A cascading timer counts the
    /// overflows of the timer before it instead; a timer that overflows with
    /// its interrupt flag set requests its interrupt.
    pub fn run(&mut self, value: u32, irqcnt: &mut IRQController, cpu: &mut CPU, memory: &mut Memory)
        requires
            old(self).wf(),
            old(memory).wf(),
            value <= u32::MAX - 1024,
        ensures
            final(self).wf(),
            final(memory).wf(),
            final(self).timer@ == timers_run_spec(old(self).timer@, value, 0, false),
            exists|s: Seq<(IRQController, CPU, MemView)>|
                {
                    &&& #[trigger] request_chain(s, timers_irqs(old(self).timer@, value, 0, false))
                    &&& s[0] == (*old(irqcnt), *old(cpu), old(memory)@)
                    &&& s.last() == (*final(irqcnt), *final(cpu), final(memory)@)
                },
    {
        let mut overflow = false;
        let ghost mut fired: Seq<Interrupt> = Seq::empty();
        let ghost mut s: Seq<(IRQController, CPU, MemView)> = seq![(*irqcnt, *cpu, memory@)];
        let mut i: usize = 0;
        while i < 4
            invariant
                0 <= i <= 4,
                self.wf(),
                value <= u32::MAX - 1024,
                timers_run_spec(self.timer@, value, i as int, overflow) == timers_run_spec(
                    old(self).timer@,
                    value,
                    0,
                    false,
                ),
                fired + timers_irqs(self.timer@, value, i as int, overflow) == timers_irqs(
                    old(self).timer@,
                    value,
                    0,
                    false,
                ),
                memory.wf(),
                request_chain(s, fired),
                s[0] == (*old(irqcnt), *old(cpu), old(memory)@),
                s.last() == (*irqcnt, *cpu, memory@),
            decreases 4 - i,
        {
            let ghost t0 = self.timer@;
            let ghost ov0 = overflow;
            let ghost before = self.timer@;
            let increment = if self.timer[i].cascade_f {
                if overflow {
                    1
                } else {
                    0
                }
            } else {
                value
            };
            let mut t = self.timer[i];
            overflow = t.increment_counter(increment);
            self.timer.set(i, t);
            if overflow && t.irq_f {
                irqcnt.request(irq(i), cpu, memory);
                proof {
                    let f2 = fired.push(irq_spec(i as int));
                    let s2 = s.push((*irqcnt, *cpu, memory@));
                    assert forall|k: int| 0 <= k < f2.len() implies #[trigger] requested(
                        s2[k + 1].0,
                        s2[k].0,
                        s2[k + 1].1,
                        s2[k].1,
                        s2[k + 1].2,
                        s2[k].2,
                        f2[k],
                    ) by {}
                    assert(f2 + timers_irqs(before.update(i as int, t), value, i + 1, overflow) =~= fired
                        + timers_irqs(t0, value, i as int, ov0));
                    fired = f2;
                    s = s2;
                }
            } else {
                proof {
                    assert(fired + timers_irqs(before.update(i as int, t), value, i + 1, overflow) =~= fired
                        + timers_irqs(t0, value, i as int, ov0));
                }
            }
            i = i + 1;
        }
    }
}

impl Timer {
    /// A disabled timer with every register clear.
    pub open spec fn new_spec() -> Timer {
        Timer {
            reload: 0,
            counter: 0,
            modulo: 0,
            prescaler: 0,
            irq_f: false,
            cascade_f: false,
            enable: false,
        }
    }

    /// The timer after a write of `value` to its control register.
    pub open spec fn controlled(self, value: u16) -> Timer {
        Timer {
            prescaler: prescaler_spec(crate::util::bits_spec(value as u32, 1, 0)),
            cascade_f: crate::util::bit_spec(value as u32, 2),
            irq_f: crate::util::bit_spec(value as u32, 6),
            enable: crate::util::bit_spec(value as u32, 7),
            counter: if !self.enable && crate::util::bit_spec(value as u32, 7) { self.reload } else {
                self.counter
            },
            ..self
        }
    }

    /// `t` advanced by `ticks`.
    pub open spec fn advanced(self, ticks: u32) -> Timer {
        Timer {
            counter: self.count_spec(ticks).0,
            modulo: self.count_spec(ticks).2,
            ..self
        }
    }
}

/// Interrupts that timers from index `i` on request when advanced by
/// `value` cycles (the timer before `i` overflowed when `overflow` is set):
/// those that overflow with their interrupt flag set, in order.
pub open spec fn timers_irqs(t: Seq<Timer>, value: u32, i: int, overflow: bool) -> Seq<Interrupt>
    decreases 4 - i,
{
    if i >= 4 || i < 0 || t.len() != 4 {
        Seq::empty()
    } else {
        let ticks: u32 = if t[i].cascade_f { if overflow { 1 } else { 0 } } else { value };
        let c = t[i].count_spec(ticks);
        let rest = timers_irqs(t.update(i, t[i].advanced(ticks)), value, i + 1, c.1);
        if c.1 && t[i].irq_f {
            seq![irq_spec(i)] + rest
        } else {
            rest
        }
    }
}

/// `s` is the sequence of controller, processor and memory states as the
/// interrupts `irqs` are requested in order.
pub open spec fn request_chain(s: Seq<(IRQController, CPU, MemView)>, irqs: Seq<Interrupt>) -> bool {
    &&& s.len() == irqs.len() + 1
    &&& forall|k: int|
        0 <= k < irqs.len() ==> #[trigger] requested(s[k + 1].0, s[k].0, s[k + 1].1, s[k].1, s[k + 1].2, s[k].2, irqs[k])
}

/// Timers from index `i` on, after advancing by `value` cycles, where the
/// timer before `i` overflowed when `overflow` is set.
pub open spec fn timers_run_spec(t: Seq<Timer>, value: u32, i: int, overflow: bool) -> Seq<Timer>
    decreases 4 - i,
{
    if i >= 4 || i < 0 || t.len() != 4 {
        t
    } else {
        let ticks: u32 = if t[i].cascade_f { if overflow { 1 } else { 0 } } else { value };
        timers_run_spec(t.update(i, t[i].advanced(ticks)), value, i + 1, t[i].count_spec(ticks).1)
    }
}

} // verus!

verus! {

/// Advancing an enabled timer by `a` cycles and then by `b` cycles is
/// advancing it by `a + b` cycles at once, as long as its counter does
/// not overflow.
pub proof fn lemma_advance_compose(t: Timer, a: u32, b: u32)
    requires
        t.wf(),
        t.enable,
        a + b <= u32::MAX - 1024,
        t.counter + (t.modulo + a + b) / (t.prescaler as int) <= 0xffff,
    ensures
        t.advanced(a).advanced(b) == t.advanced((a + b) as u32),
{
    let p = t.prescaler as int;
    let x = t.modulo + a;
    let q1 = x / p;
    let r1 = x % p;
    vstd::arithmetic::div_mod::lemma_fundamental_div_mod(x, p);
    let y = r1 + b;
    let q2 = y / p;
    let r2 = y % p;
    vstd::arithmetic::div_mod::lemma_fundamental_div_mod(y, p);
    assert(0 <= r1 < p && 0 <= r2 < p) by {
        vstd::arithmetic::div_mod::lemma_mod_bound(x, p);
        vstd::arithmetic::div_mod::lemma_mod_bound(y, p);
    }
    assert(x + b == (q1 + q2) * p + r2) by (nonlinear_arith)
        requires
            x == p * q1 + r1,
            y == p * q2 + r2,
            y == r1 + b,
    ;
    vstd::arithmetic::div_mod::lemma_fundamental_div_mod_converse(x + b, p, q1 + q2, r2);
    assert(q1 >= 0 && q2 >= 0) by {
        vstd::arithmetic::div_mod::lemma_div_pos_is_pos(x, p);
        vstd::arithmetic::div_mod::lemma_div_pos_is_pos(y, p);
    }
    let t1 = t.advanced(a);


}

/// A write of `value` to a timer's control register sets the prescaler
/// from the frequency select, the two low bits: 1, 64, 256 or 1024 cycles
/// per count for select 0, 1, 2 and 3.
pub proof fn lemma_control_prescaler(t: Timer, value: u16)
    ensures
        value % 4 == 0 ==> t.controlled(value).prescaler == 1,
        value % 4 == 1 ==> t.controlled(value).prescaler == 64,
        value % 4 == 2 ==> t.controlled(value).prescaler == 256,
        value % 4 == 3 ==> t.controlled(value).prescaler == 1024,
{
    assert(crate::util::bits_spec(value as u32, 1, 0) == (value as u32) % 4) by (bit_vector);
}

/// An enabled timer that does not cascade and starts a count afresh
/// (no leftover cycles) counts once per `prescaler` cycles: after
/// `n * prescaler` cycles its counter has moved on by `n` (unless it
/// overflowed), with no cycles left over.
pub proof fn lemma_timer_counts(t: Timer, n: u32)
    requires
        t.wf(),
        t.enable,
        t.modulo == 0,
        t.counter + n <= 0xffff,
        n * t.prescaler <= u32::MAX,
    ensures
        t.count_spec((n * t.prescaler) as u32).0 == t.counter + n,
        t.count_spec((n * t.prescaler) as u32).1 == false,
        t.count_spec((n * t.prescaler) as u32).2 == 0,
{
    let p = t.prescaler as int;
    vstd::arithmetic::div_mod::lemma_div_multiples_vanish(n as int, p);
    vstd::arithmetic::div_mod::lemma_mod_multiples_basic(n as int, p);
    vstd::arithmetic::div_mod::lemma_small_mod(n as nat, 0x1_0000);
    assert(n * p == p * n) by (nonlinear_arith);
}

} // verus!
