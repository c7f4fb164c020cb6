//! The ARM7TDMI processor.
pub mod register;
pub mod barrel_shifter;
pub mod alu;
pub mod arm;
pub mod thumb;
pub mod status;

use vstd::prelude::*;
use crate::util::{add32, sub32};
use register::{PSRBit, PSRMode, flag, psr_write, set_bit_spec};
use crate::memory::{Memory, MemView};

verus! {

/// Processor state.
pub struct CPU {
    /// Next instruction to execute.
    pub instruction: u32,
    /// General purpose registers R0 - R15.
    pub r: [u32; 16],
    /// Current Program Status Register.
    pub cpsr: u32,
    /// Saved Program Status Register of the current mode.
    pub spsr: u32,
    /// Banked registers.
    /// 0 - 6: R8_sys - R14_sys; 7 - 14: R8_fiq - R14_fiq, SPSR_fiq;
    /// 15 - 17: R13_svc, R14_svc, SPSR_svc; 18 - 20: R13_abt, R14_abt, SPSR_abt;
    /// 21 - 23: R13_irq, R14_irq, SPSR_irq; 24 - 26: R13_und, R14_und, SPSR_und.
    pub bank: [u32; 27],
    /// Number of cycles elapsed.
    pub counter: u64,
}

/// Abstract processor state.
#[verifier::ext_equal]
pub struct CpuView {
    pub instruction: u32,
    pub r: Seq<u32>,
    pub cpsr: u32,
    pub spsr: u32,
    pub bank: Seq<u32>,
    pub counter: u64,
}

impl View for CPU {
    type V = CpuView;

    open spec fn view(&self) -> CpuView {
        CpuView {
            instruction: self.instruction,
            r: self.r@,
            cpsr: self.cpsr,
            spsr: self.spsr,
            bank: self.bank@,
            counter: self.counter,
        }
    }
}

impl CpuView {
    /// Register `i` set to `v`.
    pub open spec fn set_reg(self, i: int, v: u32) -> CpuView {
        CpuView { r: self.r.update(i, v), ..self }
    }

    /// CPSR set to `v`.
    pub open spec fn with_cpsr(self, v: u32) -> CpuView {
        CpuView { cpsr: v, ..self }
    }

    /// SPSR set to `v`.
    pub open spec fn with_spsr(self, v: u32) -> CpuView {
        CpuView { spsr: v, ..self }
    }

    /// Flag `b` of the CPSR set to `t`.
    pub open spec fn set_flag(self, b: PSRBit, t: bool) -> CpuView {
        self.with_cpsr(set_bit_spec(self.cpsr, b.pos(), t))
    }

    /// State after a pipeline refill.
    pub open spec fn flushed(self) -> CpuView {
        CpuView {
            r: self.r.update(15, flushed_pc(self.r[15], self.cpsr)),
            counter: tick(self.counter, 2),
            ..self
        }
    }

    /// Register `rd` set to `v`, with a pipeline refill when it is R15.
    pub open spec fn write_reg(self, rd: int, v: u32) -> CpuView {
        if rd == 15 {
            self.set_reg(rd, v).flushed()
        } else {
            self.set_reg(rd, v)
        }
    }
}

/// Whether the state bit of `psr` selects Thumb.
pub open spec fn thumb(psr: u32) -> bool {
    flag(psr, PSRBit::T)
}

/// The program counter after a pipeline refill: aligned to the
/// instruction size, then one instruction ahead.
pub open spec fn flushed_pc(pc: u32, psr: u32) -> u32 {
    if thumb(psr) {
        add32(pc & 0xffff_fffe, 2)
    } else {
        add32(pc & 0xffff_fffc, 4)
    }
}

/// `c` holds registers `r`, status words `cpsr` and `spsr` and cycle
/// counter `counter`, and keeps the rest of `o`.
pub open spec fn cpu_is(c: CPU, o: CPU, r: Seq<u32>, cpsr: u32, spsr: u32, counter: u64) -> bool {
    &&& c.r@ == r
    &&& c.cpsr == cpsr
    &&& c.spsr == spsr
    &&& c.counter == counter
    &&& c.instruction == o.instruction
    &&& c.bank == o.bank
}

/// Return address that an interrupt saves in R14: the next instruction + 4.
pub open spec fn irq_return(pc: u32, psr: u32) -> u32 {
    add32(sub32(pc, if thumb(psr) { 2 } else { 4 }), 4)
}

/// CPSR on entry to the IRQ handler: IRQ mode, ARM state, IRQs disabled.
pub open spec fn irq_psr(psr: u32) -> u32 {
    set_bit_spec(set_bit_spec((psr & !0b11111u32) | 0b10010, 5, false), 7, true)
}

proof fn lemma_vector_align()
    by (bit_vector)
    ensures
        0x18u32 & 0xffff_fffcu32 == 0x18u32,
        0x8u32 & 0xffff_fffcu32 == 0x8u32,
{
}

/// `c` is `o` after an interrupt request: unchanged when IRQs are
/// disabled, else in the IRQ handler.
pub open spec fn interrupt_taken(c: CPU, o: CPU) -> bool {
    &&& flag(o.cpsr, PSRBit::I) ==> c == o
    &&& !flag(o.cpsr, PSRBit::I) ==> cpu_is(
        c,
        o,
        o.r@.update(14, irq_return(o.r[15], o.cpsr)).update(15, 0x1c),
        irq_psr(o.cpsr),
        psr_write(o.spsr, o.cpsr, false),
        tick(o.counter, 2),
    )
}

/// Cycle counter after `n` more cycles (it wraps around).
pub open spec fn tick(counter: u64, n: int) -> u64 {
    if counter + n > u64::MAX {
        (counter + n - 0x1_0000_0000_0000_0000) as u64
    } else {
        (counter + n) as u64
    }
}

/// Processor and memory after one instruction in the current state,
/// which costs one more cycle (1S).
pub open spec fn cpu_step_spec(c: CpuView, m: MemView) -> (CpuView, MemView) {
    let t = if thumb(c.cpsr) { thumb::thumb_step_spec(c, m) } else { arm::arm_step_spec(c, m) };
    (CpuView { counter: tick(t.0.counter, 1), ..t.0 }, t.1)
}

/// Processor and memory after `n` instructions.
pub open spec fn steps_spec(c: CpuView, m: MemView, n: nat) -> (CpuView, MemView)
    decreases n,
{
    if n == 0 {
        (c, m)
    } else {
        let t = steps_spec(c, m, (n - 1) as nat);
        cpu_step_spec(t.0, t.1)
    }
}

/// Processor `n` and memory `nm` are `o` and `om` after running
/// instructions until `cycles` more cycles have elapsed: the fewest
/// instructions that reach that count, which the last one passes by at
/// most two cycles.
pub open spec fn cpu_ran(n: CpuView, nm: MemView, o: CpuView, om: MemView, cycles: u64) -> bool {
    &&& exists|k: nat|
        {
            &&& #[trigger] steps_spec(o, om, k) == (n, nm)
            &&& forall|j: nat| j < k ==> (#[trigger] steps_spec(o, om, j)).0.counter < o.counter + cycles
        }
    &&& n.counter >= o.counter + cycles
    &&& n.counter <= o.counter + cycles + 2
}

/// One instruction costs one cycle, or three when it refills the pipeline.
pub proof fn lemma_step_cycles(c: CpuView, m: MemView)
    requires
        c.counter + 3 <= u64::MAX,
    ensures
        cpu_step_spec(c, m).0.counter == c.counter + 1 || cpu_step_spec(c, m).0.counter == c.counter + 3,
{
    if thumb(c.cpsr) {
        thumb::lemma_thumb_step_cycles(c, m);
    } else {
        arm::lemma_arm_step_cycles(c, m);
    }
}

impl CPU {
    /// State after reset.
    pub open spec fn is_reset(&self) -> bool {
        &&& self.instruction == 0
        &&& self.cpsr == 0b10011
        &&& self.spsr == 0
        &&& self.counter == 0
        &&& forall|i: int| 0 <= i < 16 && i != 13 && i != 15 ==> self.r[i] == 0
        &&& self.r[13] == 0x0300_7f00
        &&& self.r[15] == 4
        &&& forall|i: int| 0 <= i < 27 && i != 5 && i != 12 && i != 15 ==> self.bank[i] == 0
        &&& self.bank[5] == 0x0300_7f00
        &&& self.bank[12] == 0x0300_7fa0
        &&& self.bank[15] == 0x0300_7fe0
    }

    /// Processor state after reset: Supervisor mode, PC at the first
    /// instruction, stack pointers of the banked modes set up.
    pub fn new() -> (cpu: Self)
        ensures
            cpu.is_reset(),
    {
        let mut cpu = CPU {
            instruction: 0,
            r: [0u32; 16],
            // Reset enters Supervisor mode.
            cpsr: 0b10011,
            spsr: 0,
            bank: [0u32; 27],
            counter: 0,
        };
        cpu.r[15] = 0x0000_0004;
        cpu.r[13] = 0x0300_7f00;
        cpu.bank[5] = 0x0300_7f00;
        cpu.bank[12] = 0x0300_7fa0;
        cpu.bank[15] = 0x0300_7fe0;
        cpu
    }

    /// Refill the pipeline after a write to R15: align R15 to the
    /// instruction size and move it one instruction ahead. This costs
    /// two more cycles (1S + 1N).
    pub fn flush(&mut self)
        ensures
            cpu_is(
                *final(self),
                *old(self),
                old(self).r@.update(15, flushed_pc(old(self).r[15], old(self).cpsr)),
                old(self).cpsr,
                old(self).spsr,
                tick(old(self).counter, 2),
            ),
    {
        if self.in_thumb_mode() {
            self.r[15] = (self.r[15] & 0xffff_fffe).wrapping_add(2);
        } else {
            self.r[15] = (self.r[15] & 0xffff_fffc).wrapping_add(4);
        }
        self.counter = self.counter.wrapping_add(2);
    }

    /// Take an interrupt request, unless IRQs are disabled in the CPSR:
    /// enter IRQ mode in ARM state with IRQs disabled, save the CPSR in the
    /// SPSR and the return address (next instruction + 4) in R14, and jump
    /// to the IRQ vector 0x18.
    pub fn hardware_interrupt(&mut self)
        ensures
            interrupt_taken(*final(self), *old(self)),
    {
        if self.get_cpsr_bit(PSRBit::I) {
            return ;
        }
        let step: u32 = if self.in_thumb_mode() {
            2
        } else {
            4
        };
        let lr = self.r[15].wrapping_sub(step).wrapping_add(4);
        let saved = self.get_cpsr();
        self.set_cpsr_mode(PSRMode::IRQ);
        self.set_cpsr_bit(PSRBit::T, false);
        let ghost arm_psr = self.cpsr;
        self.set_cpsr_bit(PSRBit::I, true);
        self.set_spsr(saved, false);
        self.r[14] = lr;
        self.r[15] = 0x18;
        proof {
            crate::cpu::register::lemma_set_bit(arm_psr, 7, true, 5);
            crate::util::lemma_and_bound(0x18, 0xffff_fffc);
            lemma_vector_align();
        }
        self.flush();
        assert(self.r@ == old(self).r@.update(14, irq_return(old(self).r[15], old(self).cpsr)).update(15, 0x1c));
    }

    /// Run instructions until `cycles` more cycles have elapsed, and return
    /// by how many cycles the last instruction went past that point.
    pub fn run(&mut self, cycles: u64, memory: &mut Memory) -> (r: u64)
        requires
            old(memory).wf(),
            old(self).counter + cycles + 2 <= u64::MAX,
        ensures
            final(memory).wf(),
            cpu_ran(final(self)@, final(memory)@, old(self)@, old(memory)@, cycles),
            r == final(self).counter - (old(self).counter + cycles),
    {
        let stop = self.counter + cycles;
        let ghost c0 = self@;
        let ghost m0 = memory@;
        let ghost mut n: nat = 0;
        while self.counter < stop
            invariant
                memory.wf(),
                stop == c0.counter + cycles,
                stop + 2 <= u64::MAX,
                self.counter <= stop + 2,
                steps_spec(c0, m0, n) == (self@, memory@),
                forall|k: nat| k < n ==> (#[trigger] steps_spec(c0, m0, k)).0.counter < stop,
            decreases stop + 2 - self.counter,
        {
            let ghost before = self.counter;
            proof {
                lemma_step_cycles(self@, memory@);
            }
            self.step(memory);
            proof {

                n = n + 1;
            }
        }
        self.counter - stop
    }

    /// Fetch and execute one instruction in the current state (ARM or
    /// Thumb). Normal execution takes one cycle (1S).
    pub fn step(&mut self, memory: &mut Memory)
        requires
            old(memory).wf(),
        ensures
            final(memory).wf(),
            (final(self)@, final(memory)@) == cpu_step_spec(old(self)@, old(memory)@),
    {
        if self.in_thumb_mode() {
            thumb::step(self, memory);
        } else {
            arm::step(self, memory);
        }
        self.counter = self.counter.wrapping_add(1);
    }

    /// Whether the processor decodes Thumb instructions.
    pub fn in_thumb_mode(&self) -> (r: bool)
        ensures
            r == thumb(self.cpsr),
    {
        self.get_cpsr_bit(PSRBit::T)
    }
}

} // verus!

verus! {

/// After a pipeline refill the program counter is aligned to the
/// instruction size: halfwords in Thumb state, words in ARM state.
pub proof fn lemma_flushed_pc_aligned(pc: u32, psr: u32)
    ensures
        thumb(psr) ==> flushed_pc(pc, psr) % 2 == 0,
        !thumb(psr) ==> flushed_pc(pc, psr) % 4 == 0,
{
    assert((pc & 0xffff_fffe) % 2 == 0 && (pc & 0xffff_fffc) % 4 == 0) by (bit_vector);
}

/// Interrupts do not nest: once the processor has taken an interrupt, IRQs
/// are disabled, so a second request leaves it unchanged.
pub proof fn lemma_interrupt_not_nested(o: CPU, c: CPU, c2: CPU)
    requires
        interrupt_taken(c, o),
        interrupt_taken(c2, c),
    ensures
        c2 == c,
{
    if !flag(o.cpsr, PSRBit::I) {
        let p = (o.cpsr & !0b11111u32) | 0b10010;
        crate::cpu::register::lemma_set_bit(set_bit_spec(p, 5, false), 7, true, 7);
    }
}

} // verus!
