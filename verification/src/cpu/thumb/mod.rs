//! Thumb state: fetch and dispatch of 16-bit instructions.
pub mod move_shifted;
pub mod move_shifted_register;
pub mod add_subtract;
pub mod move_compare;
pub mod hi_operations_bx;
pub mod pc_relative_load;
pub mod sp_relative_load;
pub mod load_address;
pub mod unconditional_branch;
pub mod long_branch;
pub mod disassemble;

use vstd::prelude::*;
use crate::util::{bits_spec, BitField, add32, sub32, lemma_truncate};
use crate::cpu::{CPU, CpuView};
use crate::cpu::arm::software_interrupt;
use crate::memory::{Memory, MemView};

verus! {

/// Instruction classes of the Thumb state.
#[derive(Clone, Copy, PartialEq, Eq, Structural, Debug)]
pub enum ThumbClass {
    MoveShifted,
    AddSubtract,
    MoveCompare,
    HiOperations,
    PcRelativeLoad,
    SpRelativeLoad,
    LoadAddress,
    SoftwareInterrupt,
    UnconditionalBranch,
    LongBranch,
    /// ALU operations, register and immediate transfers, SP adjustment,
    /// push and pop, multiple transfers and conditional branches, which
    /// have no handler, and unused encodings.
    Unhandled,
}

/// Class of an instruction, by bits 15 - 11 (and 10 - 6 or 11 - 8).
pub open spec fn thumb_class(i: u16) -> ThumbClass {
    let x = i as u32;
    let top = bits_spec(x, 15, 11);
    if top <= 2 {
        ThumbClass::MoveShifted
    } else if top == 3 {
        ThumbClass::AddSubtract
    } else if top <= 7 {
        ThumbClass::MoveCompare
    } else if top == 8 {
        let sub = bits_spec(x, 10, 6);
        if 0x11 <= sub <= 0x1d { ThumbClass::HiOperations } else { ThumbClass::Unhandled }
    } else if top == 9 {
        ThumbClass::PcRelativeLoad
    } else if top == 0x12 || top == 0x13 {
        ThumbClass::SpRelativeLoad
    } else if top == 0x14 || top == 0x15 {
        ThumbClass::LoadAddress
    } else if (top == 0x1a || top == 0x1b) && bits_spec(x, 11, 8) == 0xf {
        ThumbClass::SoftwareInterrupt
    } else if top == 0x1c {
        ThumbClass::UnconditionalBranch
    } else if top == 0x1e || top == 0x1f {
        ThumbClass::LongBranch
    } else {
        ThumbClass::Unhandled
    }
}

/// Processor and memory after the handler of the instruction's class.
pub open spec fn thumb_dispatch_spec(c: CpuView, m: MemView, i: u16) -> (CpuView, MemView) {
    let x = i as u32;
    match thumb_class(i) {
        ThumbClass::MoveShifted => (move_shifted::ms_spec(c, move_shifted::ms_fields(i)), m),
        ThumbClass::AddSubtract => (add_subtract::as_spec(c, add_subtract::as_fields(i)), m),
        ThumbClass::MoveCompare => (move_compare::mc_spec(c, move_compare::mc_fields(i)), m),
        ThumbClass::HiOperations => (hi_operations_bx::hi_spec(c, hi_operations_bx::hi_fields(i)), m),
        ThumbClass::PcRelativeLoad => (pc_relative_load::pcl_spec(c, pc_relative_load::pcl_fields(i)), m),
        ThumbClass::SpRelativeLoad => sp_relative_load::spl_spec(c, m, sp_relative_load::spl_fields(i)),
        ThumbClass::LoadAddress => (load_address::la_spec(c, load_address::la_fields(i)), m),
        ThumbClass::SoftwareInterrupt => (software_interrupt::swi_spec(c), m),
        ThumbClass::UnconditionalBranch => (unconditional_branch::ub_spec(c, bits_spec(x, 10, 0)), m),
        ThumbClass::LongBranch => (
            long_branch::lb_spec(c, crate::util::bit_spec(x, 11), bits_spec(x, 10, 0)),
            m,
        ),
        ThumbClass::Unhandled => (c, m),
    }
}

/// Processor and memory after `execute`: R15 moves to the next
/// instruction, then the instruction (the low halfword of the fetched
/// value) runs.
pub open spec fn thumb_execute_spec(c: CpuView, m: MemView) -> (CpuView, MemView) {
    thumb_dispatch_spec(c.set_reg(15, add32(c.r[15], 2)), m, c.instruction as u16)
}

/// Processor and memory after `step`: fetch, then execute when a handler
/// covers the instruction; otherwise only move R15 past it.
pub open spec fn thumb_step_spec(c: CpuView, m: MemView) -> (CpuView, MemView) {
    let c1 = CpuView { instruction: m.load16(sub32(c.r[15], 2)) as u32, ..c };
    if thumb_class(c1.instruction as u16) != ThumbClass::Unhandled {
        thumb_execute_spec(c1, m)
    } else {
        (c1.set_reg(15, add32(c1.r[15], 2)), m)
    }
}

/// A Thumb instruction leaves the cycle counter unchanged, or adds two
/// cycles for a pipeline refill.
pub proof fn lemma_thumb_step_cycles(c: CpuView, m: MemView)
    ensures
        thumb_step_spec(c, m).0.counter == c.counter
            || thumb_step_spec(c, m).0.counter == crate::cpu::tick(c.counter, 2),
{
}

/// Fetch and execute one instruction. An instruction that no handler
/// covers only moves R15 past it.
pub fn step(cpu: &mut CPU, memory: &mut Memory)
    requires
        old(memory).wf(),
    ensures
        final(memory).wf(),
        (final(cpu)@, final(memory)@) == thumb_step_spec(old(cpu)@, old(memory)@),
{
    fetch(cpu, memory);
    let inst = #[verifier::truncate] (cpu.instruction as u16);
    let ok = classify(inst) != ThumbClass::Unhandled;
    if ok {
        execute(cpu, memory);
    } else {
        cpu.r[15] = cpu.r[15].wrapping_add(2);
    }
}

/// Class of an instruction.
pub fn classify(instruction: u16) -> (r: ThumbClass)
    ensures
        r == thumb_class(instruction),
{
    let top = instruction.bits(15, 11);
    if top <= 2 {
        ThumbClass::MoveShifted
    } else if top == 3 {
        ThumbClass::AddSubtract
    } else if top <= 7 {
        ThumbClass::MoveCompare
    } else if top == 8 {
        let sub = instruction.bits(10, 6);
        if 0x11 <= sub && sub <= 0x1d {
            ThumbClass::HiOperations
        } else {
            ThumbClass::Unhandled
        }
    } else if top == 9 {
        ThumbClass::PcRelativeLoad
    } else if top == 0x12 || top == 0x13 {
        ThumbClass::SpRelativeLoad
    } else if top == 0x14 || top == 0x15 {
        ThumbClass::LoadAddress
    } else if (top == 0x1a || top == 0x1b) && instruction.bits(11, 8) == 0xf {
        ThumbClass::SoftwareInterrupt
    } else if top == 0x1c {
        ThumbClass::UnconditionalBranch
    } else if top == 0x1e || top == 0x1f {
        ThumbClass::LongBranch
    } else {
        ThumbClass::Unhandled
    }
}

/// Fetch the halfword instruction at R15 - 2.
pub fn fetch(cpu: &mut CPU, memory: &Memory)
    requires
        memory.wf(),
    ensures
        final(cpu)@ == (CpuView {
            instruction: memory@.load16(sub32(old(cpu).r[15], 2)) as u32,
            ..old(cpu)@
        }),
{
    cpu.instruction = memory.load16(cpu.r[15].wrapping_sub(2)) as u32;
}

/// Move R15 to the next instruction and run the fetched instruction.
/// Returns 0.
pub fn execute(cpu: &mut CPU, memory: &mut Memory) -> (r: u32)
    requires
        old(memory).wf(),
        thumb_class(old(cpu).instruction as u16) != ThumbClass::Unhandled,
    ensures
        final(memory).wf(),
        (final(cpu)@, final(memory)@) == thumb_execute_spec(old(cpu)@, old(memory)@),
        r == 0,
{
    cpu.r[15] = cpu.r[15].wrapping_add(2);
    dispatch(cpu, memory);
    0
}

/// Run the handler of the fetched instruction's class.
pub fn dispatch(cpu: &mut CPU, memory: &mut Memory)
    requires
        old(memory).wf(),
        thumb_class(old(cpu).instruction as u16) != ThumbClass::Unhandled,
    ensures
        final(memory).wf(),
        (final(cpu)@, final(memory)@) == thumb_dispatch_spec(
            old(cpu)@,
            old(memory)@,
            old(cpu).instruction as u16,
        ),
{
    let instruction = #[verifier::truncate] (cpu.instruction as u16);
    match classify(instruction) {
        ThumbClass::MoveShifted => move_shifted::decode_execute(cpu, instruction),
        ThumbClass::AddSubtract => add_subtract::decode_execute(cpu, instruction),
        ThumbClass::MoveCompare => move_compare::decode_execute(cpu, instruction),
        ThumbClass::HiOperations => hi_operations_bx::decode_execute(cpu, instruction),
        ThumbClass::PcRelativeLoad => pc_relative_load::decode_execute(cpu, instruction),
        ThumbClass::SpRelativeLoad => sp_relative_load::decode_execute(cpu, memory, instruction),
        ThumbClass::LoadAddress => load_address::decode_execute(cpu, instruction),
        ThumbClass::SoftwareInterrupt => software_interrupt::interpret(cpu),
        ThumbClass::UnconditionalBranch => unconditional_branch::decode_execute(cpu, instruction),
        ThumbClass::LongBranch => long_branch::interpret(cpu, instruction),
        ThumbClass::Unhandled => {},
    }
}

} // verus!
