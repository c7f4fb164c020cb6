//! ARM state: fetch, condition check and dispatch of 32-bit instructions.
pub mod data_processing;
pub mod psr_transfer;
pub mod branch_long;
pub mod branch_exchange;
pub mod software_interrupt;
pub mod multiply_accumulate;
pub mod multiply_long_accumulate;
pub mod single_data_transfer;
pub mod halfword_data_transfer;
pub mod single_data_swap;
pub mod block_data_transfer;
pub mod disassemble;
pub mod execute;

use vstd::prelude::*;
use crate::util::{bits_spec, bit_spec, bits, add32, sub32, lemma_and_bound};
use crate::cpu::{CPU, CpuView};
use crate::cpu::register::condition_spec;
use crate::memory::{Memory, MemView};

verus! {

/// Bit 7 and bit 4 of an instruction, as a two-bit number.
pub open spec fn b74(instruction: u32) -> u32 {
    ((instruction >> 6u32) & 0b10) | ((instruction >> 4u32) & 0b01)
}

/// Bits 6 - 5 of an instruction.
pub open spec fn b65(instruction: u32) -> u32 {
    (instruction >> 5u32) & 0b11
}

/// Instruction classes of the ARM state.
#[derive(Clone, Copy, PartialEq, Eq, Structural, Debug)]
pub enum ArmClass {
    DataProcessing,
    PsrTransfer,
    BranchExchange,
    Multiply,
    MultiplyLong,
    Swap,
    Halfword,
    SingleData,
    Block,
    Branch,
    SoftwareInterrupt,
    /// Coprocessor instructions and unused encodings, which have no handler.
    Unhandled,
}

/// Class of an instruction, by bits 27 - 25, 24 - 20, 7 and 6 - 4.
pub open spec fn arm_class(i: u32) -> ArmClass {
    let op = bits_spec(i, 24, 20);
    let top = bits_spec(i, 27, 25);
    if top == 0 {
        if b74(i) < 3 {
            if op == 0x10 || op == 0x14 || op == 0x16 {
                ArmClass::PsrTransfer
            } else if op == 0x12 {
                if b74(i) == 0 { ArmClass::PsrTransfer } else { ArmClass::BranchExchange }
            } else {
                ArmClass::DataProcessing
            }
        } else if b65(i) > 0 {
            ArmClass::Halfword
        } else if op <= 3 {
            ArmClass::Multiply
        } else if 8 <= op <= 15 {
            ArmClass::MultiplyLong
        } else if op == 0x10 || op == 0x14 {
            ArmClass::Swap
        } else {
            ArmClass::Unhandled
        }
    } else if top == 1 {
        if op == 0x16 || op == 0x12 { ArmClass::PsrTransfer } else { ArmClass::DataProcessing }
    } else if top == 2 || top == 3 {
        ArmClass::SingleData
    } else if top == 4 {
        ArmClass::Block
    } else if top == 5 {
        ArmClass::Branch
    } else if top == 7 {
        ArmClass::SoftwareInterrupt
    } else {
        ArmClass::Unhandled
    }
}

/// Whether the handler of the instruction's class completes on it: the
/// class is handled, and a halfword transfer has a handled kind and a
/// register offset below 16.
pub open spec fn arm_dispatch_ok(i: u32) -> bool {
    match arm_class(i) {
        ArmClass::Unhandled => false,
        ArmClass::Halfword => halfword_data_transfer::hdt_kind_ok(halfword_data_transfer::hdt_fields(i).4)
            && (!halfword_data_transfer::hdt_fields(i).2 ==> halfword_data_transfer::hdt_fields(i).7 < 16),
        _ => true,
    }
}

/// Processor and memory after the handler of the instruction's class.
pub open spec fn arm_dispatch_spec(c: CpuView, m: MemView, i: u32) -> (CpuView, MemView) {
    match arm_class(i) {
        ArmClass::DataProcessing => (data_processing::dp_spec(c, data_processing::dp_fields(i)), m),
        ArmClass::PsrTransfer => (psr_transfer::psr_transfer_spec(c, i), m),
        ArmClass::BranchExchange => (branch_exchange::bx_spec(c, i), m),
        ArmClass::Multiply => (multiply_accumulate::mul_spec(c, multiply_accumulate::mul_fields(i)), m),
        ArmClass::MultiplyLong => (
            multiply_long_accumulate::mull_spec(c, multiply_long_accumulate::mull_fields(i)),
            m,
        ),
        ArmClass::Swap => single_data_swap::swp_spec(c, m, single_data_swap::swp_fields(i)),
        ArmClass::Halfword => halfword_data_transfer::hdt_spec(c, m, halfword_data_transfer::hdt_fields(i)),
        ArmClass::SingleData => single_data_transfer::sdt_spec(c, m, single_data_transfer::sdt_fields(i)),
        ArmClass::Block => block_data_transfer::bdt_spec(c, m, block_data_transfer::bdt_fields(i)),
        ArmClass::Branch => (branch_long::branch_spec(c, i), m),
        ArmClass::SoftwareInterrupt => (software_interrupt::swi_spec(c), m),
        ArmClass::Unhandled => (c, m),
    }
}

/// Whether `execute` completes: the condition field is not 0b1111, and
/// when the condition holds the handler completes.
pub open spec fn arm_execute_ok(c: CpuView) -> bool {
    let cond = bits_spec(c.instruction, 31, 28);
    cond < 15 && (condition_spec(c.cpsr, cond) ==> arm_dispatch_ok(c.instruction))
}

/// Processor and memory after `execute`: R15 moves to the next
/// instruction, then the instruction runs when its condition holds.
pub open spec fn arm_execute_spec(c: CpuView, m: MemView) -> (CpuView, MemView) {
    let c1 = c.set_reg(15, add32(c.r[15], 4));
    if condition_spec(c.cpsr, bits_spec(c.instruction, 31, 28)) {
        arm_dispatch_spec(c1, m, c.instruction)
    } else {
        (c1, m)
    }
}

/// Processor and memory after `step`: fetch, then execute when `execute`
/// completes on the instruction; otherwise (an instruction the handlers do
/// not cover) only move R15 past it.
pub open spec fn arm_step_spec(c: CpuView, m: MemView) -> (CpuView, MemView) {
    let c1 = CpuView { instruction: m.load32(sub32(c.r[15], 4)), ..c };
    if arm_execute_ok(c1) {
        arm_execute_spec(c1, m)
    } else {
        (c1.set_reg(15, add32(c1.r[15], 4)), m)
    }
}

/// An ARM instruction leaves the cycle counter unchanged, or adds two
/// cycles for a pipeline refill.
pub proof fn lemma_arm_step_cycles(c: CpuView, m: MemView)
    ensures
        arm_step_spec(c, m).0.counter == c.counter
            || arm_step_spec(c, m).0.counter == crate::cpu::tick(c.counter, 2),
{
    let c1 = CpuView { instruction: m.load32(sub32(c.r[15], 4)), ..c };
    let c2 = c1.set_reg(15, add32(c1.r[15], 4));
    if arm_class(c1.instruction) == ArmClass::Block {
        block_data_transfer::lemma_bdt_cycles(c2, m, block_data_transfer::bdt_fields(c1.instruction));
    }
}

/// Fetch and execute one instruction. An instruction that no handler
/// covers, or whose condition field is 0b1111, only moves R15 past it.
pub fn step(cpu: &mut CPU, memory: &mut Memory)
    requires
        old(memory).wf(),
    ensures
        final(memory).wf(),
        (final(cpu)@, final(memory)@) == arm_step_spec(old(cpu)@, old(memory)@),
{
    fetch(cpu, memory);
    let cond = bits(cpu.instruction, 31, 28);
    let ok = cond < 15 && (!cpu.check_condition(cond) || dispatch_ok(cpu.instruction));
    if ok {
        execute(cpu, memory);
    } else {
        cpu.r[15] = cpu.r[15].wrapping_add(4);
    }
}

/// Class of an instruction.
pub fn classify(instruction: u32) -> (r: ArmClass)
    ensures
        r == arm_class(instruction),
{
    let b74 = (instruction >> 6u32 & 0b10) | (instruction >> 4u32 & 0b01);
    let b65 = instruction >> 5u32 & 0b11;
    let op = bits(instruction, 24, 20);
    let top = bits(instruction, 27, 25);
    if top == 0 {
        if b74 < 3 {
            if op == 0x10 || op == 0x14 || op == 0x16 {
                ArmClass::PsrTransfer
            } else if op == 0x12 {
                if b74 == 0 {
                    ArmClass::PsrTransfer
                } else {
                    ArmClass::BranchExchange
                }
            } else {
                ArmClass::DataProcessing
            }
        } else if b65 > 0 {
            ArmClass::Halfword
        } else if op <= 3 {
            ArmClass::Multiply
        } else if 8 <= op && op <= 15 {
            ArmClass::MultiplyLong
        } else if op == 0x10 || op == 0x14 {
            ArmClass::Swap
        } else {
            ArmClass::Unhandled
        }
    } else if top == 1 {
        if op == 0x16 || op == 0x12 {
            ArmClass::PsrTransfer
        } else {
            ArmClass::DataProcessing
        }
    } else if top == 2 || top == 3 {
        ArmClass::SingleData
    } else if top == 4 {
        ArmClass::Block
    } else if top == 5 {
        ArmClass::Branch
    } else if top == 7 {
        ArmClass::SoftwareInterrupt
    } else {
        ArmClass::Unhandled
    }
}

/// Whether the handler of the instruction's class completes on it.
pub fn dispatch_ok(instruction: u32) -> (r: bool)
    ensures
        r == arm_dispatch_ok(instruction),
{
    match classify(instruction) {
        ArmClass::Unhandled => false,
        ArmClass::Halfword => {
            let f = halfword_data_transfer::decode(instruction);
            (f.4 == 1 || f.4 == 2 || f.4 == 3 || f.4 == 5 || f.4 == 6 || f.4 == 7) && (f.2 || f.7 < 16)
        },
        _ => true,
    }
}

/// Fetch the instruction at R15 - 4.
pub fn fetch(cpu: &mut CPU, memory: &Memory)
    requires
        memory.wf(),
    ensures
        final(cpu)@ == (CpuView { instruction: memory@.load32(sub32(old(cpu).r[15], 4)), ..old(cpu)@ }),
{
    cpu.instruction = memory.load32(cpu.r[15].wrapping_sub(4));
}

/// Move R15 to the next instruction and run the fetched instruction when
/// its condition holds. Returns 0.
pub fn execute(cpu: &mut CPU, memory: &mut Memory) -> (r: u32)
    requires
        old(memory).wf(),
        arm_execute_ok(old(cpu)@),
    ensures
        final(memory).wf(),
        (final(cpu)@, final(memory)@) == arm_execute_spec(old(cpu)@, old(memory)@),
        r == 0,
{
    cpu.r[15] = cpu.r[15].wrapping_add(4);
    let cond = bits(cpu.instruction, 31, 28);
    if cpu.check_condition(cond) {
        dispatch(cpu, memory);
    }
    0
}

/// Run the handler of the fetched instruction's class.
pub fn dispatch(cpu: &mut CPU, memory: &mut Memory)
    requires
        old(memory).wf(),
        arm_dispatch_ok(old(cpu).instruction),
    ensures
        final(memory).wf(),
        (final(cpu)@, final(memory)@) == arm_dispatch_spec(old(cpu)@, old(memory)@, old(cpu).instruction),
{
    let instruction = cpu.instruction;
    match classify(instruction) {
        ArmClass::DataProcessing => data_processing::decode_execute(cpu, instruction),
        ArmClass::PsrTransfer => psr_transfer::decode_execute(cpu, instruction),
        ArmClass::BranchExchange => branch_exchange::decode_execute(cpu, instruction),
        ArmClass::Multiply => multiply_accumulate::decode_execute(cpu, instruction),
        ArmClass::MultiplyLong => multiply_long_accumulate::decode_execute(cpu, instruction),
        ArmClass::Swap => single_data_swap::decode_execute(cpu, memory, instruction),
        ArmClass::Halfword => halfword_data_transfer::decode_execute(cpu, memory, instruction),
        ArmClass::SingleData => single_data_transfer::decode_execute(cpu, memory, instruction),
        ArmClass::Block => block_data_transfer::interpret(cpu, memory, instruction),
        ArmClass::Branch => branch_long::decode_execute(cpu, instruction),
        ArmClass::SoftwareInterrupt => software_interrupt::interpret(cpu),
        ArmClass::Unhandled => {},
    }
}

} // verus!

verus! {

/// An ARM instruction whose condition fails does nothing but move R15 to
/// the next instruction.
pub proof fn lemma_condition_fails(c: CpuView, m: MemView)
    requires
        ({
            let i = m.load32(sub32(c.r[15], 4));
            !condition_spec(c.cpsr, bits_spec(i, 31, 28))
        }),
    ensures
        arm_step_spec(c, m) == ({
            let c1 = CpuView { instruction: m.load32(sub32(c.r[15], 4)), ..c };
            (c1.set_reg(15, add32(c.r[15], 4)), m)
        }),
{
}

} // verus!
