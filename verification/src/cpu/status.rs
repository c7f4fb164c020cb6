//! Text of the processor state: registers, status word, the instruction
//! at the program counter and the cycle count.
use vstd::prelude::*;
use vstd::string::*;
use crate::util::sub32;
use crate::text::{pad2_spec, hex_spec, decimal64_spec, pad2, hex, decimal64};
use crate::cpu::{CPU, CpuView, thumb};
use crate::cpu::register::{PSRBit, flag};
use crate::memory::{Memory, MemView};

verus! {

/// Text of register `i`: a line break before every fourth register, then
/// "R", the number in two columns, " = " and eight hexadecimal digits.
pub open spec fn reg_entry_spec(r: Seq<u32>, i: int) -> Seq<char> {
    (if i % 4 == 0 && i > 0 { "\n"@ } else { ""@ }) + "R"@ + pad2_spec(i as u32) + " = "@ + hex_spec(r[i], 8)
        + " "@
}

/// Text of the first `n` registers.
pub open spec fn regs_text(r: Seq<u32>, n: nat) -> Seq<char>
    decreases n,
{
    if n == 0 {
        Seq::empty()
    } else {
        regs_text(r, (n - 1) as nat) + reg_entry_spec(r, n - 1)
    }
}

/// The letter of flag `b` when it is set in `psr`, else ".".
pub open spec fn flag_char(psr: u32, b: PSRBit, letter: Seq<char>) -> Seq<char> {
    if flag(psr, b) { letter } else { "."@ }
}

/// Flags N, Z, C, V, I, F, T of a status word between brackets.
pub open spec fn flags_text(psr: u32) -> Seq<char> {
    "["@ + flag_char(psr, PSRBit::N, "N"@) + flag_char(psr, PSRBit::Z, "Z"@) + flag_char(psr, PSRBit::C, "C"@)
        + flag_char(psr, PSRBit::V, "V"@) + flag_char(psr, PSRBit::I, "I"@) + flag_char(psr, PSRBit::F, "F"@)
        + flag_char(psr, PSRBit::T, "T"@) + "]"@
}

/// Address, opcode and text of the instruction being executed (at R15
/// minus one instruction).
pub open spec fn instruction_text(c: CpuView, m: MemView) -> Seq<char> {
    if thumb(c.cpsr) {
        let a = sub32(c.r[15], 2);
        hex_spec(a, 8) + ": "@ + hex_spec(m.load16(a) as u32, 4) + " "@ + crate::cpu::thumb::disassemble::disassemble_spec(
            m.load16(a),
        )
    } else {
        let a = sub32(c.r[15], 4);
        hex_spec(a, 8) + ": "@ + hex_spec(m.load32(a), 8) + " "@ + crate::cpu::arm::disassemble::disassemble_spec(
            m.load32(a),
        )
    }
}

/// Text of the processor state.
pub open spec fn status_spec(c: CpuView, m: MemView) -> Seq<char> {
    regs_text(c.r, 16) + "\n"@ + "PSR = "@ + hex_spec(c.cpsr, 8) + " "@ + flags_text(c.cpsr) + "\n"@
        + instruction_text(c, m) + "\n"@ + "Cycles: "@ + decimal64_spec(c.counter)
}

impl CPU {
    /// Text of register `i`.
    fn reg_entry(&self, i: u32) -> (s: String)
        requires
            i < 16,
        ensures
            s@ == reg_entry_spec(self.r@, i as int),
    {
        let mut s = String::from_str(
            if i % 4 == 0 && i > 0 {
                "\n"
            } else {
                ""
            },
        );
        s.append("R");
        let n = pad2(i);
        s.append(n.as_str());
        s.append(" = ");
        let h = hex(self.r[i as usize], 8);
        s.append(h.as_str());
        s.append(" ");
        s
    }

    /// The flag letter of `b`, or ".".
    fn flag_text(&self, b: PSRBit, letter: &'static str) -> (s: &'static str)
        ensures
            s@ == flag_char(self.cpsr, b, letter@),
    {
        if self.get_cpsr_bit(b) {
            letter
        } else {
            "."
        }
    }

    /// Text of the registers, the status word, the instruction at the
    /// program counter and the cycle count.
    pub fn status(&self, memory: &Memory) -> (r: String)
        requires
            memory.wf(),
        ensures
            r@ == status_spec(self@, memory@),
    {
        let mut regs = String::new();
        let mut i: u32 = 0;
        while i < 16
            invariant
                i <= 16,
                regs@ == regs_text(self.r@, i as nat),
            decreases 16 - i,
        {
            let e = self.reg_entry(i);
            regs.append(e.as_str());
            i = i + 1;
        }
        let mut flags = String::from_str("[");
        flags.append(self.flag_text(PSRBit::N, "N"));
        flags.append(self.flag_text(PSRBit::Z, "Z"));
        flags.append(self.flag_text(PSRBit::C, "C"));
        flags.append(self.flag_text(PSRBit::V, "V"));
        flags.append(self.flag_text(PSRBit::I, "I"));
        flags.append(self.flag_text(PSRBit::F, "F"));
        flags.append(self.flag_text(PSRBit::T, "T"));
        flags.append("]");
        let line = if self.in_thumb_mode() {
            let address = self.r[15].wrapping_sub(2);
            let instruction = memory.load16(address);
            let mut l = hex(address, 8);
            l.append(": ");
            let op = hex(instruction as u32, 4);
            l.append(op.as_str());
            l.append(" ");
            let text = crate::cpu::thumb::disassemble::disassemble(instruction);
            l.append(text.as_str());
            l
        } else {
            let address = self.r[15].wrapping_sub(4);
            let instruction = memory.load32(address);
            let mut l = hex(address, 8);
            l.append(": ");
            let op = hex(instruction, 8);
            l.append(op.as_str());
            l.append(" ");
            let text = crate::cpu::arm::disassemble::disassemble(instruction);
            l.append(text.as_str());
            l
        };
        let mut s = String::from_str(regs.as_str());
        s.append("\n");
        s.append("PSR = ");
        let h = hex(self.cpsr, 8);
        s.append(h.as_str());
        s.append(" ");
        s.append(flags.as_str());
        s.append("\n");
        s.append(line.as_str());
        s.append("\n");
        s.append("Cycles: ");
        let c = decimal64(self.counter);
        s.append(c.as_str());
        s
    }
}

} // verus!
