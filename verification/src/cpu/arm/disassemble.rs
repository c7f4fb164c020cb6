//! Text of ARM instructions.
use vstd::prelude::*;
use vstd::string::*;
use crate::text::{decimal_spec, reg_spec, decimal, reg};
use crate::cpu::register::{PSRBit, flag, condition_spec};

verus! {

/// Bits 24 - 20 of an opcode.
pub open spec fn op_bits(opcode: u32) -> u32 {
    (opcode >> 20u32) & 0b11111
}

/// Bits 7 and 4 of an opcode, as a two-bit number.
pub open spec fn op_b74(opcode: u32) -> u32 {
    ((opcode >> 6u32) & 0b10) | ((opcode >> 4u32) & 0b01)
}

/// Bits 6 - 5 of an opcode.
pub open spec fn op_b65(opcode: u32) -> u32 {
    (opcode >> 5u32) & 0b11
}

/// The register field whose lowest bit is `at`.
pub open spec fn field(opcode: u32, at: u32) -> u32 {
    (opcode >> at) & 0b1111
}

/// Suffix of the condition field (empty for "always").
pub open spec fn cond_spec(opcode: u32) -> Seq<char> {
    let c = (opcode >> 28u32) & 0b1111;
    if c == 0 {
        "EQ"@
    } else if c == 1 {
        "NE"@
    } else if c == 2 {
        "CS"@
    } else if c == 3 {
        "CC"@
    } else if c == 4 {
        "MI"@
    } else if c == 5 {
        "PL"@
    } else if c == 6 {
        "VS"@
    } else if c == 7 {
        "VC"@
    } else if c == 8 {
        "HI"@
    } else if c == 9 {
        "LS"@
    } else if c == 10 {
        "GE"@
    } else if c == 11 {
        "LT"@
    } else if c == 12 {
        "GT"@
    } else if c == 13 {
        "LE"@
    } else if c == 14 {
        ""@
    } else {
        "undefined"@
    }
}

/// "S" when the opcode sets the condition codes.
pub open spec fn s_spec(opcode: u32) -> Seq<char> {
    if (opcode >> 20u32) & 1 == 1 { "S"@ } else { ""@ }
}

/// "B" when the opcode transfers a byte.
pub open spec fn b_spec(opcode: u32) -> Seq<char> {
    if (opcode >> 22u32) & 1 == 1 { "B"@ } else { ""@ }
}

/// Mnemonic of ALU operation `op` (0 - 15).
pub open spec fn alu_name_spec(op: u32) -> Seq<char> {
    if op == 0 {
        "AND"@
    } else if op == 1 {
        "EOR"@
    } else if op == 2 {
        "SUB"@
    } else if op == 3 {
        "RSB"@
    } else if op == 4 {
        "ADD"@
    } else if op == 5 {
        "ADC"@
    } else if op == 6 {
        "SBC"@
    } else if op == 7 {
        "RSC"@
    } else if op == 8 {
        "TST"@
    } else if op == 9 {
        "TEQ"@
    } else if op == 10 {
        "CMP"@
    } else if op == 11 {
        "CMN"@
    } else if op == 12 {
        "ORR"@
    } else if op == 13 {
        "MOV"@
    } else if op == 14 {
        "BIC"@
    } else {
        "MVN"@
    }
}

/// Mnemonic of the shift type in bits 6 - 5.
pub open spec fn shift_name_spec(opcode: u32) -> Seq<char> {
    let t = op_b65(opcode);
    if t == 0 {
        "LSL"@
    } else if t == 1 {
        "LSR"@
    } else if t == 2 {
        "ASR"@
    } else {
        "ROR"@
    }
}

/// Second operand of a register form: Rm, then its shift by Rs or by an
/// immediate amount.
pub open spec fn operand2_spec(opcode: u32) -> Seq<char> {
    if op_b74(opcode) == 1 {
        reg_spec(opcode & 0b1111) + ", "@ + shift_name_spec(opcode) + " "@ + reg_spec(field(opcode, 8))
    } else {
        reg_spec(opcode & 0b1111) + ", "@ + shift_name_spec(opcode) + " #"@ + decimal_spec(
            (opcode >> 7u32) & 0b11111,
        )
    }
}

/// Data processing with a register operand, PSR transfer, or branch and
/// exchange.
pub open spec fn dp_psr_bx_spec(opcode: u32) -> Seq<char> {
    let k = op_bits(opcode);
    let op = k >> 1u32;
    let rd = reg_spec(field(opcode, 12));
    let rn = reg_spec(field(opcode, 16));
    let rm = reg_spec(opcode & 0b1111);
    let cond = cond_spec(opcode);
    if k < 16 || k >= 24 {
        if op == 13 || op == 15 {
            alu_name_spec(op) + cond + s_spec(opcode) + " "@ + rd + ", "@ + operand2_spec(opcode)
        } else {
            alu_name_spec(op) + cond + s_spec(opcode) + " "@ + rd + ", "@ + rn + ", "@ + operand2_spec(
                opcode,
            )
        }
    } else if k == 17 || k == 19 || k == 21 || k == 23 {
        alu_name_spec(op) + cond + "S "@ + rn + ", "@ + operand2_spec(opcode)
    } else if k == 16 {
        "MRS"@ + cond + " "@ + rd + ", CPSR"@
    } else if k == 20 {
        "MRS"@ + cond + " "@ + rd + ", SPSR"@
    } else if k == 22 {
        "MSR"@ + cond + " SPSR, "@ + rm
    } else if op_b74(opcode) == 0 {
        "MSR"@ + cond + " CPSR, "@ + rm
    } else {
        "BX"@ + cond + " "@ + rm
    }
}

/// Data processing with an 8-bit immediate and its rotation.
pub open spec fn dp_imm_spec(opcode: u32) -> Seq<char> {
    let k = op_bits(opcode);
    let op = k >> 1u32;
    let rd = reg_spec(field(opcode, 12));
    let rn = reg_spec(field(opcode, 16));
    let cond = cond_spec(opcode);
    let imm = ", #"@ + decimal_spec(opcode & 0xff) + ", #"@ + decimal_spec((opcode >> 7u32) & 0b11110);
    if k < 16 || k >= 24 {
        if op == 13 || op == 15 {
            alu_name_spec(op) + cond + s_spec(opcode) + " "@ + rd + imm
        } else {
            alu_name_spec(op) + cond + s_spec(opcode) + " "@ + rd + ", "@ + rn + imm
        }
    } else if k == 17 || k == 19 || k == 21 || k == 23 {
        alu_name_spec(op) + cond + "S "@ + rn + imm
    } else {
        "undefined"@
    }
}

/// Mnemonic of a multiply long (bits 22 - 21).
pub open spec fn mull_name_spec(opcode: u32) -> Seq<char> {
    let t = (opcode >> 21u32) & 0b11;
    if t == 0 {
        "UMULL"@
    } else if t == 1 {
        "UMLAL"@
    } else if t == 2 {
        "SMULL"@
    } else {
        "SMLAL"@
    }
}

/// Multiply, multiply long, or single data swap.
pub open spec fn multiply_swap_spec(opcode: u32) -> Seq<char> {
    let k = op_bits(opcode);
    let cond = cond_spec(opcode);
    let rm = reg_spec(opcode & 0b1111);
    let rs = reg_spec(field(opcode, 8));
    if k <= 3 {
        (if k <= 1 { "MUL"@ } else { "MLA"@ }) + cond + s_spec(opcode) + " "@ + reg_spec(field(opcode, 16))
            + ", "@ + rm + ", "@ + rs
    } else if 8 <= k <= 15 {
        mull_name_spec(opcode) + cond + s_spec(opcode) + " "@ + reg_spec(field(opcode, 16)) + ", "@
            + reg_spec(field(opcode, 12)) + ", "@ + rm + ", "@ + rs
    } else if k == 16 || k == 20 {
        "SWP"@ + cond + b_spec(opcode) + " "@ + reg_spec(field(opcode, 12)) + ", "@ + rm + ", ["@
            + reg_spec(field(opcode, 16)) + "]"@
    } else {
        "undefined"@
    }
}

/// Text of an ARM instruction: data processing, PSR transfer, branch and
/// exchange, multiply and swap in full; the other classes by name.
pub open spec fn disassemble_spec(opcode: u32) -> Seq<char> {
    let top = (opcode >> 25u32) & 0b111;
    if top == 0 {
        if op_b74(opcode) < 3 {
            dp_psr_bx_spec(opcode)
        } else if op_b65(opcode) > 0 {
            "Halfword Data Transfer"@
        } else {
            multiply_swap_spec(opcode)
        }
    } else if top == 1 {
        dp_imm_spec(opcode)
    } else if top == 2 {
        "Single Data Transfer"@
    } else if top == 3 {
        "Single Data Transfer / undefined"@
    } else if top == 4 {
        "Block Data Transfer"@
    } else if top == 5 {
        "Branch"@
    } else if top == 6 {
        "Coprocessor"@
    } else {
        "SWI / Coprocessor"@
    }
}

fn cond_text(opcode: u32) -> (r: &'static str)
    ensures
        r@ == cond_spec(opcode),
{
    match (opcode >> 28u32) & 0b1111 {
        0 => "EQ",
        1 => "NE",
        2 => "CS",
        3 => "CC",
        4 => "MI",
        5 => "PL",
        6 => "VS",
        7 => "VC",
        8 => "HI",
        9 => "LS",
        10 => "GE",
        11 => "LT",
        12 => "GT",
        13 => "LE",
        14 => "",
        _ => "undefined",
    }
}

fn s_text(opcode: u32) -> (r: &'static str)
    ensures
        r@ == s_spec(opcode),
{
    if (opcode >> 20u32) & 1 == 1 {
        "S"
    } else {
        ""
    }
}

fn b_text(opcode: u32) -> (r: &'static str)
    ensures
        r@ == b_spec(opcode),
{
    if (opcode >> 22u32) & 1 == 1 {
        "B"
    } else {
        ""
    }
}

fn alu_name(op: u32) -> (r: &'static str)
    ensures
        r@ == alu_name_spec(op),
{
    match op {
        0 => "AND",
        1 => "EOR",
        2 => "SUB",
        3 => "RSB",
        4 => "ADD",
        5 => "ADC",
        6 => "SBC",
        7 => "RSC",
        8 => "TST",
        9 => "TEQ",
        10 => "CMP",
        11 => "CMN",
        12 => "ORR",
        13 => "MOV",
        14 => "BIC",
        _ => "MVN",
    }
}

fn shift_name(opcode: u32) -> (r: &'static str)
    ensures
        r@ == shift_name_spec(opcode),
{
    match (opcode >> 5u32) & 0b11 {
        0 => "LSL",
        1 => "LSR",
        2 => "ASR",
        _ => "ROR",
    }
}

fn mull_name(opcode: u32) -> (r: &'static str)
    ensures
        r@ == mull_name_spec(opcode),
{
    match (opcode >> 21u32) & 0b11 {
        0 => "UMULL",
        1 => "UMLAL",
        2 => "SMULL",
        _ => "SMLAL",
    }
}

fn b74(opcode: u32) -> (r: u32)
    ensures
        r == op_b74(opcode),
{
    (opcode >> 6u32) & 0b10 | (opcode >> 4u32) & 0b01
}

/// Text of the second operand of a register form.
pub fn operand2(opcode: u32) -> (r: String)
    ensures
        r@ == operand2_spec(opcode),
{
    let rm = reg(opcode & 0b1111);
    let mut s = String::from_str(rm.as_str());
    s.append(", ");
    s.append(shift_name(opcode));
    if b74(opcode) == 1 {
        s.append(" ");
        let rs = reg((opcode >> 8u32) & 0b1111);
        s.append(rs.as_str());
    } else {
        s.append(" #");
        let amount = decimal((opcode >> 7u32) & 0b11111);
        s.append(amount.as_str());
    }
    s
}

/// Text of a data processing (register operand), PSR transfer or branch
/// and exchange instruction.
pub fn data_process_psr_bx(opcode: u32) -> (r: String)
    ensures
        r@ == dp_psr_bx_spec(opcode),
{
    let k = (opcode >> 20u32) & 0b11111;
    let op = k >> 1u32;
    let rd = reg((opcode >> 12u32) & 0b1111);
    let rn = reg((opcode >> 16u32) & 0b1111);
    let rm = reg(opcode & 0b1111);
    let cond = cond_text(opcode);
    if k < 16 || k >= 24 {
        let mut s = String::from_str(alu_name(op));
        s.append(cond);
        s.append(s_text(opcode));
        s.append(" ");
        s.append(rd.as_str());
        s.append(", ");
        if !(op == 13 || op == 15) {
            s.append(rn.as_str());
            s.append(", ");
        }
        let op2 = operand2(opcode);
        s.append(op2.as_str());
        s
    } else if k == 17 || k == 19 || k == 21 || k == 23 {
        let mut s = String::from_str(alu_name(op));
        s.append(cond);
        s.append("S ");
        s.append(rn.as_str());
        s.append(", ");
        let op2 = operand2(opcode);
        s.append(op2.as_str());
        s
    } else if k == 16 || k == 20 {
        let mut s = String::from_str("MRS");
        s.append(cond);
        s.append(" ");
        s.append(rd.as_str());
        s.append(if k == 16 {
            ", CPSR"
        } else {
            ", SPSR"
        });
        s
    } else if k == 22 {
        let mut s = String::from_str("MSR");
        s.append(cond);
        s.append(" SPSR, ");
        s.append(rm.as_str());
        s
    } else if b74(opcode) == 0 {
        let mut s = String::from_str("MSR");
        s.append(cond);
        s.append(" CPSR, ");
        s.append(rm.as_str());
        s
    } else {
        let mut s = String::from_str("BX");
        s.append(cond);
        s.append(" ");
        s.append(rm.as_str());
        s
    }
}

/// Text of a data processing instruction with an immediate operand.
pub fn data_process_imm(opcode: u32) -> (r: String)
    ensures
        r@ == dp_imm_spec(opcode),
{
    let k = (opcode >> 20u32) & 0b11111;
    let op = k >> 1u32;
    let mut imm = String::from_str(", #");
    let value = decimal(opcode & 0xff);
    imm.append(value.as_str());
    imm.append(", #");
    let rotate = decimal((opcode >> 7u32) & 0b11110);
    imm.append(rotate.as_str());
    if k < 16 || k >= 24 {
        let mut s = String::from_str(alu_name(op));
        s.append(cond_text(opcode));
        s.append(s_text(opcode));
        s.append(" ");
        let rd = reg((opcode >> 12u32) & 0b1111);
        s.append(rd.as_str());
        if !(op == 13 || op == 15) {
            s.append(", ");
            let rn = reg((opcode >> 16u32) & 0b1111);
            s.append(rn.as_str());
        }
        s.append(imm.as_str());
        s
    } else if k == 17 || k == 19 || k == 21 || k == 23 {
        let mut s = String::from_str(alu_name(op));
        s.append(cond_text(opcode));
        s.append("S ");
        let rn = reg((opcode >> 16u32) & 0b1111);
        s.append(rn.as_str());
        s.append(imm.as_str());
        s
    } else {
        String::from_str("undefined")
    }
}

/// Text of a multiply, multiply long or single data swap instruction.
pub fn multiply_swap(opcode: u32) -> (r: String)
    ensures
        r@ == multiply_swap_spec(opcode),
{
    let k = (opcode >> 20u32) & 0b11111;
    let rm = reg(opcode & 0b1111);
    let rs = reg((opcode >> 8u32) & 0b1111);
    let hi = reg((opcode >> 16u32) & 0b1111);
    let lo = reg((opcode >> 12u32) & 0b1111);
    if k <= 3 || (8 <= k && k <= 15) {
        let mut s = String::from_str(
            if k <= 1 {
                "MUL"
            } else if k <= 3 {
                "MLA"
            } else {
                mull_name(opcode)
            },
        );
        s.append(cond_text(opcode));
        s.append(s_text(opcode));
        s.append(" ");
        s.append(hi.as_str());
        s.append(", ");
        if k > 3 {
            s.append(lo.as_str());
            s.append(", ");
        }
        s.append(rm.as_str());
        s.append(", ");
        s.append(rs.as_str());
        s
    } else if k == 16 || k == 20 {
        let mut s = String::from_str("SWP");
        s.append(cond_text(opcode));
        s.append(b_text(opcode));
        s.append(" ");
        s.append(lo.as_str());
        s.append(", ");
        s.append(rm.as_str());
        s.append(", [");
        s.append(hi.as_str());
        s.append("]");
        s
    } else {
        String::from_str("undefined")
    }
}

/// Text of an ARM instruction.
pub fn disassemble(opcode: u32) -> (r: String)
    ensures
        r@ == disassemble_spec(opcode),
{
    match (opcode >> 25u32) & 0b111 {
        0 => {
            if b74(opcode) < 0b11 {
                data_process_psr_bx(opcode)
            } else if (opcode >> 5u32) & 0b11 > 0 {
                String::from_str("Halfword Data Transfer")
            } else {
                multiply_swap(opcode)
            }
        },
        1 => data_process_imm(opcode),
        2 => String::from_str("Single Data Transfer"),
        3 => String::from_str("Single Data Transfer / undefined"),
        4 => String::from_str("Block Data Transfer"),
        5 => String::from_str("Branch"),
        6 => String::from_str("Coprocessor"),
        _ => String::from_str("SWI / Coprocessor"),
    }
}

/// The condition suffix that the text of an instruction shows names the
/// condition under which the processor runs it: "EQ" when Z is set, "NE"
/// when clear, "CS" / "CC" on C, "MI" / "PL" on N, "VS" / "VC" on V, "HI"
/// when C is set and Z clear, "LS" otherwise, "GE" when N equals V, "LT"
/// when they differ, "GT" when Z is clear and N equals V, "LE" otherwise,
/// and no suffix for an instruction that always runs.
pub proof fn lemma_cond_text_meaning(opcode: u32, psr: u32)
    ensures
        ({
            let t = cond_spec(opcode);
            let run = condition_spec(psr, opcode >> 28u32);
            let n = flag(psr, PSRBit::N);
            let z = flag(psr, PSRBit::Z);
            let c = flag(psr, PSRBit::C);
            let v = flag(psr, PSRBit::V);
            &&& t == "EQ"@ ==> (run <==> z)
            &&& t == "NE"@ ==> (run <==> !z)
            &&& t == "CS"@ ==> (run <==> c)
            &&& t == "CC"@ ==> (run <==> !c)
            &&& t == "MI"@ ==> (run <==> n)
            &&& t == "PL"@ ==> (run <==> !n)
            &&& t == "VS"@ ==> (run <==> v)
            &&& t == "VC"@ ==> (run <==> !v)
            &&& t == "HI"@ ==> (run <==> c && !z)
            &&& t == "LS"@ ==> (run <==> !c || z)
            &&& t == "GE"@ ==> (run <==> n == v)
            &&& t == "LT"@ ==> (run <==> n != v)
            &&& t == "GT"@ ==> (run <==> !z && n == v)
            &&& t == "LE"@ ==> (run <==> z || n != v)
            &&& t == ""@ ==> run
        }),
{
    reveal_strlit("EQ");
    reveal_strlit("NE");
    reveal_strlit("CS");
    reveal_strlit("CC");
    reveal_strlit("MI");
    reveal_strlit("PL");
    reveal_strlit("VS");
    reveal_strlit("VC");
    reveal_strlit("HI");
    reveal_strlit("LS");
    reveal_strlit("GE");
    reveal_strlit("LT");
    reveal_strlit("GT");
    reveal_strlit("LE");
    reveal_strlit("");
    reveal_strlit("undefined");
    assert((opcode >> 28u32) & 0b1111 == opcode >> 28u32) by (bit_vector);
    let t = cond_spec(opcode);
    let k = opcode >> 28u32;
    if k == 14 {
        assert(t.len() == 0);
    } else {
        assert(t.len() >= 2);
        let names: Seq<Seq<char>> = seq![
            "EQ"@, "NE"@, "CS"@, "CC"@, "MI"@, "PL"@, "VS"@, "VC"@,
            "HI"@, "LS"@, "GE"@, "LT"@, "GT"@, "LE"@,
        ];
        assert forall|q: int| 0 <= q < 14 && t == #[trigger] names[q] implies q == k by {
            assert(t[0] == names[q][0] && t[1] == names[q][1]);
        }
    }
}

} // verus!
