//! Text of Thumb instructions.
use vstd::prelude::*;
use vstd::string::*;
use crate::text::{decimal_spec, reg_spec, decimal, reg};

verus! {

/// Mnemonic of a move, compare, add or subtract immediate (bits 12 - 11).
pub open spec fn mcas_name_spec(op: u32) -> Seq<char> {
    if op == 0 {
        "MOV"@
    } else if op == 1 {
        "CMP"@
    } else if op == 2 {
        "ADD"@
    } else {
        "SUB"@
    }
}

/// Mnemonic of the register operation in bits 10 - 6, or "" when the
/// encoding has none.
pub open spec fn reg_op_name_spec(op: u32) -> Seq<char> {
    if op == 0 {
        "ADD"@
    } else if op == 1 {
        "EOR"@
    } else if op == 2 {
        "LSL"@
    } else if op == 3 {
        "LSR"@
    } else if op == 4 {
        "ASR"@
    } else if op == 5 {
        "ADC"@
    } else if op == 6 {
        "SBC"@
    } else if op == 7 {
        "ROR"@
    } else if op == 8 {
        "TST"@
    } else if op == 9 {
        "NEG"@
    } else if op == 10 {
        "CMP"@
    } else if op == 11 {
        "CMN"@
    } else if op == 12 {
        "ORR"@
    } else if op == 13 {
        "MUL"@
    } else if op == 14 {
        "BIC"@
    } else if op == 15 {
        "MVN"@
    } else if 17 <= op <= 19 {
        "ADD"@
    } else if 21 <= op <= 23 {
        "CMP"@
    } else if 25 <= op <= 27 {
        "MOV"@
    } else {
        ""@
    }
}

/// Whether bits 10 - 6 name a register operation (other than BX).
pub open spec fn reg_op_defined(op: u32) -> bool {
    op <= 15 || 17 <= op <= 19 || 21 <= op <= 23 || 25 <= op <= 27
}

/// Name of the instruction classes shown without operands (bits 15 - 11
/// from 9 on).
pub open spec fn class_name_spec(top: u32) -> Seq<char> {
    if top == 9 {
        "LDR PC"@
    } else if top == 10 {
        "STR/STRB/STRH/LDSB"@
    } else if top == 11 {
        "LDR/LDRB/LDRH/LDSH"@
    } else if top == 12 {
        "STR imm"@
    } else if top == 13 {
        "STRB imm"@
    } else if top == 14 {
        "LDR imm"@
    } else if top == 15 {
        "LDRB imm"@
    } else if top == 16 {
        "STRH imm"@
    } else if top == 17 {
        "LDRH imm"@
    } else if top == 18 {
        "STR SP"@
    } else if top == 19 {
        "LDR SP"@
    } else if top == 20 {
        "ADD Rd, PC"@
    } else if top == 21 {
        "ADD Rd, SP"@
    } else if top == 22 {
        "ADD SP imm/PUSH"@
    } else if top == 23 {
        "POP"@
    } else if top == 24 {
        "STMIA"@
    } else if top == 25 {
        "LDMIA"@
    } else if top == 26 {
        "BEQ-BVC"@
    } else if top == 27 {
        "BHI-BLE/SWI"@
    } else if top == 28 {
        "B"@
    } else if top == 30 {
        "BL-0"@
    } else if top == 31 {
        "BL-1"@
    } else {
        "undefined"@
    }
}

/// Text of a Thumb instruction: shifts, add / subtract, immediate
/// operations and register operations in full; the other classes by name.
pub open spec fn disassemble_spec(opcode: u16) -> Seq<char> {
    let x = opcode as u32;
    let top = x >> 11u32;
    let rd = reg_spec(x & 0b111);
    let rs = reg_spec((x >> 3u32) & 0b111);
    let rn = (x >> 6u32) & 0b111;
    if top <= 2 {
        (if top == 0 {
            "LSL "@
        } else if top == 1 {
            "LSR "@
        } else {
            "ASR "@
        }) + rd + ", "@ + rs + ", #"@ + decimal_spec(
            (x >> 6u32) & 0b11111,
        )
    } else if top == 3 {
        let t = (x >> 9u32) & 0b11;
        (if t == 0 || t == 2 { "ADD "@ } else { "SUB "@ }) + rd + ", "@ + rs + (if t <= 1 {
            ", "@ + reg_spec(rn)
        } else {
            ", #"@ + decimal_spec(rn)
        })
    } else if top <= 7 {
        mcas_name_spec((top - 4) as u32) + " "@ + reg_spec((x >> 8u32) & 0b111) + ", #"@ + decimal_spec(x & 0xff)
    } else if top == 8 {
        let op = (x >> 6u32) & 0b11111;
        if op == 28 || op == 29 {
            "BX "@ + rs
        } else if !reg_op_defined(op) {
            "undefined"@
        } else {
            reg_op_name_spec(op) + " "@ + rd + ", "@ + rs
        }
    } else {
        class_name_spec(top)
    }
}

fn mcas_name(op: u32) -> (r: &'static str)
    ensures
        r@ == mcas_name_spec(op),
{
    match op {
        0 => "MOV",
        1 => "CMP",
        2 => "ADD",
        _ => "SUB",
    }
}

fn reg_op_name(op: u32) -> (r: &'static str)
    ensures
        r@ == reg_op_name_spec(op),
{
    match op {
        0 => "ADD",
        1 => "EOR",
        2 => "LSL",
        3 => "LSR",
        4 => "ASR",
        5 => "ADC",
        6 => "SBC",
        7 => "ROR",
        8 => "TST",
        9 => "NEG",
        10 => "CMP",
        11 => "CMN",
        12 => "ORR",
        13 => "MUL",
        14 => "BIC",
        15 => "MVN",
        17 | 18 | 19 => "ADD",
        21 | 22 | 23 => "CMP",
        25 | 26 | 27 => "MOV",
        _ => "",
    }
}

fn class_name(top: u32) -> (r: &'static str)
    ensures
        r@ == class_name_spec(top),
{
    match top {
        9 => "LDR PC",
        10 => "STR/STRB/STRH/LDSB",
        11 => "LDR/LDRB/LDRH/LDSH",
        12 => "STR imm",
        13 => "STRB imm",
        14 => "LDR imm",
        15 => "LDRB imm",
        16 => "STRH imm",
        17 => "LDRH imm",
        18 => "STR SP",
        19 => "LDR SP",
        20 => "ADD Rd, PC",
        21 => "ADD Rd, SP",
        22 => "ADD SP imm/PUSH",
        23 => "POP",
        24 => "STMIA",
        25 => "LDMIA",
        26 => "BEQ-BVC",
        27 => "BHI-BLE/SWI",
        28 => "B",
        30 => "BL-0",
        31 => "BL-1",
        _ => "undefined",
    }
}

/// Text of a Thumb instruction.
pub fn disassemble(opcode: u16) -> (r: String)
    ensures
        r@ == disassemble_spec(opcode),
{
    let x = opcode as u32;
    let top = x >> 11u32;
    let rd = reg(x & 0b111);
    let rs = reg((x >> 3u32) & 0b111);
    let rn = (x >> 6u32) & 0b111;
    if top <= 3 {
        let t = (x >> 9u32) & 0b11;
        let mut s = String::from_str(
            if top == 0 {
                "LSL "
            } else if top == 1 {
                "LSR "
            } else if top == 2 {
                "ASR "
            } else if t == 0 || t == 2 {
                "ADD "
            } else {
                "SUB "
            },
        );
        s.append(rd.as_str());
        s.append(", ");
        s.append(rs.as_str());
        if top <= 2 {
            s.append(", #");
            let amount = decimal((x >> 6u32) & 0b11111);
            s.append(amount.as_str());
        } else {
            let mut operand = String::from_str(if t <= 1 { ", " } else { ", #" });
            let n = if t <= 1 { reg(rn) } else { decimal(rn) };
            operand.append(n.as_str());
            s.append(operand.as_str());
        }
        s
    } else if top <= 7 {
        let mut s = String::from_str(mcas_name(top - 4));
        s.append(" ");
        let rdb = reg((x >> 8u32) & 0b111);
        s.append(rdb.as_str());
        s.append(", #");
        let value = decimal(x & 0xff);
        s.append(value.as_str());
        s
    } else if top == 8 {
        let op = (x >> 6u32) & 0b11111;
        if op == 28 || op == 29 {
            let mut s = String::from_str("BX ");
            s.append(rs.as_str());
            s
        } else {
            let defined = op <= 15 || (17 <= op && op <= 19) || (21 <= op && op <= 23) || (25 <= op
                && op <= 27);
            if !defined {
                String::from_str("undefined")
            } else {
                let mut s = String::from_str(reg_op_name(op));
                s.append(" ");
                s.append(rd.as_str());
                s.append(", ");
                s.append(rs.as_str());
                s
            }
        }
    } else {
        String::from_str(class_name(top))
    }
}

} // verus!
