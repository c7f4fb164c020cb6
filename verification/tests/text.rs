use gamebar::bitwise::{Field, FieldValue, Register};
use gamebar::cpu::thumb::disassemble::disassemble;
use gamebar::cpu::arm::disassemble::disassemble as arm_disassemble;
use gamebar::text::{decimal, hex, pad2};

#[test]
fn thumb_disassembly() {
    assert_eq!(disassemble(0b00000_00101_010_001), "LSL R1, R2, #5");
    assert_eq!(disassemble(0b00010_00001_111_000), "ASR R0, R7, #1");
    assert_eq!(disassemble(0x0848), "LSR R0, R1, #1");
    assert_eq!(disassemble(0b00011_10_011_001_010), "ADD R2, R1, #3");
    assert_eq!(disassemble(0b00011_01_011_001_010), "SUB R2, R1, R3");
    assert_eq!(disassemble(0b00100_101_11111111), "MOV R5, #255");
    assert_eq!(disassemble(0b01000_01101_001_010), "MUL R2, R1");
    assert_eq!(disassemble(0b01000_11100_110_000), "BX R6");
    assert_eq!(disassemble(0b01000_10000_000_000), "undefined");
    assert_eq!(disassemble(0b11100_00000000000), "B");
    assert_eq!(disassemble(0b11101_00000000000), "undefined");
}

#[test]
fn arm_disassembly_other_classes() {
    assert_eq!(arm_disassemble(0xe3a0_1005), "MOV R1, #5, #0");
    assert_eq!(arm_disassemble(0x0351_0001), "CMPEQS R1, #1, #0");
    assert_eq!(arm_disassemble(0xe592_1004), "Single Data Transfer");
    assert_eq!(arm_disassemble(0xe8bd_8000), "Block Data Transfer");
    assert_eq!(arm_disassemble(0xeaff_fffe), "Branch");
    assert_eq!(arm_disassemble(0xef00_0000), "SWI / Coprocessor");
    assert_eq!(arm_disassemble(0xf1b0_00b0), "Halfword Data Transfer");
}

#[test]
fn number_text() {
    assert_eq!(decimal(0), "0");
    assert_eq!(decimal(4294967295), "4294967295");
    assert_eq!(hex(0xbeef, 8), "0000beef");
    assert_eq!(hex(0x12345, 4), "2345");
    assert_eq!(pad2(7), "7 ");
    assert_eq!(pad2(15), "15");
    assert_eq!(gamebar::text::reg(14), "R14");
}

#[test]
fn bit_fields() {
    let f: Field<u32> = Field::new(0b111, 4);
    assert_eq!(f.read(0b1010_0000), 0b010);
    assert!(Field::new(0b111u32, 4).is_set(0b0001_0000));
    assert!(!Field::new(0b111u32, 4).is_set(0b1000_0000));
    let v = FieldValue { mask: 0xf0u16, value: 0x50u16 };
    let w = FieldValue { mask: 0x0fu16, value: 0x03u16 };
    assert_eq!(v.modify(0xffff), 0xff5f);
    assert!(v.matches(0x1256));
    let both = v.add(w);
    assert_eq!(both.mask(), 0xff);
    assert_eq!(both.get(), 0x53);
    let mut r: Register<u8> = Register::new(0xff);
    r.modify(FieldValue { mask: 0x0fu8, value: 0x05u8 });
    assert_eq!(r.get(), 0xf5);
    r.write(FieldValue { mask: 0x0fu8, value: 0x05u8 });
    assert_eq!(r.get(), 0x05);
    assert_eq!(r.read(Field::new(0x3u8, 2)), 1);
}
