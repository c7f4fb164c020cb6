use gamebar::util::{bits, bit, sign_extend, BitField};

#[test]
fn util_test_bits() {
    assert_eq!(bits(0b11110, 4, 1), 0b1111);
}

#[test]
fn util_test_bit() {
    assert_eq!(bit(0x80000000, 31), true);
}

#[test]
fn util_test_sign_extend() {
    assert_eq!(sign_extend(0b10, 1), -2);
}

#[test]
fn lib_test_bits() {
    assert_eq!(0b11110u32.bits(4, 1), 0b1111);
}

#[test]
fn lib_test_bit() {
    assert_eq!(0x80000000u32.bit(31), true);
}

#[test]
fn lib_test_sign_extend() {
    assert_eq!(sign_extend(0b10, 1), -2);
}

#[test]
fn bits_of_the_whole_word() {
    assert_eq!(bits(0xaabb_ccdd, 31, 0), 0xaabb_ccdd);
    assert_eq!(0xaabb_ccddu32.bits(31, 1), 0x555d_e66e);
    assert_eq!(0xabcdu16.bits(15, 0), 0xabcd);
}
