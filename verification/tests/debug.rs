use gamebar::debug::{parse_hex, Breakpoints};
use gamebar::memory::Memory;

#[test]
fn parse_hex_reads_digits_of_either_case() {
    assert_eq!(parse_hex(b"ff"), Some(0xff));
    assert_eq!(parse_hex(b"8000000"), Some(0x0800_0000));
    assert_eq!(parse_hex(b"DeadBeef"), Some(0xdead_beef));
    assert_eq!(parse_hex(b"+1a"), Some(0x1a));
    assert_eq!(parse_hex(b"ffffffff"), Some(0xffff_ffff));
}

#[test]
fn parse_hex_refuses_what_is_no_number() {
    assert_eq!(parse_hex(b""), None);
    assert_eq!(parse_hex(b"+"), None);
    assert_eq!(parse_hex(b"0x10"), None);
    assert_eq!(parse_hex(b"-1"), None);
    assert_eq!(parse_hex(b"12g"), None);
    assert_eq!(parse_hex(b"100000000"), None);
}

#[test]
fn parse_hex_agrees_with_std() {
    let cases: [&str; 10] = ["0", "7f", "+0", "00000000ff", "fffffffff", "A", "z", "", "++1", "123456789"];
    for s in cases.iter() {
        assert_eq!(parse_hex(s.as_bytes()), u32::from_str_radix(s, 16).ok(), "{}", s);
    }
}

#[test]
fn breakpoints_insert_remove_contains() {
    let mut b = Breakpoints::new();
    assert!(!b.contains(0x0800_0000));
    b.insert(0x0800_0000);
    b.insert(0x0800_0004);
    b.insert(0x0800_0000);
    assert!(b.contains(0x0800_0000));
    assert!(b.contains(0x0800_0004));
    let mut l = b.list();
    l.sort();
    assert_eq!(l, vec![0x0800_0000, 0x0800_0004]);
    b.remove(0x0800_0000);
    assert!(!b.contains(0x0800_0000));
    assert!(b.contains(0x0800_0004));
    b.remove(0x1234);
    assert_eq!(b.list(), vec![0x0800_0004]);
}

#[test]
fn dump_reads_256_bytes() {
    let mut m = Memory::new();
    m.store32(0x0200_0000, 0x4433_2211);
    m.store8(0x0200_00ff, 0x99);
    let d = m.dump(0x0200_0000);
    assert_eq!(d.len(), 256);
    assert_eq!(&d[0..5], &[0x11, 0x22, 0x33, 0x44, 0x00]);
    assert_eq!(d[255], 0x99);
}
