use gamebar::memory::{Memory, mirror};
use gamebar::util::Bus;

#[test]
fn store_load_word_halfword_byte() {
    let mut m = Memory::new();
    m.store32(0x0200_0010, 0x1234_5678);
    assert_eq!(m.load32(0x0200_0010), 0x1234_5678);
    assert_eq!(m.load16(0x0200_0010), 0x5678);
    assert_eq!(m.load16(0x0200_0012), 0x1234);
    assert_eq!(m.load8(0x0200_0013), 0x12);
    m.store16(0x0300_0002, 0xbeef);
    assert_eq!(m.load16(0x0300_0002), 0xbeef);
    m.store8(0x0e00_0001, 0x5a);
    assert_eq!(m.load8(0x0e00_0001), 0x5a);
}

#[test]
fn unaligned_word_load_rotates() {
    let mut m = Memory::new();
    m.store32(0x0200_0000, 0x1122_3344);
    // The addressed byte becomes the least significant one.
    assert_eq!(m.load32(0x0200_0001), 0x4411_2233);
}

#[test]
fn read_only_and_unmapped_regions() {
    let mut m = Memory::new();
    // BIOS and ROM take no stores; an unmapped address loads 0.
    m.store32(0x0000_0000, 0xffff_ffff);
    m.store16(0x0800_0000, 0xffff);
    m.store8(0x0600_0000, 0xff);
    assert_eq!(m.load32(0x0000_0000), 0);
    assert_eq!(m.load16(0x0800_0000), 0);
    assert_eq!(m.load8(0x0600_0000), 0);
    assert_eq!(m.load32(0x1000_0000), 0);
}

#[test]
fn store_leaves_other_regions() {
    let mut m = Memory::new();
    m.store32(0x0300_0000, 7);
    m.store32(0x0200_0000, 9);
    assert_eq!(m.load32(0x0300_0000), 7);
}

#[test]
fn ewram_mirror() {
    let mut m = Memory::new();
    m.store8(0x0200_0005, 0x42);
    assert_eq!(m.load8(0x0204_0005), 0x42);
    assert_eq!(mirror(0x0204_0005), 5);
    assert_eq!(mirror(0x0500_0404), 4);
}

#[test]
fn io_writes_logged() {
    let mut m = Memory::new();
    m.store16(0x0400_0000, 0x0403);
    m.store32(0x0400_0008, 0x0002_0001);
    assert_eq!(m.io_writes, vec![(0x0400_0000, 0x0403), (0x0400_0008, 0x0001), (0x0400_000a, 0x0002)]);
    assert_eq!(m.ioram16(0), 0x0403);
}

#[test]
fn ioram_halfword_roundtrip() {
    let mut m = Memory::new();
    m.ioram16_s(0x130, 0x03ff);
    assert_eq!(m.ioram16(0x130), 0x03ff);
    assert_eq!(m.get_keyinput(), 0x03ff);
    m.set_keyinput(0x03fe);
    assert_eq!(m.get_keyinput(), 0x03fe);
    assert_eq!(m.ioram32(0x130), 0x03fe);
}

#[test]
fn load_rom_and_bios() {
    let mut m = Memory::new();
    let n = m.load_rom(&[1, 2, 3, 4]);
    assert_eq!(n, 4);
    assert_eq!(m.load32(0x0800_0000), 0x0403_0201);
    assert_eq!(m.load32(0x0a00_0000), 0x0403_0201);
    let n = m.load_bios(&vec![0xaa; 0x5000]);
    assert_eq!(n, 0x4000);
    assert_eq!(m.load8(0x0000_3fff), 0xaa);
}

#[test]
fn oam_halfwords() {
    let mut m = Memory::new();
    m.oam_store16(3, 0xabcd);
    assert_eq!(m.oam_load16(2), 0xabcd);
    assert_eq!(m.oam_load8(3), 0xab);
    m.oam_store32(8, 0x1111_2222);
    assert_eq!(m.oam_load32(8), 0x1111_2222);
}

#[test]
fn vram_tiles_and_maps() {
    let mut m = Memory::new();
    m.vram[0x20] = 0x5a;
    // 4-bit tile 1, pixels 0 and 1 of row 0 of block 0.
    assert_eq!(m.tile_data4(0, 1, 0, 0), 0xa);
    assert_eq!(m.tile_data4(0, 1, 1, 0), 0x5);
    m.vram[0x4000 + 64 + 9] = 0x77;
    assert_eq!(m.tile_data8(1, 1, 1, 1), 0x77);
    assert_eq!(m.tile_data(true, 1, 1, 1, 1), 0x77);
    assert_eq!(gamebar::memory::vram::map_entry(3, 32, 32), 32 * 32 + 32 + 0x3e0 + 0x400);
    m.vram[0x800 + 2 * 33] = 0x34;
    m.vram[0x800 + 2 * 33 + 1] = 0x12;
    assert_eq!(m.text_tile_map(1, 0, 1, 1), 0x1234);
    m.vram[0x800 + 32 + 3] = 9;
    assert_eq!(m.affine_tile_map(1, 1, 3, 1), 9);
}

#[test]
fn palette_colors() {
    let mut m = Memory::new();
    m.param[0] = 0x1f;
    m.param[2 * 0x12] = 0xe0;
    m.param[2 * 0x12 + 1] = 0x03;
    m.param[0x200 + 2 * 0x21] = 0x00;
    m.param[0x200 + 2 * 0x21 + 1] = 0x7c;
    assert_eq!(m.backdrop(), 0x001f);
    assert_eq!(m.bg_palette(1, 2), 0x03e0);
    assert_eq!(m.bg_palette(1, 0), 0x8000);
    assert_eq!(m.obj_palette(2, 1), 0x7c00);
}

#[test]
fn slice_bus() {
    let mut b = [0u8; 8];
    b.store32(0, 0xdead_beef);
    b.store16(4, 0x1234);
    assert_eq!(b.load32(0), 0xdead_beef);
    assert_eq!(b.load16(4), 0x1234);
    assert_eq!(b.load8(5), 0x12);
    assert_eq!(b[3], 0xde);
}

#[test]
fn palette_colors_lists_both_palettes() {
    let mut m = Memory::new();
    // Background color 1: pure red; sprite color 2: pure blue.
    m.store16(0x0500_0002, 0x001f);
    m.store16(0x0500_0204, 0x7c00);
    let colors = m.palette_colors();
    assert_eq!(colors.len(), 0x200);
    assert_eq!(colors[1], 0x00f8_0000);
    assert_eq!(colors[0x102], 0x0000_00f8);
    assert_eq!(colors[2], 0);
}

#[test]
fn tile_colors_reads_nibbles_low_first() {
    let mut m = Memory::new();
    m.store16(0x0500_0202, 0x03e0); // sprite color 1: green
    m.store16(0x0500_0204, 0x7fff); // sprite color 2: white
    // Sprite tile 1, first byte: left pixel color 1, right pixel color 2.
    m.store16(0x0601_0020, 0x0021);
    let colors = m.tile_colors(1);
    assert_eq!(colors.len(), 64);
    assert_eq!(colors[0], 0x0000_f800);
    assert_eq!(colors[1], 0x00f8_f8f8);
    assert_eq!(colors[2], 0);
}

#[test]
fn vram_upper_mirror() {
    assert_eq!(mirror(0x0601_8000), 0x1_0000);
    assert_eq!(mirror(0x0601_fffe), 0x1_7ffe);
    assert_eq!(mirror(0x0602_0004), 4);
    let mut m = Memory::new();
    m.store16(0x0601_8002, 0xbeef);
    assert_eq!(m.load16(0x0601_0002), 0xbeef);
}
