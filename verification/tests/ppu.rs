use gamebar::console::Console;
use gamebar::cpu::CPU;
use gamebar::interrupt::IRQController;
use gamebar::memory::Memory;
use gamebar::ppu::PPU;
use gamebar::ppu::TRANSPARENT;
use gamebar::ppu::background::{out_of_bound, wrap_around, dimension};
use gamebar::ppu::color::RGB;
use gamebar::ppu::layer::Layer;
use gamebar::ppu::sprite::Sprite;
use gamebar::ppu::window::Window;
use gamebar::util::Color;

#[test]
fn rgb_conversion() {
    assert_eq!(RGB(0x001f), 0x00f8_0000);
    assert_eq!(RGB(0x03e0), 0x0000_f800);
    assert_eq!(RGB(0x7c00), 0x0000_00f8);
    assert_eq!(0x7fffu16.to_rgb24(), 0x00f8_f8f8);
}

#[test]
fn wrap_and_bounds() {
    assert!(out_of_bound(-1, 256));
    assert!(out_of_bound(256, 256));
    assert!(!out_of_bound(255, 256));
    assert_eq!(wrap_around(300, 256), 44);
    assert_eq!(wrap_around(-1, 256), 255);
    assert_eq!(wrap_around(-256, 256), 256);
    assert_eq!(dimension(false, 1), (512, 256));
    assert_eq!(dimension(true, 3), (1024, 1024));
}

#[test]
fn window_and_layer() {
    let mut w = Window::new();
    let mut l = Layer::new();
    // Nothing is shown through a new (all zero) mask.
    l.paint(3, 0x1234, &w, 0);
    assert_eq!(l.pixel[3], TRANSPARENT);
    w.clear();
    l.paint(3, 0x1234, &w, 0);
    l.paint(300, 0x1234, &w, 0);
    l.paint(4, TRANSPARENT, &w, 0);
    assert_eq!(l.pixel[3], 0x1234);
    assert!(w.get_display_flag(239, 4));
    assert!(!w.get_display_flag(240, 4));
    l.clear();
    assert_eq!(l.pixel[3], TRANSPARENT);
}

#[test]
fn inside_window_wraps() {
    let mut m = Memory::new();
    // WIN0H = 200..20 (wrapping), WIN0V = 0..160, WININ: window 0 shows BG1.
    m.ioram16_s(0x40, (200 << 8) | 20);
    m.ioram16_s(0x44, 160);
    m.ioram16_s(0x48, 0b10);
    let mut w = Window::new();
    w.clear();
    w.draw_winin(10, 0, &m);
    assert_eq!(w.cnt[5], 0b10);
    assert_eq!(w.cnt[100], 0xff);
    assert_eq!(w.cnt[220], 0b10);
    assert_eq!(m.get_winh(0), (200, 20));
    m.ioram16_s(0x4a, 0x0103);
    w.draw_winout(&m);
    assert_eq!(w.cnt[7], 0x03);
}

#[test]
fn bitmap_mode_3_line() {
    let mut ppu = PPU::new();
    let mut irq = IRQController::new();
    let mut cpu = CPU::new();
    let mut m = Memory::new();
    // Mode 3 with BG2 on; pixel (5, 0) red.
    ppu.set_dispcnt(0x0403);
    m.vram[10] = 0x1f;
    ppu.hdraw(&mut irq, &mut cpu, &mut m);
    assert_eq!(ppu.vcount, 0);
    assert_eq!(ppu.buffer[5], 0x00f8_0000);
    // The backdrop (palette color 0, black) shows elsewhere.
    assert_eq!(ppu.buffer[6], 0);
}

#[test]
fn text_background_line() {
    let mut ppu = PPU::new();
    let mut irq = IRQController::new();
    let mut cpu = CPU::new();
    let mut m = Memory::new();
    // Mode 0, BG0 on; BG0: 16 colors, tile data block 0, map block 1.
    ppu.set_dispcnt(0x0100);
    ppu.background[0].set_control(0x0100);
    // Map entry (0, 0) is tile 1 with palette 2; tile 1 pixel (0, 0) is color 3.
    m.vram[0x800] = 1;
    m.vram[0x801] = 0x20;
    m.vram[32] = 0x03;
    m.param[2 * 0x23] = 0xff;
    m.param[2 * 0x23 + 1] = 0x7f;
    ppu.hdraw(&mut irq, &mut cpu, &mut m);
    assert_eq!(ppu.layer[0].pixel[0], 0x7fff);
    assert_eq!(ppu.buffer[0], 0x00f8_f8f8);
    // With a horizontal scroll of 1, the pixel moves to column 255 (off screen).
    ppu.background[0].set_hofs(1);
    ppu.vcount = 227;
    ppu.hdraw(&mut irq, &mut cpu, &mut m);
    assert_eq!(ppu.layer[0].pixel[0], TRANSPARENT);
}

#[test]
fn sprite_line() {
    let mut ppu = PPU::new();
    let mut irq = IRQController::new();
    let mut cpu = CPU::new();
    let mut m = Memory::new();
    ppu.set_dispcnt(0x1000);
    // Sprite 0: 8x8 at (4, 0), tile 0, palette 1; tile pixel (0, 0) color 2.
    m.oam_store16(0, 0x0000);
    m.oam_store16(2, 0x0004);
    m.oam_store16(4, 0x1000);
    m.vram[0x10000] = 0x02;
    m.param[0x200 + 2 * 0x12] = 0x1f;
    ppu.hdraw(&mut irq, &mut cpu, &mut m);
    assert_eq!(ppu.sprite[0].width, 8);
    assert_eq!(ppu.layer[0].pixel[4], 0x001f);
    assert_eq!(ppu.buffer[4], 0x00f8_0000);
    let mut s = Sprite::new();
    s.set_attr0(0x0100);
    assert!(!s.disabled());
    s.set_attr0(0x0200);
    assert!(s.disabled());
}

#[test]
fn blank_flags_and_interrupts() {
    let mut ppu = PPU::new();
    let mut irq = IRQController::new();
    let mut cpu = CPU::new();
    let mut m = Memory::new();
    irq.set_ime(1, &mut cpu);
    irq.set_ie(0b11, &mut cpu);
    ppu.set_dispstat(0b1_1000);
    ppu.hblank(&mut irq, &mut cpu, &mut m);
    assert_eq!(ppu.get_dispstat() & 0b10, 0b10);
    assert_eq!(irq.get_irf(), 0b10);
    assert_eq!(m.load16(0x0400_0202), 0b10);
    ppu.vcount = 159;
    let mut cpu2 = CPU::new();
    ppu.vblank(&mut irq, &mut cpu2, &mut m);
    assert_eq!(ppu.get_vcount(), 160);
    assert_eq!(irq.get_irf(), 0b11);
    ppu.vcount = 227;
    ppu.vblank(&mut irq, &mut cpu2, &mut m);
    assert_eq!(ppu.get_vcount(), 0);
}

#[test]
fn display_registers_through_io() {
    let mut ppu = PPU::new();
    ppu.io_write(0x0400_0000, 0x0045);
    assert_eq!(ppu.get_dispcnt(), 0x0045);
    assert_eq!(ppu.mode, 5);
    assert!(ppu.sequential);
    ppu.io_write(0x0400_000c, 0xc083);
    assert_eq!(ppu.background[2].get_control(), 0xc083);
    assert_eq!(ppu.background[2].priority, 3);
    assert_eq!(ppu.background[2].width, 512);
    ppu.io_write(0x0400_0016, 7);
    assert_eq!(ppu.background[1].vscroll, 7);
    ppu.io_write(0x0400_0020, 0xff00);
    assert_eq!(ppu.background[2].matrix.0, -256);
    ppu.io_write(0x0400_0028, 0x1234);
    ppu.io_write(0x0400_002a, 0x0001);
    assert_eq!(ppu.background[2].coord.0, 0x0001_1234);
    ppu.oam_store16(9, 0x00ff);
    assert_eq!(ppu.oam_load16(9), 0x00ff);
    assert_eq!(ppu.sprite[1].xcoord, 0xff);
}

#[test]
fn console_frame() {
    let mut c = Console::new();
    // An endless loop in the BIOS: B -8 at 0.
    c.memory.load_bios(&[0xfe, 0xff, 0xff, 0xea]);
    c.memory.store16(0x0400_0000, 0x0403);
    c.step();
    assert_eq!(c.ppu.mode, 3);
    assert!(c.memory.io_writes.is_empty());
    c.step_frame();
    assert_eq!(c.ppu.vcount, 227);
    assert!(c.cpu.counter >= 280_896);
}
