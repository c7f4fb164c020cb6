use gamebar::console::Console;
use gamebar::cpu::CPU;
use gamebar::cpu::register::PSRBit;
use gamebar::interrupt::{IRQController, Interrupt};
use gamebar::memory::Memory;
use gamebar::ppu::PPU;
use gamebar::timer::Timers;

#[test]
fn lower_background_covers_higher() {
    let mut ppu = PPU::new();
    let mut irq = IRQController::new();
    let mut cpu = CPU::new();
    let mut m = Memory::new();
    // Mode 0, BG0 and BG1 on, both priority 0; BG0 maps block 1, BG1 block 2.
    ppu.set_dispcnt(0x0300);
    ppu.background[0].set_control(0x0100);
    ppu.background[1].set_control(0x0200);
    // BG0: tile 1 (color 1), BG1: tile 2 (color 2), both palette 0.
    m.vram[0x800] = 1;
    m.vram[0x1000] = 2;
    m.vram[32] = 0x01;
    m.vram[64] = 0x02;
    m.param[2] = 0x11;
    m.param[4] = 0x22;
    ppu.hdraw(&mut irq, &mut cpu, &mut m);
    assert_eq!(ppu.layer[0].pixel[0], 0x0011);
}

#[test]
fn lower_sprite_covers_higher() {
    let mut ppu = PPU::new();
    let mut irq = IRQController::new();
    let mut cpu = CPU::new();
    let mut m = Memory::new();
    ppu.set_dispcnt(0x1000);
    // Sprites 0 and 1: 8x8 at (0, 0); sprite 0 uses tile 0, sprite 1 tile 1.
    m.oam_store16(4, 0x0000);
    m.oam_store16(12, 0x0001);
    m.vram[0x10000] = 0x01;
    m.vram[0x10000 + 32] = 0x02;
    m.param[0x202] = 0x33;
    m.param[0x204] = 0x44;
    ppu.hdraw(&mut irq, &mut cpu, &mut m);
    assert_eq!(ppu.layer[0].pixel[0], 0x0033);
}

#[test]
fn timer_runs_compose() {
    let mut irq = IRQController::new();
    let mut cpu = CPU::new();
    let mut a = Timers::new();
    a.timer[0].set_control(0x81);
    let mut b = Timers::new();
    b.timer[0].set_control(0x81);
    let mut m = Memory::new();
    a.run(100, &mut irq, &mut cpu, &mut m);
    a.run(60, &mut irq, &mut cpu, &mut m);
    b.run(160, &mut irq, &mut cpu, &mut m);
    assert_eq!(a.timer[0].counter, b.timer[0].counter);
    assert_eq!(a.timer[0].modulo, b.timer[0].modulo);
    assert_eq!(b.timer[0].counter, 2);
    assert_eq!(b.timer[0].modulo, 32);
}

#[test]
fn failed_condition_only_moves_pc() {
    let mut cpu = CPU::new();
    let mut m = Memory::new();
    cpu.set_cpsr_bit(PSRBit::Z, true);
    // MOVNE R1, #5
    m.store32(0x0200_0000, 0x13a0_1005);
    cpu.r[15] = 0x0200_0004;
    cpu.step(&mut m);
    assert_eq!(cpu.r[1], 0);
    assert_eq!(cpu.r[15], 0x0200_0008);
    assert_eq!(cpu.counter, 1);
}

#[test]
fn halfword_loads_are_aligned() {
    let mut m = Memory::new();
    m.store16(0x0300_0010, 0x1234);
    assert_eq!(m.load16(0x0300_0011), 0x1234);
    m.store16(0x0300_0021, 0x5678);
    assert_eq!(m.load16(0x0300_0020), 0x5678);
}

#[test]
fn acknowledge_clears_requests() {
    let mut irq = IRQController::new();
    let mut m = Memory::new();
    irq.acknowledge(Interrupt::VBlank, &mut m);
    irq.acknowledge(Interrupt::Timer2, &mut m);
    assert_eq!(irq.get_irf(), 0b10_0001);
    irq.ack_irf(0b00_0001);
    assert_eq!(irq.get_irf(), 0b10_0000);
}

#[test]
fn status_transfer_keeps_reserved_bits() {
    let mut cpu = CPU::new();
    cpu.cpsr = 0x0f00_0010;
    cpu.set_cpsr(0xffff_ffff, false);
    assert_eq!(cpu.cpsr, 0xff00_00ff);
}

#[test]
fn stored_word_seen_through_mirrors() {
    let mut m = Memory::new();
    m.store32(0x0200_0010, 0xcafe_f00d);
    m.store32(0x0200_0020, 0x0102_0304);
    m.store32(0x0300_7ffc, 0x1111_2222);
    // EWRAM mirrors every 256 KiB, IWRAM every 32 KiB.
    assert_eq!(m.load32(0x0204_0010), 0xcafe_f00d);
    assert_eq!(m.load32(0x02fc_0010), 0xcafe_f00d);
    assert_eq!(m.load32(0x0300_fffc), 0x1111_2222);
    // Other words stay.
    m.store32(0x0200_0014, 0xffff_ffff);
    assert_eq!(m.load32(0x0200_0010), 0xcafe_f00d);
    assert_eq!(m.load32(0x0200_0020), 0x0102_0304);
}

#[test]
fn misaligned_word_load_rotates() {
    let mut m = Memory::new();
    m.store32(0x0300_0100, 0x1122_3344);
    for k in 0..4u32 {
        assert_eq!(m.load32(0x0300_0100 + k), 0x1122_3344u32.rotate_right(8 * k));
    }
}

#[test]
fn frame_runs_at_least_280896_cycles() {
    let mut c = Console::new();
    let start = c.cpu.counter;
    c.step_frame();
    assert_eq!(c.ppu.vcount, 227);
    assert!(c.cpu.counter >= start + 280896);
    let second = c.cpu.counter;
    c.step_frame();
    assert!(c.cpu.counter >= second + 280896);
}

#[test]
fn ldm_loads_by_rank_in_the_list() {
    let mut cpu = CPU::new();
    let mut m = Memory::new();
    for k in 0..4u32 {
        m.store32(0x0200_0100 + 4 * k, 0x100 + k);
    }
    cpu.r[0] = 0x0200_0100;
    // LDMIA R0, {R1, R3, R4}
    gamebar::cpu::arm::block_data_transfer::execute(&mut cpu, &mut m, (false, true, false, false, true, 0, 0b1_1010));
    assert_eq!(cpu.r[1], 0x100);
    assert_eq!(cpu.r[3], 0x101);
    assert_eq!(cpu.r[4], 0x102);
    assert_eq!(cpu.r[2], 0);
}
