use gamebar::keypad::keyinput;
use gamebar::cpu::CPU;
use gamebar::dma::{DMA, DMAChannel};
use gamebar::interrupt::{IRQController, Interrupt};
use gamebar::memory::Memory;
use gamebar::timer::{Timer, Timers};

#[test]
fn timer_counts_with_prescaler_and_overflows() {
    let mut timers = Timers::new();
    let mut irq = IRQController::new();
    let mut cpu = CPU::new();
    let mut m = Memory::new();
    // Timer 0: prescaler 64, interrupt, enabled; reload 0xfffe.
    timers.timer[0].set_reload(0xfffe);
    timers.timer[0].set_control(0b1100_0001);
    assert_eq!(timers.timer[0].get_counter(), 0xfffe);
    timers.run(64 * 1 + 10, &mut irq, &mut cpu, &mut m);
    assert_eq!(timers.timer[0].get_counter(), 0xffff);
    assert_eq!(timers.timer[0].modulo, 10);
    irq.set_ime(1, &mut cpu);
    irq.set_ie(1 << 3, &mut cpu);
    timers.run(54, &mut irq, &mut cpu, &mut m);
    // Overflow: reloaded, Timer 0 interrupt requested and taken.
    assert_eq!(timers.timer[0].get_counter(), 0xfffe);
    assert_eq!(irq.get_irf(), 1 << 3);
    assert_eq!(m.load16(0x0400_0202), 1 << 3);
    assert_eq!(cpu.r[15], 0x1c);
}

#[test]
fn cascade_timer_counts_overflows() {
    let mut timers = Timers::new();
    let mut irq = IRQController::new();
    let mut cpu = CPU::new();
    timers.timer[0].set_reload(0xffff);
    timers.timer[0].set_control(0x80);
    timers.timer[1].set_control(0x84);
    let mut m = Memory::new();
    timers.run(1, &mut irq, &mut cpu, &mut m);
    assert_eq!(timers.timer[1].get_counter(), 1);
    // A disabled timer does not count.
    assert_eq!(timers.timer[2].get_counter(), 0);
}

#[test]
fn masked_interrupt_changes_nothing() {
    let mut irq = IRQController::new();
    let mut cpu = CPU::new();
    let mut m = Memory::new();
    irq.request(Interrupt::VBlank, &mut cpu, &mut m);
    assert_eq!(irq.get_irf(), 0);
    assert_eq!(cpu.r[15], 4);
    assert_eq!(m.load16(0x0400_0202), 0);
    irq.acknowledge(Interrupt::HBlank, &mut m);
    assert_eq!(irq.get_irf(), 2);
    assert_eq!(m.load16(0x0400_0202), 2);
    irq.ack_irf(2);
    assert_eq!(irq.get_irf(), 0);
    assert_eq!(Interrupt::GamePak.position(), 13);
}

#[test]
fn dma_copies_halfwords_and_words() {
    let mut m = Memory::new();
    m.store32(0x0200_0000, 0x1111_2222);
    m.store32(0x0200_0004, 0x3333_4444);
    let mut c = DMAChannel::new();
    c.src = 0x0200_0000;
    c.dst = 0x0300_0000;
    c.count = 2;
    c.control = 0x8000 | 0x0400;
    c.transfer(&mut m);
    assert_eq!(m.load32(0x0300_0000), 0x1111_2222);
    assert_eq!(m.load32(0x0300_0004), 0x3333_4444);
    assert_eq!(c.src, 0x0200_0008);
    assert_eq!(c.control & 0x8000, 0);

    let mut c = DMAChannel::new();
    c.src = 0x0200_0000;
    c.dst = 0x0300_0100;
    c.count = 2;
    c.control = 0x8000 | 0x0200;
    c.transfer(&mut m);
    assert_eq!(m.load16(0x0300_0100), 0x2222);
    assert_eq!(m.load16(0x0300_0102), 0x1111);
    // Repeat keeps the channel enabled.
    assert!(c.enable());
    assert_eq!(DMAChannel::get_increment(true, 1), 0xffff_fffc);
    assert_eq!(DMAChannel::get_increment(false, 2), 0);
}

#[test]
fn dma_request_runs_enabled_channels() {
    let mut m = Memory::new();
    let mut dma = DMA::new();
    m.store16(0x0200_0000, 0xabcd);
    dma.channel[3].src = 0x0200_0000;
    dma.channel[3].dst = 0x0200_0100;
    dma.channel[3].count = 1;
    dma.channel[3].control = 0x8000;
    dma.request(&mut m);
    assert_eq!(m.load16(0x0200_0100), 0xabcd);
    assert_eq!(dma.channel[0].src, 0);
}

#[test]
fn io_register_writes_reach_devices() {
    let mut m = Memory::new();
    let mut cpu = CPU::new();
    let mut dma = DMA::new();
    let mut timers = Timers::new();
    let mut irq = IRQController::new();
    m.ioram16_s(0x100, 0);
    m.ioram_store16(0x0400_0100, 0x1234, &mut cpu, &mut dma, &mut timers, &mut irq);
    assert_eq!(timers.timer[0].reload, 0x1234);
    m.ioram_store16(0x0400_0102, 0x0083, &mut cpu, &mut dma, &mut timers, &mut irq);
    assert!(timers.timer[0].enable);
    assert_eq!(timers.timer[0].prescaler, 1024);
    assert_eq!(m.ioram_load16(0x0400_0100, &timers, &irq), 0x1234);
    m.ioram_store32(0x0400_0200, 0x0000_0001, &mut cpu, &mut dma, &mut timers, &mut irq);
    assert_eq!(irq.ie, 1);
    m.ioram16_s(0xb0, 0x5678);
    m.ioram16_s(0xb2, 0x0200);
    m.ioram_store16(0x0400_00b0, 0x5678, &mut cpu, &mut dma, &mut timers, &mut irq);
    assert_eq!(dma.channel[0].src, 0x0200_5678);
    let t = Timer::new();
    assert_eq!(t.counter, 0);
}

#[test]
fn keyinput_clears_the_bits_of_held_buttons() {
    assert_eq!(keyinput(&[false; 10]), 0x3ff);
    assert_eq!(keyinput(&[true; 10]), 0);
    let mut held = [false; 10];
    held[0] = true; // A
    held[7] = true; // Down
    assert_eq!(keyinput(&held), 0x3ff & !(1 << 0) & !(1 << 7));
}

#[test]
fn request_stores_flags_in_if() {
    let mut irq = IRQController::new();
    let mut cpu = CPU::new();
    let mut m = Memory::new();
    irq.set_ime(1, &mut cpu);
    irq.set_ie(0b101, &mut cpu);
    irq.request(Interrupt::VBlank, &mut cpu, &mut m);
    assert_eq!(irq.get_irf(), 1);
    assert_eq!(m.load16(0x0400_0202), 1);
    assert_eq!(cpu.r[15], 0x1c);
    // A source that is not enabled leaves IF and the processor alone.
    let before = cpu.r;
    irq.request(Interrupt::HBlank, &mut cpu, &mut m);
    assert_eq!(m.load16(0x0400_0202), 1);
    assert_eq!(cpu.r, before);
    irq.request(Interrupt::VCount, &mut cpu, &mut m);
    assert_eq!(m.load16(0x0400_0202), 0b101);
}
