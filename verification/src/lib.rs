//! A Game Boy Advance emulator core: ARM7TDMI interpreter, memory map,
//! picture processing, timers, DMA and interrupt controller.
#![allow(non_snake_case)]

pub mod util;
pub mod cpu;
pub mod interrupt;
pub mod timer;
pub mod memory;
pub mod dma;
pub mod text;
pub mod ppu;
pub mod console;
pub mod bitwise;
pub mod debug;
pub mod keypad;
pub mod cycles;
