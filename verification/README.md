# GameBar

A Game Boy Advance emulator core whose behaviour is specified and proved
with Verus: an ARM7TDMI interpreter (ARM and Thumb states), the memory map,
the picture processor, timers, DMA and the interrupt controller.

## Layout

- `src/` – the verified library (crate `gamebar`).
  - `cpu/` – processor state, status registers, barrel shifter, ALU, the ARM
    and Thumb instruction handlers, disassemblers, and the text of the
    processor state. `CPU::step` and `CPU::run` are specified by
    `cpu_step_spec` and `steps_spec`.
  - `memory/` – the memory map as byte regions (`MemView`), loads and
    stores with mirroring and alignment, IO registers, video RAM, palette
    RAM and OAM. Writes to IO registers are logged and handed to the
    devices by `Console::apply_io_writes` after each instruction.
  - `ppu/` – backgrounds (text, affine, bitmap), sprites, windows, layers
    and the frame buffer; `PPU::hdraw` is specified stage by stage.
  - `timer.rs`, `dma.rs`, `interrupt.rs` – the other devices.
  - `console.rs` – the devices together; `Console::step_frame` renders a
    frame.
  - `util.rs`, `bitwise.rs`, `text.rs` – bit fields, byte buses, numbers
    as text.
  - `cycles.rs` – how far the cycle counter moves: per instruction,
    interrupt, run, and over a frame (`lemma_frame_cycles`).
  - `keypad.rs` – the KEYINPUT value of the buttons held.
  - `debug.rs` – what the debugger decides: hexadecimal arguments, the
    breakpoint set, memory dumps.
- `tests/` – tests of the library.
- `app/` – the program: a window (minifb), keyboard input, ROM and BIOS
  loading, and an interactive debugger.

Run with the BIOS in `rom/gba_bios.bin`:

```
gamebar <rom>
```
