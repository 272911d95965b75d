# ferroboy

A Game Boy (DMG and CGB) emulator core written in Verus: every part of the
machine is executable Rust whose behaviour is stated in contracts over a
mathematical model of the hardware and proved by Verus.

## Layout

- `src/` — the verified library.
  - `cpu.rs`, `cpu/alu.rs`, `cpu/exec.rs`, `cpu/exec_cb.rs`: registers, the ALU,
    and every instruction, each stated as a step of `Cpu::step_spec`.
  - `bus.rs`: the memory map, OAM and VRAM DMA, CGB banking and speed switch.
  - `ppu.rs`: the dot-clock state machine, registers and scanline renderer.
  - `apu.rs`, `apu/`: the four sound channels, their length counters,
    envelopes and sweep, the frame sequencer and the sample clock.
  - `cartridge.rs`, `cartridge/`: header parsing, and the NoMBC, MBC1, MBC3
    and MBC5 controllers.
  - `timer.rs`, `serial.rs`, `joypad.rs`, `interrupts.rs`.
  - `emulator.rs`: the whole machine, stepping and running frames.
  - `common.rs`: what frontends share (palette, RGBA conversion, ROM check).
  - Laws that relate several operations stand as `law_*` proof functions
    beside the code they speak of.
- `tests/`: tests that run the compiled library.
- `app/`: the desktop frontend (a window through `winit` and `pixels`, the
  keyboard as the joypad, battery saves next to the ROM, and the
  floating-point audio mixer; it has no audio output device and no gamepad
  input).

The library verifies with `verus src/lib.rs --crate-type lib`.
