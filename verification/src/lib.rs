//! A Game Boy (DMG and CGB) emulator core whose behaviour is stated in
//! contracts and proved with Verus.

pub mod interrupts;
pub mod cpu;

pub use crate::cpu::Registers;
pub mod timer;
pub mod serial;
pub mod joypad;
pub mod apu;
pub mod cartridge;
pub mod ppu;
pub mod bus;
pub mod emulator;
pub mod common;
pub mod bits;

pub use crate::emulator::Emulator;
pub use crate::ppu::{SCREEN_HEIGHT, SCREEN_WIDTH};
