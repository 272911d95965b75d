use vstd::prelude::*;

verus! {

/// Bit of the IF and IE registers that requests the vertical blank interrupt.
pub const VBLANK: u8 = 0x01;
/// Bit of the IF and IE registers that requests the LCD STAT interrupt.
pub const STAT: u8 = 0x02;
/// Bit of the IF and IE registers that requests the timer interrupt.
pub const TIMER: u8 = 0x04;
/// Bit of the IF and IE registers that requests the serial interrupt.
pub const SERIAL: u8 = 0x08;
/// Bit of the IF and IE registers that requests the joypad interrupt.
pub const JOYPAD: u8 = 0x10;

} // verus!
