use vstd::prelude::*;

verus! {

pub const SB: u16 = 0xFF01;
pub const SC: u16 = 0xFF02;

/// The serial port, with no cable attached: a transfer clocked by this side
/// completes at once and its byte is kept for the frontend to collect.
pub struct Serial {
    pub sb: u8,
    pub sc: u8,
    pub output: Option<u8>,
}

impl Serial {
    pub open spec fn read_spec(self, address: u16) -> u8 {
        if address == SB {
            self.sb
        } else if address == SC {
            self.sc | 0x7E
        } else {
            0xFF
        }
    }

    pub open spec fn write_spec(self, address: u16, value: u8) -> Serial {
        if address == SB {
            Serial { sb: value, ..self }
        } else if address == SC {
            if value & 0x81 == 0x81 {
                Serial { sc: value & 0x7F, output: Some(self.sb), ..self }
            } else {
                Serial { sc: value, ..self }
            }
        } else {
            self
        }
    }

    pub fn new() -> (s: Self)
        ensures
            s == (Serial { sb: 0, sc: 0, output: None }),
    {
        Serial { sb: 0, sc: 0, output: None }
    }

    /// The serial port raises no interrupt of its own: the transfer finished when it began.
    pub fn tick(&mut self, t_cycles: u8) -> (r: u8)
        ensures
            r == 0,
            *final(self) == *old(self),
    {
        0
    }

    /// The byte of the last transfer, if it has not been taken yet.
    pub fn take_byte(&mut self) -> (r: Option<u8>)
        ensures
            r == old(self).output,
            *final(self) == (Serial { output: None, ..*old(self) }),
    {
        let r = self.output;
        self.output = None;
        r
    }

    pub fn read(&self, address: u16) -> (r: u8)
        ensures
            r == self.read_spec(address),
    {
        if address == SB {
            self.sb
        } else if address == SC {
            self.sc | 0x7E
        } else {
            0xFF
        }
    }

    pub fn write(&mut self, address: u16, value: u8)
        ensures
            *final(self) == old(self).write_spec(address, value),
    {
        if address == SB {
            self.sb = value;
        } else if address == SC {
            self.sc = value;
            // 0x81 starts a transfer clocked by us. With no cable attached the
            // byte goes nowhere, so capture it and report completion at once by
            // clearing the transfer bit.
            if value & 0x81 == 0x81 {
                self.output = Some(self.sb);
                self.sc = self.sc & 0x7F;
            }
        }
    }
}

/// Starting a transfer hands SB's byte to the frontend and clears the
/// transfer bit; the byte can be taken once.
pub proof fn law_transfer_captures_sb(s: Serial, byte: u8)
    ensures
        s.write_spec(SB, byte).write_spec(SC, 0x81).output == Some(byte),
        s.write_spec(SB, byte).write_spec(SC, 0x81).read_spec(SC) & 0x80 == 0,
{
    let sc = (0x81u8 & 0x7Fu8) as u8;
    assert((0x81u8 & 0x7Fu8) | 0x7E == 0x7F && 0x81u8 & 0x81 == 0x81 && 0x7Fu8 & 0x80 == 0) by (bit_vector);
}

/// Writing SB alone starts nothing.
pub proof fn law_sb_alone_transfers_nothing(s: Serial, byte: u8)
    ensures
        s.write_spec(SB, byte).output == s.output,
{
}

} // verus!
