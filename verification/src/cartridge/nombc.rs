use vstd::prelude::*;
use crate::cartridge::{Header, byte_or_ff, get_or_ff, set_if_in, written_if_in};

verus! {

/// A cartridge with no memory bank controller: 32 KiB of ROM mapped as is,
/// and RAM, if any, always enabled.
pub struct NoMbc {
    pub rom: Vec<u8>,
    pub ram: Vec<u8>,
}

pub struct NoMbcModel {
    pub rom: Seq<u8>,
    pub ram: Seq<u8>,
}

impl View for NoMbc {
    type V = NoMbcModel;

    open spec fn view(&self) -> NoMbcModel {
        NoMbcModel { rom: self.rom@, ram: self.ram@ }
    }
}

impl NoMbcModel {
    pub open spec fn read_rom_spec(self, address: u16) -> u8 {
        byte_or_ff(self.rom, address as int)
    }

    pub open spec fn read_ram_spec(self, offset: u16) -> u8 {
        byte_or_ff(self.ram, offset as int)
    }

    pub open spec fn write_ram_spec(self, offset: u16, value: u8) -> NoMbcModel {
        NoMbcModel { ram: written_if_in(self.ram, offset as int, value), ..self }
    }
}

impl NoMbc {
    pub fn new(rom: &[u8], header: &Header) -> (m: Self)
        ensures
            m@ == (NoMbcModel { rom: rom@, ram: Seq::new(header.ram_size as nat, |i: int| 0u8) }),
    {
        let m = NoMbc { rom: vstd::slice::slice_to_vec(rom), ram: vec![0u8; header.ram_size] };
        assert(m@.ram =~= Seq::new(header.ram_size as nat, |i: int| 0u8));
        m
    }

    pub fn read_rom(&self, address: u16) -> (r: u8)
        ensures
            r == self@.read_rom_spec(address),
    {
        get_or_ff(&self.rom, address as usize)
    }

    /// Does nothing: there is no memory bank controller on the cartridge.
    pub fn write_rom(&mut self, address: u16, value: u8)
        ensures
            final(self)@ == old(self)@,
    {
    }

    pub fn read_ram(&self, offset: u16) -> (r: u8)
        ensures
            r == self@.read_ram_spec(offset),
    {
        get_or_ff(&self.ram, offset as usize)
    }

    pub fn write_ram(&mut self, offset: u16, value: u8)
        ensures
            final(self)@ == old(self)@.write_ram_spec(offset, value),
    {
        set_if_in(&mut self.ram, offset as usize, value);
    }
}

} // verus!
