use vstd::prelude::*;
use crate::cartridge::{Header, ROM_BANK_BYTES, byte_or_ff, ram_offset, rom_offset, get_or_ff, set_if_in, written_if_in, copy_prefix, copied_prefix};

verus! {

pub const RAM_ENABLED: u8 = 0x0A;

/// MBC5: a 9-bit ROM bank across two registers (bank 0 selectable) and a
/// 4-bit RAM bank.
pub struct Mbc5 {
    pub rom: Vec<u8>,
    pub ram: Vec<u8>,
    pub has_battery: bool,
    pub ram_enabled: bool,
    pub rom_bank: u16,
    pub ram_bank: u8,
}

pub struct Mbc5Model {
    pub rom: Seq<u8>,
    pub ram: Seq<u8>,
    pub has_battery: bool,
    pub ram_enabled: bool,
    pub rom_bank: u16,
    pub ram_bank: u8,
}

impl View for Mbc5 {
    type V = Mbc5Model;

    open spec fn view(&self) -> Mbc5Model {
        Mbc5Model {
            rom: self.rom@,
            ram: self.ram@,
            has_battery: self.has_battery,
            ram_enabled: self.ram_enabled,
            rom_bank: self.rom_bank,
            ram_bank: self.ram_bank,
        }
    }
}

impl Mbc5Model {
    pub open spec fn wf(self) -> bool {
        self.rom_bank <= 0x1FF && self.ram_bank <= 0x0F
    }

    pub open spec fn read_rom_spec(self, address: u16) -> u8 {
        let bank: int = if address < 0x4000 { 0 } else { self.rom_bank as int };
        byte_or_ff(self.rom, bank * 0x4000 + address % 0x4000)
    }

    pub open spec fn write_rom_spec(self, address: u16, value: u8) -> Mbc5Model {
        if address <= 0x1FFF {
            Mbc5Model { ram_enabled: value % 16 == RAM_ENABLED, ..self }
        } else if address <= 0x2FFF {
            Mbc5Model { rom_bank: ((self.rom_bank / 256) * 256 + value) as u16, ..self }
        } else if address <= 0x3FFF {
            Mbc5Model { rom_bank: (self.rom_bank % 256 + (value % 2) * 256) as u16, ..self }
        } else if address <= 0x5FFF {
            Mbc5Model { ram_bank: value % 16, ..self }
        } else {
            self
        }
    }

    pub open spec fn read_ram_spec(self, offset: u16) -> u8 {
        if !self.ram_enabled {
            0xFF
        } else {
            byte_or_ff(self.ram, self.ram_bank * 0x2000 + offset)
        }
    }

    pub open spec fn write_ram_spec(self, offset: u16, value: u8) -> Mbc5Model {
        if !self.ram_enabled {
            self
        } else {
            Mbc5Model { ram: written_if_in(self.ram, self.ram_bank * 0x2000 + offset, value), ..self }
        }
    }
}

proof fn lemma_bank_bits(bank: u16, value: u8)
    requires
        bank <= 0x1FF,
    ensures
        (bank & 0x100 | value as u16) == (bank / 256) * 256 + value,
        (bank & 0xFF | (value as u16 & 1) << 8) == bank % 256 + (value % 2) * 256,
        value & 0x0F == value % 16,
{
    let v = value as u16;
    assert((bank & 0x100 | v) == (bank / 256) * 256 + v
        && (bank & 0xFF | (v & 1) << 8) == bank % 256 + (v % 2) * 256) by (bit_vector)
        requires
            bank <= 0x1FF,
            v <= 0xFF;
    crate::bits::lemma_u8_bits(value);
}

impl Mbc5 {
    pub open spec fn wf(&self) -> bool {
        self@.wf()
    }

    pub fn new(rom: &[u8], header: &Header) -> (m: Self)
        ensures
            m@ == (Mbc5Model {
                rom: rom@,
                ram: Seq::new(header.ram_size as nat, |i: int| 0u8),
                has_battery: header.has_battery,
                ram_enabled: false,
                rom_bank: 1,
                ram_bank: 0,
            }),
            m.wf(),
    {
        let ram = vec![0u8; header.ram_size];
        let m = Mbc5 {
            rom: vstd::slice::slice_to_vec(rom),
            ram,
            has_battery: header.has_battery,
            ram_enabled: false,
            rom_bank: 1,
            ram_bank: 0,
        };
        assert(m@.ram =~= Seq::new(header.ram_size as nat, |i: int| 0u8));
        m
    }

    pub fn read_rom(&self, address: u16) -> (r: u8)
        requires
            self.wf(),
        ensures
            r == self@.read_rom_spec(address),
    {
        let bank: usize = if address < ROM_BANK_BYTES as u16 { 0 } else { self.rom_bank as usize };
        get_or_ff(&self.rom, rom_offset(bank, address))
    }

    pub fn write_rom(&mut self, address: u16, value: u8)
        requires
            old(self).wf(),
        ensures
            final(self)@ == old(self)@.write_rom_spec(address, value),
            final(self).wf(),
    {
        proof { lemma_bank_bits(self.rom_bank, value) }
        if address <= 0x1FFF {
            self.ram_enabled = value & 0x0F == RAM_ENABLED;
        } else if address <= 0x2FFF {
            self.rom_bank = self.rom_bank & 0x100 | value as u16;
        } else if address <= 0x3FFF {
            self.rom_bank = self.rom_bank & 0xFF | (value as u16 & 1) << 8;
        } else if address <= 0x5FFF {
            self.ram_bank = value & 0x0F;
        }
    }

    pub fn read_ram(&self, offset: u16) -> (r: u8)
        requires
            self.wf(),
        ensures
            r == self@.read_ram_spec(offset),
    {
        if !self.ram_enabled {
            return 0xFF;
        }
        let offset = ram_offset(self.ram_bank as usize, offset);
        get_or_ff(&self.ram, offset)
    }

    pub fn write_ram(&mut self, offset: u16, value: u8)
        requires
            old(self).wf(),
        ensures
            final(self)@ == old(self)@.write_ram_spec(offset, value),
            final(self).wf(),
    {
        if !self.ram_enabled {
            return;
        }
        let offset = ram_offset(self.ram_bank as usize, offset);
        set_if_in(&mut self.ram, offset, value);
    }

    pub fn battery_ram(&self) -> (r: Option<&[u8]>)
        ensures
            r.is_some() == self.has_battery,
            r.is_some() ==> r.unwrap()@ == self.ram@,
    {
        if self.has_battery {
            Some(self.ram.as_slice())
        } else {
            None
        }
    }

    pub fn load_battery_ram(&mut self, saved: &[u8])
        requires
            old(self).wf(),
        ensures
            final(self)@ == (Mbc5Model { ram: copied_prefix(old(self)@.ram, saved@), ..old(self)@ }),
            final(self).wf(),
    {
        copy_prefix(&mut self.ram, saved);
    }
}

/// The ROM bank is nine bits: the low eight are written at 0x2000..=0x2FFF
/// and the ninth at 0x3000..=0x3FFF. Whatever the order of the two writes,
/// 0x4000 + i then reads byte i of bank `(high & 1) * 256 + low`.
pub proof fn law_rom_bank_write(m: Mbc5Model, low: u8, high: u8, low_first: bool, i: u16)
    requires
        m.wf(),
        i < 0x4000,
    ensures
        ({
            let after = if low_first {
                m.write_rom_spec(0x2000, low).write_rom_spec(0x3000, high)
            } else {
                m.write_rom_spec(0x3000, high).write_rom_spec(0x2000, low)
            };
            after.read_rom_spec((0x4000 + i) as u16)
                == byte_or_ff(m.rom, ((high & 1) as int * 256 + low) * 0x4000 + i)
        }),
{
    crate::bits::lemma_u8_bits(high);
    assert((0x4000 + i) as u16 % 0x4000 == i);
}

} // verus!
