use vstd::prelude::*;
use crate::cartridge::{Header, ROM_BANK_BYTES, byte_or_ff, ram_offset, rom_offset, get_or_ff, set_if_in, written_if_in, copy_prefix, copied_prefix};

verus! {

pub const RAM_ENABLED: u8 = 0x0A;

/// MBC1: 5 bits of ROM bank plus 2 upper bits that select either the upper
/// ROM bank bits or, in RAM mode, the RAM bank.
pub struct Mbc1 {
    pub rom: Vec<u8>,
    pub ram: Vec<u8>,
    pub has_battery: bool,
    pub ram_enabled: bool,
    pub bank: u8,
    pub upper: u8,
    pub in_ram_mode: bool,
}

pub struct Mbc1Model {
    pub rom: Seq<u8>,
    pub ram: Seq<u8>,
    pub has_battery: bool,
    pub ram_enabled: bool,
    pub bank: u8,
    pub upper: u8,
    pub in_ram_mode: bool,
}

impl View for Mbc1 {
    type V = Mbc1Model;

    open spec fn view(&self) -> Mbc1Model {
        Mbc1Model {
            rom: self.rom@,
            ram: self.ram@,
            has_battery: self.has_battery,
            ram_enabled: self.ram_enabled,
            bank: self.bank,
            upper: self.upper,
            in_ram_mode: self.in_ram_mode,
        }
    }
}

impl Mbc1Model {
    pub open spec fn wf(self) -> bool {
        self.bank <= 0x1F && self.upper <= 3
    }

    /// The bank mapped at `address`: the fixed half is bank 0 (or upper << 5 in
    /// RAM mode); in the switchable half a low 5 bits of 0 select 1, so banks
    /// 0x20, 0x40 and 0x60 read as the bank above.
    pub open spec fn rom_bank_spec(self, address: u16) -> int {
        if address < 0x4000 {
            if self.in_ram_mode {
                self.upper * 32
            } else {
                0
            }
        } else {
            self.upper * 32 + (if self.bank == 0 { 1 } else { self.bank as int })
        }
    }

    pub open spec fn ram_bank_spec(self) -> int {
        if self.in_ram_mode {
            self.upper as int
        } else {
            0
        }
    }

    pub open spec fn read_rom_spec(self, address: u16) -> u8 {
        byte_or_ff(self.rom, self.rom_bank_spec(address) * 0x4000 + address % 0x4000)
    }

    pub open spec fn write_rom_spec(self, address: u16, value: u8) -> Mbc1Model {
        if address <= 0x1FFF {
            Mbc1Model { ram_enabled: value % 16 == RAM_ENABLED, ..self }
        } else if address <= 0x3FFF {
            Mbc1Model { bank: value % 32, ..self }
        } else if address <= 0x5FFF {
            Mbc1Model { upper: value % 4, ..self }
        } else {
            Mbc1Model { in_ram_mode: value % 2 == 1, ..self }
        }
    }

    pub open spec fn read_ram_spec(self, offset: u16) -> u8 {
        if !self.ram_enabled {
            0xFF
        } else {
            byte_or_ff(self.ram, self.ram_bank_spec() * 0x2000 + offset)
        }
    }

    pub open spec fn write_ram_spec(self, offset: u16, value: u8) -> Mbc1Model {
        if !self.ram_enabled {
            self
        } else {
            Mbc1Model { ram: written_if_in(self.ram, self.ram_bank_spec() * 0x2000 + offset, value), ..self }
        }
    }
}

impl Mbc1 {
    pub open spec fn wf(&self) -> bool {
        self@.wf()
    }

    pub fn new(rom: &[u8], header: &Header) -> (m: Self)
        ensures
            m@ == (Mbc1Model {
                rom: rom@,
                ram: Seq::new(header.ram_size as nat, |i: int| 0u8),
                has_battery: header.has_battery,
                ram_enabled: false,
                bank: 1,
                upper: 0,
                in_ram_mode: false,
            }),
            m.wf(),
    {
        let ram = vec![0u8; header.ram_size];
        let m = Mbc1 {
            rom: vstd::slice::slice_to_vec(rom),
            ram,
            has_battery: header.has_battery,
            ram_enabled: false,
            bank: 1,
            upper: 0,
            in_ram_mode: false,
        };
        assert(m@.ram =~= Seq::new(header.ram_size as nat, |i: int| 0u8));
        m
    }

    fn rom_bank(&self, address: u16) -> (r: usize)
        requires
            self.wf(),
        ensures
            r == self@.rom_bank_spec(address),
            r < 128,
    {
        if address < ROM_BANK_BYTES as u16 {
            if self.in_ram_mode {
                self.upper as usize * 32
            } else {
                0
            }
        } else {
            let low: u8 = if self.bank == 0 { 1 } else { self.bank };
            self.upper as usize * 32 + low as usize
        }
    }

    fn ram_bank(&self) -> (r: usize)
        requires
            self.wf(),
        ensures
            r == self@.ram_bank_spec(),
            r < 4,
    {
        if self.in_ram_mode {
            self.upper as usize
        } else {
            0
        }
    }

    pub fn read_rom(&self, address: u16) -> (r: u8)
        requires
            self.wf(),
        ensures
            r == self@.read_rom_spec(address),
    {
        let offset = rom_offset(self.rom_bank(address), address);
        get_or_ff(&self.rom, offset)
    }

    pub fn write_rom(&mut self, address: u16, value: u8)
        requires
            old(self).wf(),
        ensures
            final(self)@ == old(self)@.write_rom_spec(address, value),
            final(self).wf(),
    {
        proof { crate::bits::lemma_u8_bits(value) }
        if address <= 0x1FFF {
            self.ram_enabled = value & 0x0F == RAM_ENABLED;
        } else if address <= 0x3FFF {
            self.bank = value & 0x1F;
        } else if address <= 0x5FFF {
            self.upper = value & 0x03;
        } else {
            self.in_ram_mode = value & 0x01 != 0;
        }
    }

    pub fn read_ram(&self, offset: u16) -> (r: u8)
        requires
            self.wf(),
        ensures
            r == self@.read_ram_spec(offset),
    {
        if !self.ram_enabled {
            return 0xFF;
        }
        let offset = ram_offset(self.ram_bank(), offset);
        get_or_ff(&self.ram, offset)
    }

    pub fn write_ram(&mut self, offset: u16, value: u8)
        requires
            old(self).wf(),
        ensures
            final(self)@ == old(self)@.write_ram_spec(offset, value),
            final(self).wf(),
    {
        if !self.ram_enabled {
            return;
        }
        let offset = ram_offset(self.ram_bank(), offset);
        set_if_in(&mut self.ram, offset, value);
    }

    /// The cartridge RAM, when a battery keeps it.
    pub fn battery_ram(&self) -> (r: Option<&[u8]>)
        ensures
            r.is_some() == self.has_battery,
            r.is_some() ==> r.unwrap()@ == self.ram@,
    {
        if self.has_battery {
            Some(self.ram.as_slice())
        } else {
            None
        }
    }

    /// Copies a saved RAM image over the cartridge RAM, as far as both reach.
    pub fn load_battery_ram(&mut self, saved: &[u8])
        requires
            old(self).wf(),
        ensures
            final(self)@ == (Mbc1Model { ram: copied_prefix(old(self)@.ram, saved@), ..old(self)@ }),
            final(self).wf(),
    {
        copy_prefix(&mut self.ram, saved);
    }
}

/// Writing to 0x2000..=0x3FFF sets the low five bits of the switchable ROM
/// bank: afterwards 0x4000 + i reads byte i of bank `upper * 32 + (value & 0x1F)`,
/// where a low part of 0 selects 1 in its place.
pub proof fn law_rom_bank_write(m: Mbc1Model, address: u16, value: u8, i: u16)
    requires
        m.wf(),
        0x2000 <= address <= 0x3FFF,
        i < 0x4000,
    ensures
        ({
            let low: int = if value & 0x1F == 0 { 1 } else { (value & 0x1F) as int };
            m.write_rom_spec(address, value).read_rom_spec((0x4000 + i) as u16)
                == byte_or_ff(m.rom, (m.upper * 32 + low) * 0x4000 + i)
        }),
{
    crate::bits::lemma_u8_bits(value);
    assert((0x4000 + i) as u16 % 0x4000 == i);
}

/// Every bank from 1 to 31 of the group that the upper bits choose can be
/// mapped at 0x4000..=0x7FFF by writing its number to 0x2000..=0x3FFF.
pub proof fn law_every_rom_bank_selectable(m: Mbc1Model, bank: u8, i: u16)
    requires
        m.wf(),
        1 <= bank <= 31,
        i < 0x4000,
    ensures
        m.write_rom_spec(0x2000, bank).read_rom_spec((0x4000 + i) as u16)
            == byte_or_ff(m.rom, (m.upper * 32 + bank) * 0x4000 + i),
{
    law_rom_bank_write(m, 0x2000, bank, i);
    crate::bits::lemma_u8_bits(bank);
}

/// In ROM mode 0x0000..=0x3FFF always shows bank 0; in RAM mode (a 1 written
/// to 0x6000..=0x7FFF) it shows bank `upper * 32`, and the RAM window shows
/// RAM bank `upper` in place of bank 0.
pub proof fn law_banking_mode(m: Mbc1Model, address: u16, offset: u16)
    requires
        m.wf(),
        address < 0x4000,
        offset < 0x2000,
    ensures
        m.read_rom_spec(address) == byte_or_ff(m.rom, (if m.in_ram_mode { m.upper * 32 } else { 0int }) * 0x4000 + address),
        m.ram_enabled ==> m.read_ram_spec(offset) == byte_or_ff(m.ram, (if m.in_ram_mode { m.upper as int } else { 0int }) * 0x2000 + offset),
{
}

} // verus!
