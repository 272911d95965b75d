use vstd::prelude::*;
use crate::cartridge::{Header, ROM_BANK_BYTES, byte_or_ff, ram_offset, rom_offset, get_or_ff, set_if_in, written_if_in, copy_prefix, copied_prefix};

verus! {

pub const RAM_ENABLED: u8 = 0x0A;

/// MBC3: a 7-bit ROM bank (0 selects 1, and no bank is unreachable) and a
/// select register that maps a RAM bank (0..=7) or a clock register (0x08..)
/// at 0xA000. The clock is not running: its registers read 0xFF and ignore writes.
pub struct Mbc3 {
    pub rom: Vec<u8>,
    pub ram: Vec<u8>,
    pub has_battery: bool,
    pub ram_enabled: bool,
    pub rom_bank: u8,
    pub ram_select: u8,
}

pub struct Mbc3Model {
    pub rom: Seq<u8>,
    pub ram: Seq<u8>,
    pub has_battery: bool,
    pub ram_enabled: bool,
    pub rom_bank: u8,
    pub ram_select: u8,
}

impl View for Mbc3 {
    type V = Mbc3Model;

    open spec fn view(&self) -> Mbc3Model {
        Mbc3Model {
            rom: self.rom@,
            ram: self.ram@,
            has_battery: self.has_battery,
            ram_enabled: self.ram_enabled,
            rom_bank: self.rom_bank,
            ram_select: self.ram_select,
        }
    }
}

impl Mbc3Model {
    pub open spec fn wf(self) -> bool {
        self.rom_bank <= 0x7F && self.ram_select <= 0x0F
    }

    pub open spec fn read_rom_spec(self, address: u16) -> u8 {
        let bank: int = if address < 0x4000 {
            0
        } else if self.rom_bank == 0 {
            1
        } else {
            self.rom_bank as int
        };
        byte_or_ff(self.rom, bank * 0x4000 + address % 0x4000)
    }

    pub open spec fn write_rom_spec(self, address: u16, value: u8) -> Mbc3Model {
        if address <= 0x1FFF {
            Mbc3Model { ram_enabled: value % 16 == RAM_ENABLED, ..self }
        } else if address <= 0x3FFF {
            Mbc3Model { rom_bank: value % 128, ..self }
        } else if address <= 0x5FFF {
            Mbc3Model { ram_select: value % 16, ..self }
        } else {
            self
        }
    }

    pub open spec fn read_ram_spec(self, offset: u16) -> u8 {
        if !self.ram_enabled || self.ram_select >= 8 {
            0xFF
        } else {
            byte_or_ff(self.ram, self.ram_select * 0x2000 + offset)
        }
    }

    pub open spec fn write_ram_spec(self, offset: u16, value: u8) -> Mbc3Model {
        if !self.ram_enabled || self.ram_select >= 8 {
            self
        } else {
            Mbc3Model { ram: written_if_in(self.ram, self.ram_select * 0x2000 + offset, value), ..self }
        }
    }
}

impl Mbc3 {
    pub open spec fn wf(&self) -> bool {
        self@.wf()
    }

    pub fn new(rom: &[u8], header: &Header) -> (m: Self)
        ensures
            m@ == (Mbc3Model {
                rom: rom@,
                ram: Seq::new(header.ram_size as nat, |i: int| 0u8),
                has_battery: header.has_battery,
                ram_enabled: false,
                rom_bank: 1,
                ram_select: 0,
            }),
            m.wf(),
    {
        let ram = vec![0u8; header.ram_size];
        let m = Mbc3 {
            rom: vstd::slice::slice_to_vec(rom),
            ram,
            has_battery: header.has_battery,
            ram_enabled: false,
            rom_bank: 1,
            ram_select: 0,
        };
        assert(m@.ram =~= Seq::new(header.ram_size as nat, |i: int| 0u8));
        m
    }

    pub fn read_rom(&self, address: u16) -> (r: u8)
        requires
            self.wf(),
        ensures
            r == self@.read_rom_spec(address),
    {
        let bank: usize = if address < ROM_BANK_BYTES as u16 {
            0
        } else if self.rom_bank == 0 {
            1
        } else {
            self.rom_bank as usize
        };
        get_or_ff(&self.rom, rom_offset(bank, address))
    }

    pub fn write_rom(&mut self, address: u16, value: u8)
        requires
            old(self).wf(),
        ensures
            final(self)@ == old(self)@.write_rom_spec(address, value),
            final(self).wf(),
    {
        proof {
            crate::bits::lemma_u8_bits(value);
        }
        if address <= 0x1FFF {
            self.ram_enabled = value & 0x0F == RAM_ENABLED;
        } else if address <= 0x3FFF {
            self.rom_bank = value & 0x7F;
        } else if address <= 0x5FFF {
            self.ram_select = value & 0x0F;
        }
    }

    pub fn read_ram(&self, offset: u16) -> (r: u8)
        requires
            self.wf(),
        ensures
            r == self@.read_ram_spec(offset),
    {
        if !self.ram_enabled || self.ram_select >= 8 {
            return 0xFF;
        }
        let offset = ram_offset(self.ram_select as usize, offset);
        get_or_ff(&self.ram, offset)
    }

    pub fn write_ram(&mut self, offset: u16, value: u8)
        requires
            old(self).wf(),
        ensures
            final(self)@ == old(self)@.write_ram_spec(offset, value),
            final(self).wf(),
    {
        if !self.ram_enabled || self.ram_select >= 8 {
            return;
        }
        let offset = ram_offset(self.ram_select as usize, offset);
        set_if_in(&mut self.ram, offset, value);
    }

    pub fn battery_ram(&self) -> (r: Option<&[u8]>)
        ensures
            r.is_some() == self.has_battery,
            r.is_some() ==> r.unwrap()@ == self.ram@,
    {
        if self.has_battery {
            Some(self.ram.as_slice())
        } else {
            None
        }
    }

    pub fn load_battery_ram(&mut self, saved: &[u8])
        requires
            old(self).wf(),
        ensures
            final(self)@ == (Mbc3Model { ram: copied_prefix(old(self)@.ram, saved@), ..old(self)@ }),
            final(self).wf(),
    {
        copy_prefix(&mut self.ram, saved);
    }
}

/// Writing to 0x2000..=0x3FFF selects the ROM bank `value & 0x7F` at
/// 0x4000..=0x7FFF (0 selects 1): afterwards 0x4000 + i reads byte i of it.
pub proof fn law_rom_bank_write(m: Mbc3Model, address: u16, value: u8, i: u16)
    requires
        m.wf(),
        0x2000 <= address <= 0x3FFF,
        i < 0x4000,
    ensures
        ({
            let bank: int = if value & 0x7F == 0 { 1 } else { (value & 0x7F) as int };
            m.write_rom_spec(address, value).read_rom_spec((0x4000 + i) as u16)
                == byte_or_ff(m.rom, bank * 0x4000 + i)
        }),
{
    crate::bits::lemma_u8_bits(value);
    assert((0x4000 + i) as u16 % 0x4000 == i);
}

} // verus!
