use vstd::prelude::*;
use crate::apu::{Apu, ApuModel};
use crate::cartridge::{Cartridge, CartridgeModel};
use crate::joypad::{Button, Joypad};
use crate::ppu::{Ppu, PpuModel};
use crate::serial::Serial;
use crate::timer::Timer;

verus! {

pub const ROM_END: u16 = 0x7FFF;
pub const VRAM_START: u16 = 0x8000;
pub const VRAM_END: u16 = 0x9FFF;
pub const CART_RAM_START: u16 = 0xA000;
pub const CART_RAM_END: u16 = 0xBFFF;
pub const WRAM_START: u16 = 0xC000;
pub const WRAM_BANKED_START: u16 = 0xD000;
pub const WRAM_END: u16 = 0xDFFF;
pub const ECHO_START: u16 = 0xE000;
pub const ECHO_END: u16 = 0xFDFF;
pub const OAM_START: u16 = 0xFE00;
pub const OAM_END: u16 = 0xFE9F;
pub const UNUSABLE_END: u16 = 0xFEFF;
pub const JOYPAD: u16 = 0xFF00;
pub const SERIAL_START: u16 = 0xFF01;
pub const SERIAL_END: u16 = 0xFF02;
pub const TIMER_START: u16 = 0xFF04;
pub const TIMER_END: u16 = 0xFF07;
pub const IF: u16 = 0xFF0F;
pub const APU_START: u16 = 0xFF10;
pub const APU_END: u16 = 0xFF3F;
pub const PPU_REG_START: u16 = 0xFF40;
pub const OAM_DMA: u16 = 0xFF46;
pub const PPU_REG_END: u16 = 0xFF4B;
pub const KEY1: u16 = 0xFF4D;
pub const VBK: u16 = 0xFF4F;
pub const BOOT_OFF: u16 = 0xFF50;
pub const HDMA1: u16 = 0xFF51;
pub const HDMA2: u16 = 0xFF52;
pub const HDMA3: u16 = 0xFF53;
pub const HDMA4: u16 = 0xFF54;
pub const HDMA5: u16 = 0xFF55;
pub const PALETTE_START: u16 = 0xFF68;
pub const PALETTE_END: u16 = 0xFF6B;
pub const SVBK: u16 = 0xFF70;
pub const HRAM_START: u16 = 0xFF80;
pub const HRAM_END: u16 = 0xFFFE;
pub const IE: u16 = 0xFFFF;

pub const WRAM_BANK_BYTES: usize = 0x1000;
pub const WRAM_BYTES: usize = 0x8000;
pub const HRAM_BYTES: usize = 0x7F;

/// The memory map: routes every address to the memory or register behind
/// it, runs the DMA engines, and carries the interrupt flags.
pub struct Bus {
    pub wram: Vec<u8>,
    pub hram: Vec<u8>,
    pub intf: u8,
    pub inte: u8,
    pub cartridge: Cartridge,
    pub boot_rom: Vec<u8>,
    pub boot_rom_mapped: bool,
    pub cgb: bool,
    pub wram_bank: u8,
    pub speed_armed: bool,
    pub double_speed: bool,
    pub hdma_source: u16,
    pub hdma_dest: u16,
    pub hdma_remaining: u8,
    pub hdma_active: bool,
    pub ppu: Ppu,
    pub apu: Apu,
    pub timer: Timer,
    pub joypad: Joypad,
    pub serial: Serial,
}

/// The bus as values.
pub struct BusModel {
    pub wram: Seq<u8>,
    pub hram: Seq<u8>,
    pub intf: u8,
    pub inte: u8,
    pub cartridge: CartridgeModel,
    pub boot_rom: Seq<u8>,
    pub boot_rom_mapped: bool,
    pub cgb: bool,
    pub wram_bank: u8,
    pub speed_armed: bool,
    pub double_speed: bool,
    pub hdma_source: u16,
    pub hdma_dest: u16,
    pub hdma_remaining: u8,
    pub hdma_active: bool,
    pub ppu: PpuModel,
    pub apu: ApuModel,
    pub timer: Timer,
    pub joypad: Joypad,
    pub serial: Serial,
}

impl View for Bus {
    type V = BusModel;

    open spec fn view(&self) -> BusModel {
        BusModel {
            wram: self.wram@,
            hram: self.hram@,
            intf: self.intf,
            inte: self.inte,
            cartridge: self.cartridge@,
            boot_rom: self.boot_rom@,
            boot_rom_mapped: self.boot_rom_mapped,
            cgb: self.cgb,
            wram_bank: self.wram_bank,
            speed_armed: self.speed_armed,
            double_speed: self.double_speed,
            hdma_source: self.hdma_source,
            hdma_dest: self.hdma_dest,
            hdma_remaining: self.hdma_remaining,
            hdma_active: self.hdma_active,
            ppu: self.ppu@,
            apu: self.apu@,
            timer: self.timer,
            joypad: self.joypad,
            serial: self.serial,
        }
    }
}

/// `vram` with `data` copied into the VRAM bank at `base`, starting `dest`
/// bytes in and wrapping within the bank's 8 KiB.
pub open spec fn copied_into_bank(vram: Seq<u8>, base: int, dest: int, data: Seq<u8>) -> Seq<u8> {
    Seq::new(
        vram.len(),
        |j: int|
            if base <= j < base + 0x2000 && (j - base - dest) % 0x2000 < data.len() {
                data[(j - base - dest) % 0x2000]
            } else {
                vram[j]
            },
    )
}

proof fn lemma_copy_step(vram: Seq<u8>, base: int, dest: int, data: Seq<u8>, k: int)
    requires
        0 <= base,
        base + 0x2000 <= vram.len(),
        0 <= dest < 0x2000,
        0 <= k < data.len() <= 0x800,
    ensures
        copied_into_bank(vram, base, dest, data.take(k + 1)) =~= copied_into_bank(vram, base, dest, data.take(k)).update(
            base + (dest + k) % 0x2000,
            data[k],
        ),
{
    let target = base + (dest + k) % 0x2000;
    assert forall|j: int| 0 <= j < vram.len() implies #[trigger] copied_into_bank(vram, base, dest, data.take(k + 1))[j]
        == copied_into_bank(vram, base, dest, data.take(k)).update(target, data[k])[j] by {
        if base <= j < base + 0x2000 {
            let m = (j - base - dest) % 0x2000;
            assert(m == k <==> j == target);
        }
    }
}

impl BusModel {
    /// The machine at power-on with `cartridge` in the slot and `boot_rom`
    /// mapped: RAM zero, no interrupts, single speed, bank 1, every
    /// component in its reset state.
    pub open spec fn initial(cartridge: CartridgeModel, boot_rom: Seq<u8>, cgb: bool) -> BusModel {
        BusModel {
            wram: Seq::new(WRAM_BYTES as nat, |i: int| 0u8),
            hram: Seq::new(HRAM_BYTES as nat, |i: int| 0u8),
            intf: 0,
            inte: 0,
            cartridge,
            boot_rom,
            boot_rom_mapped: true,
            cgb,
            wram_bank: 1,
            speed_armed: false,
            double_speed: false,
            hdma_source: 0,
            hdma_dest: 0,
            hdma_remaining: 0,
            hdma_active: false,
            ppu: PpuModel::initial(cgb),
            apu: ApuModel::initial(cgb),
            timer: Timer { div: 0, tima: 0, tma: 0, tac: 0 },
            joypad: Joypad { select: crate::joypad::SELECTABLE, buttons: 0 },
            serial: Serial { sb: 0, sc: 0, output: None },
        }
    }

    pub open spec fn wf(self) -> bool {
        &&& self.wram.len() == WRAM_BYTES
        &&& self.hram.len() == HRAM_BYTES
        &&& self.cartridge.wf()
        &&& 1 <= self.wram_bank <= 7
        &&& self.hdma_remaining <= 128
        &&& self.hdma_active ==> self.hdma_remaining > 0
        &&& self.hdma_dest < 0x2000
        &&& self.ppu.wf()
        &&& self.ppu.cgb == self.cgb
        &&& self.apu.wf()
        &&& self.joypad.wf()
    }

    /// Whether the boot ROM answers for `address`: while mapped, it covers
    /// its own length except the cartridge header at 0x0100..=0x01FF.
    pub open spec fn boot_rom_covers(self, address: u16) -> bool {
        self.boot_rom_mapped && address < self.boot_rom.len() && !(0x100 <= address < 0x200)
    }

    /// Where a work-RAM address (0xC000..=0xDFFF) lands: the low 4 KiB is bank 0,
    /// the high 4 KiB the selected bank (always 1 on the DMG).
    pub open spec fn wram_index(self, address: u16) -> int {
        if address < WRAM_BANKED_START {
            address - WRAM_START
        } else {
            self.wram_bank * 0x1000 + (address - WRAM_BANKED_START)
        }
    }

    /// KEY1: bit 7 the current speed, bit 0 the armed switch, the rest 1.
    pub open spec fn key1_value(self) -> u8 {
        (0x7E + (if self.double_speed { 0x80int } else { 0 }) + (if self.speed_armed { 1int } else {
            0
        })) as u8
    }

    /// HDMA5: the remaining blocks less one while a transfer runs; with bit 7
    /// set once it is stopped, 0xFF when none remain.
    pub open spec fn hdma5_value(self) -> u8 {
        if self.hdma_active {
            (self.hdma_remaining - 1) as u8
        } else if self.hdma_remaining == 0 {
            0xFF
        } else {
            (0x80 + self.hdma_remaining - 1) as u8
        }
    }

    #[verifier::opaque]
    pub open spec fn read_spec(self, address: u16) -> u8 {
        if address <= ROM_END {
            if self.boot_rom_covers(address) {
                self.boot_rom[address as int]
            } else {
                self.cartridge.read_rom_spec(address)
            }
        } else if address <= VRAM_END {
            self.ppu.read_vram_spec((address - VRAM_START) as u16)
        } else if address <= CART_RAM_END {
            self.cartridge.read_ram_spec((address - CART_RAM_START) as u16)
        } else if address <= WRAM_END {
            self.wram[self.wram_index(address)]
        } else if address <= ECHO_END {
            self.wram[self.wram_index((address - 0x2000) as u16)]
        } else if address <= OAM_END {
            self.ppu.oam[address - OAM_START]
        } else if address <= UNUSABLE_END {
            0xFF
        } else if address == JOYPAD {
            self.joypad.read_spec()
        } else if SERIAL_START <= address <= SERIAL_END {
            self.serial.read_spec(address)
        } else if TIMER_START <= address <= TIMER_END {
            self.timer.read_spec(address)
        } else if address == IF {
            self.intf | 0xE0
        } else if APU_START <= address <= APU_END {
            self.apu.read_spec(address)
        } else if PPU_REG_START <= address <= PPU_REG_END {
            self.ppu.read_reg_spec(address)
        } else if address == KEY1 {
            if self.cgb { self.key1_value() } else { 0xFF }
        } else if address == VBK {
            if self.cgb { self.ppu.read_reg_spec(address) } else { 0xFF }
        } else if address == HDMA5 {
            if self.cgb { self.hdma5_value() } else { 0xFF }
        } else if PALETTE_START <= address <= PALETTE_END {
            if self.cgb { self.ppu.read_reg_spec(address) } else { 0xFF }
        } else if address == SVBK {
            if self.cgb { 0xF8 | self.wram_bank } else { 0xFF }
        } else if HRAM_START <= address <= HRAM_END {
            self.hram[address - HRAM_START]
        } else if address == IE {
            self.inte
        } else {
            0xFF
        }
    }

    /// The 160 bytes an OAM DMA from page `page` copies.
    pub open spec fn oam_dma_data(self, page: u8) -> Seq<u8> {
        Seq::new(0xA0, |i: int| self.read_spec((page * 256 + i) as u16))
    }

    /// The `length` bytes a VRAM DMA reads from its source.
    pub open spec fn hdma_data(self, length: int) -> Seq<u8> {
        Seq::new(length as nat, |i: int| self.read_spec(((self.hdma_source + i) % 0x10000) as u16))
    }

    /// Copies `blocks` 16-byte blocks from the DMA source into the current
    /// VRAM bank at the DMA destination, and moves both on past them.
    pub open spec fn hdma_copy_spec(self, blocks: int) -> BusModel {
        let length = blocks * 16;
        let data = self.hdma_data(length);
        BusModel {
            ppu: PpuModel {
                vram: copied_into_bank(self.ppu.vram, self.ppu.vbk * 0x2000, self.hdma_dest as int, data),
                ..self.ppu
            },
            hdma_source: ((self.hdma_source + length) % 0x10000) as u16,
            hdma_dest: ((self.hdma_dest + length) % 0x2000) as u16,
            ..self
        }
    }

    /// A write to HDMA5: with bit 7 clear it cancels a running HBlank transfer,
    /// or else copies (value & 0x7F) + 1 blocks at once; with bit 7 set it starts
    /// an HBlank transfer of that many blocks.
    pub open spec fn hdma5_write_spec(self, value: u8) -> BusModel {
        let blocks = (value % 128 + 1) as u8;
        if value & 0x80 != 0 {
            BusModel { hdma_remaining: blocks, hdma_active: true, ..self }
        } else if self.hdma_active {
            BusModel { hdma_active: false, ..self }
        } else {
            BusModel { hdma_remaining: 0, ..self.hdma_copy_spec(blocks as int) }
        }
    }

    pub open spec fn write_spec(self, address: u16, value: u8) -> BusModel {
        if address <= UNUSABLE_END {
            self.write_memory_spec(address, value)
        } else {
            self.write_io_spec(address, value)
        }
    }

    /// A write below 0xFF00: cartridge, VRAM, work RAM and its echo, OAM.
    #[verifier::opaque]
    pub open spec fn write_memory_spec(self, address: u16, value: u8) -> BusModel {
        if address <= ROM_END {
            BusModel { cartridge: self.cartridge.write_rom_spec(address, value), ..self }
        } else if address <= VRAM_END {
            BusModel { ppu: self.ppu.write_vram_spec((address - VRAM_START) as u16, value), ..self }
        } else if address <= CART_RAM_END {
            BusModel { cartridge: self.cartridge.write_ram_spec((address - CART_RAM_START) as u16, value), ..self }
        } else if address <= WRAM_END {
            BusModel { wram: self.wram.update(self.wram_index(address), value), ..self }
        } else if address <= ECHO_END {
            BusModel { wram: self.wram.update(self.wram_index((address - 0x2000) as u16), value), ..self }
        } else if address <= OAM_END {
            BusModel { ppu: self.ppu.write_oam_spec((address - OAM_START) as u16, value), ..self }
        } else {
            self
        }
    }

    /// A write to the I/O page, HRAM or IE.
    #[verifier::opaque]
    pub open spec fn write_io_spec(self, address: u16, value: u8) -> BusModel {
        if address == JOYPAD {
            BusModel { joypad: Joypad { select: value & 0x30, ..self.joypad }, ..self }
        } else if SERIAL_START <= address <= SERIAL_END {
            BusModel { serial: self.serial.write_spec(address, value), ..self }
        } else if TIMER_START <= address <= TIMER_END {
            BusModel { timer: self.timer.write_spec(address, value), ..self }
        } else if address == IF {
            BusModel { intf: value & 0x1F, ..self }
        } else if APU_START <= address <= APU_END {
            BusModel { apu: self.apu.write_spec(address, value), ..self }
        } else if address == OAM_DMA {
            BusModel { ppu: PpuModel { oam: self.oam_dma_data(value), ..self.ppu }, ..self }
        } else if PPU_REG_START <= address <= PPU_REG_END {
            BusModel { ppu: self.ppu.write_reg_spec(address, value), ..self }
        } else if address == BOOT_OFF {
            if value != 0 { BusModel { boot_rom_mapped: false, ..self } } else { self }
        } else {
            self.write_high_io_spec(address, value)
        }
    }

    /// A write above the PPU registers: the CGB registers, HRAM and IE.
    #[verifier::opaque]
    pub open spec fn write_high_io_spec(self, address: u16, value: u8) -> BusModel {
        if !self.cgb {
            if HRAM_START <= address <= HRAM_END {
                BusModel { hram: self.hram.update(address - HRAM_START, value), ..self }
            } else if address == IE {
                BusModel { inte: value, ..self }
            } else {
                self
            }
        } else if address == KEY1 {
            BusModel { speed_armed: value & 1 != 0, ..self }
        } else if address == VBK || PALETTE_START <= address <= PALETTE_END {
            BusModel { ppu: self.ppu.write_reg_spec(address, value), ..self }
        } else if address == HDMA1 {
            BusModel { hdma_source: (value * 256 + self.hdma_source % 256) as u16, ..self }
        } else if address == HDMA2 {
            BusModel { hdma_source: ((self.hdma_source / 256) * 256 + (value & 0xF0)) as u16, ..self }
        } else if address == HDMA3 {
            BusModel { hdma_dest: ((value & 0x1F) * 256 + self.hdma_dest % 256) as u16, ..self }
        } else if address == HDMA4 {
            BusModel { hdma_dest: ((self.hdma_dest / 256) * 256 + (value & 0xF0)) as u16, ..self }
        } else if address == HDMA5 {
            self.hdma5_write_spec(value)
        } else if address == SVBK {
            BusModel { wram_bank: if value & 7 == 0 { 1 } else { value & 7 }, ..self }
        } else if HRAM_START <= address <= HRAM_END {
            BusModel { hram: self.hram.update(address - HRAM_START, value), ..self }
        } else if address == IE {
            BusModel { inte: value, ..self }
        } else {
            self
        }
    }

    /// STOP on the CGB: switches the CPU speed if KEY1 armed the switch.
    pub open spec fn switch_speed_spec(self) -> BusModel {
        if self.cgb && self.speed_armed {
            BusModel { double_speed: !self.double_speed, speed_armed: false, ..self }
        } else {
            self
        }
    }

    /// The cycles the PPU and APU see: half the CPU's in double speed.
    pub open spec fn video_cycles(self, t_cycles: u8) -> u8 {
        if self.double_speed {
            t_cycles / 2
        } else {
            t_cycles
        }
    }

    /// Runs every component for `t_cycles` CPU T-cycles, collects the
    /// interrupts they raise, and copies an HBlank DMA block when HBlank begins.
    #[verifier::opaque]
    pub open spec fn tick_spec(self, t_cycles: u8) -> BusModel {
        let video = self.video_cycles(t_cycles);
        let (ppu, from_ppu) = self.ppu.tick_spec(video);
        let hblank = ppu.hblank_started;
        let s1 = BusModel { ppu: PpuModel { hblank_started: false, ..ppu }, ..self };
        let s2 = if hblank && s1.hdma_active {
            let copied = s1.hdma_copy_spec(1);
            let remaining = (s1.hdma_remaining - 1) as u8;
            BusModel { hdma_remaining: remaining, hdma_active: remaining > 0, ..copied }
        } else {
            s1
        };
        let (timer, from_timer) = s2.timer.tick_n(t_cycles as nat);
        BusModel {
            timer,
            apu: s2.apu.tick_n(video as nat),
            intf: s2.intf | from_ppu | from_timer,
            ..s2
        }
    }
}


impl Bus {
    pub open spec fn wf(&self) -> bool {
        self@.wf()
    }

    /// A bus with `cartridge` in the slot, `boot_rom` mapped over the bottom of
    /// the map until the game writes 0xFF50, and CGB features on if `cgb`.
    pub fn new(cartridge: Cartridge, boot_rom: &[u8], cgb: bool) -> (b: Self)
        requires
            cartridge.wf(),
        ensures
            b.wf(),
            b@ == BusModel::initial(cartridge@, boot_rom@, cgb),
    {
        let b = Bus {
            wram: vec![0u8; WRAM_BYTES],
            hram: vec![0u8; HRAM_BYTES],
            intf: 0,
            inte: 0,
            cartridge,
            boot_rom: vstd::slice::slice_to_vec(boot_rom),
            boot_rom_mapped: true,
            cgb,
            wram_bank: 1,
            speed_armed: false,
            double_speed: false,
            hdma_source: 0,
            hdma_dest: 0,
            hdma_remaining: 0,
            hdma_active: false,
            ppu: Ppu::new(cgb),
            apu: Apu::new(cgb),
            timer: Timer::new(),
            joypad: Joypad::new(),
            serial: Serial::new(),
        };
        assert(b@.wram =~= Seq::new(WRAM_BYTES as nat, |i: int| 0u8));
        assert(b@.hram =~= Seq::new(HRAM_BYTES as nat, |i: int| 0u8));
        b
    }

    pub fn is_cgb(&self) -> (r: bool)
        ensures
            r == self.cgb,
    {
        self.cgb
    }

    fn wram_index(&self, address: u16) -> (r: usize)
        requires
            self.wf(),
            WRAM_START <= address <= WRAM_END,
        ensures
            r == self@.wram_index(address),
            r < WRAM_BYTES,
    {
        if address < WRAM_BANKED_START {
            (address - WRAM_START) as usize
        } else {
            self.wram_bank as usize * WRAM_BANK_BYTES + (address - WRAM_BANKED_START) as usize
        }
    }

    fn hdma5_value(&self) -> (r: u8)
        requires
            self.wf(),
        ensures
            r == self@.hdma5_value(),
    {
        if self.hdma_active {
            self.hdma_remaining - 1
        } else if self.hdma_remaining == 0 {
            0xFF
        } else {
            0x7F + self.hdma_remaining
        }
    }

    /// The byte at `address`, as the CPU sees it.
    pub fn read(&self, address: u16) -> (r: u8)
        requires
            self.wf(),
        ensures
            r == self@.read_spec(address),
    {
        reveal(BusModel::read_spec);
        if address <= ROM_END {
            if self.boot_rom_mapped && (address as usize) < self.boot_rom.len() && !(0x100 <= address && address < 0x200) {
                self.boot_rom[address as usize]
            } else {
                self.cartridge.read_rom(address)
            }
        } else if address <= VRAM_END {
            self.ppu.read_vram(address - VRAM_START)
        } else if address <= CART_RAM_END {
            self.cartridge.read_ram(address - CART_RAM_START)
        } else if address <= WRAM_END {
            self.wram[self.wram_index(address)]
        } else if address <= ECHO_END {
            self.wram[self.wram_index(address - 0x2000)]
        } else if address <= OAM_END {
            self.ppu.read_oam(address - OAM_START)
        } else if address <= UNUSABLE_END {
            0xFF
        } else if address == JOYPAD {
            self.joypad.read()
        } else if SERIAL_START <= address && address <= SERIAL_END {
            self.serial.read(address)
        } else if TIMER_START <= address && address <= TIMER_END {
            self.timer.read(address)
        } else if address == IF {
            self.intf | 0xE0
        } else if APU_START <= address && address <= APU_END {
            self.apu.read(address)
        } else if PPU_REG_START <= address && address <= PPU_REG_END {
            self.ppu.read_reg(address)
        } else if address == KEY1 {
            if self.cgb {
                let speed: u8 = if self.double_speed { 0x80 } else { 0 };
                let armed: u8 = if self.speed_armed { 1 } else { 0 };
                0x7E + speed + armed
            } else {
                0xFF
            }
        } else if address == VBK {
            if self.cgb { self.ppu.read_reg(address) } else { 0xFF }
        } else if address == HDMA5 {
            if self.cgb { self.hdma5_value() } else { 0xFF }
        } else if PALETTE_START <= address && address <= PALETTE_END {
            if self.cgb { self.ppu.read_reg(address) } else { 0xFF }
        } else if address == SVBK {
            if self.cgb { 0xF8 | self.wram_bank } else { 0xFF }
        } else if HRAM_START <= address && address <= HRAM_END {
            self.hram[(address - HRAM_START) as usize]
        } else if address == IE {
            self.inte
        } else {
            0xFF
        }
    }

    /// The byte at `address`, for a frontend or test: reading has no side effects.
    pub fn peek(&self, address: u16) -> (r: u8)
        requires
            self.wf(),
        ensures
            r == self@.read_spec(address),
    {
        self.read(address)
    }

    fn oam_dma(&mut self, page: u8)
        requires
            old(self).wf(),
        ensures
            final(self)@ == (BusModel { ppu: PpuModel { oam: old(self)@.oam_dma_data(page), ..old(self)@.ppu }, ..old(self)@ }),
            final(self).wf(),
    {
        let source = page as u16 * 256;
        let mut data: Vec<u8> = Vec::new();
        let mut i: u16 = 0;
        while i < 0xA0
            invariant
                self.wf(),
                i <= 0xA0,
                source == page * 256,
                data@.len() == i,
                forall|j: int| 0 <= j < i ==> data@[j] == self@.read_spec((page * 256 + j) as u16),
            decreases 0xA0 - i,
        {
            let byte = self.read(source + i);
            data.push(byte);
            i = i + 1;
        }
        let ghost before = self@;
        let mut k: u16 = 0;
        while k < 0xA0
            invariant
                before == old(self)@,
                before.wf(),
                self.wf(),
                k <= 0xA0,
                data@.len() == 0xA0,
                forall|j: int| 0 <= j < 0xA0 ==> data@[j] == before.read_spec((page * 256 + j) as u16),
                self@ == (BusModel { ppu: PpuModel { oam: self@.ppu.oam, ..before.ppu }, ..before }),
                self@.ppu.oam.len() == 0xA0,
                forall|j: int| 0 <= j < 0xA0 ==> #[trigger] self@.ppu.oam[j] == if j < k { data@[j] } else { before.ppu.oam[j] },
            decreases 0xA0 - k,
        {
            self.ppu.write_oam(k, data[k as usize]);
            k = k + 1;
        }
        assert(self@.ppu.oam =~= before.oam_dma_data(page));
    }

    #[verifier::rlimit(60)]
    fn hdma_copy(&mut self, blocks: u8)
        requires
            old(self).wf(),
            1 <= blocks <= 128,
        ensures
            final(self)@ == old(self)@.hdma_copy_spec(blocks as int),
            final(self).wf(),
    {
        let length: u16 = blocks as u16 * 16;
        let mut data: Vec<u8> = Vec::new();
        let mut i: u16 = 0;
        while i < length
            invariant
                self.wf(),
                length == blocks * 16,
                blocks <= 128,
                i <= length,
                data@.len() == i,
                forall|j: int| 0 <= j < i ==> data@[j] == self@.read_spec(((self@.hdma_source + j) % 0x10000) as u16),
            decreases length - i,
        {
            let byte = self.read(self.hdma_source.wrapping_add(i));
            data.push(byte);
            i = i + 1;
        }
        assert(data@ =~= self@.hdma_data(length as int));
        let ghost before = self@;
        let base = self.ppu.vbk as usize * 0x2000;
        let mut k: u16 = 0;
        while k < length
            invariant
                before == old(self)@,
                before.wf(),
                self.wf(),
                length == blocks * 16,
                blocks <= 128,
                k <= length,
                data@ == before.hdma_data(length as int),
                base == before.ppu.vbk * 0x2000,
                self@ == (BusModel { ppu: PpuModel { vram: self@.ppu.vram, ..before.ppu }, ..before }),
                self@.ppu.vram =~= copied_into_bank(before.ppu.vram, base as int, before.hdma_dest as int, data@.take(k as int)),
            decreases length - k,
        {
            let offset = (self.hdma_dest as usize + k as usize) % 0x2000;
            let ghost prev = self@.ppu.vram;
            self.ppu.write_vram(offset as u16, data[k as usize]);
            proof {
                lemma_copy_step(before.ppu.vram, base as int, before.hdma_dest as int, data@, k as int);
            }
            k = k + 1;
        }
        assert(data@.take(length as int) =~= data@);
        self.hdma_source = self.hdma_source.wrapping_add(length);
        self.hdma_dest = ((self.hdma_dest as usize + length as usize) % 0x2000) as u16;
    }

    fn write_hdma5(&mut self, value: u8)
        requires
            old(self).wf(),
        ensures
            final(self)@ == old(self)@.hdma5_write_spec(value),
            final(self).wf(),
    {
        proof {
            crate::bits::lemma_u8_bits(value);
        }
        let blocks = (value & 0x7F) + 1;
        if value & 0x80 != 0 {
            self.hdma_remaining = blocks;
            self.hdma_active = true;
        } else if self.hdma_active {
            self.hdma_active = false;
        } else {
            self.hdma_copy(blocks);
            self.hdma_remaining = 0;
        }
    }

    /// Writes `value` at `address`, with whatever effect the register behind it has.
    pub fn write(&mut self, address: u16, value: u8)
        requires
            old(self).wf(),
        ensures
            final(self)@ == old(self)@.write_spec(address, value),
            final(self).wf(),
    {
        if address <= UNUSABLE_END {
            self.write_memory(address, value);
        } else {
            self.write_io(address, value);
        }
    }

    #[verifier::rlimit(60)]
    fn write_memory(&mut self, address: u16, value: u8)
        requires
            old(self).wf(),
            address <= UNUSABLE_END,
        ensures
            final(self)@ == old(self)@.write_memory_spec(address, value),
            final(self).wf(),
    {
        reveal(BusModel::write_memory_spec);
        if address <= ROM_END {
            self.cartridge.write_rom(address, value);
        } else if address <= VRAM_END {
            self.ppu.write_vram(address - VRAM_START, value);
        } else if address <= CART_RAM_END {
            self.cartridge.write_ram(address - CART_RAM_START, value);
        } else if address <= WRAM_END {
            let i = self.wram_index(address);
            self.wram.set(i, value);
        } else if address <= ECHO_END {
            let i = self.wram_index(address - 0x2000);
            self.wram.set(i, value);
        } else if address <= OAM_END {
            self.ppu.write_oam(address - OAM_START, value);
        } else {
        }
    }

    #[verifier::rlimit(100)]
    fn write_io(&mut self, address: u16, value: u8)
        requires
            old(self).wf(),
            address > UNUSABLE_END,
        ensures
            final(self)@ == old(self)@.write_io_spec(address, value),
            final(self).wf(),
    {
        reveal(BusModel::write_io_spec);
        if address == JOYPAD {
            self.joypad.write(value);
        } else if SERIAL_START <= address && address <= SERIAL_END {
            self.serial.write(address, value);
        } else if TIMER_START <= address && address <= TIMER_END {
            self.timer.write(address, value);
        } else if address == IF {
            self.intf = value & 0x1F;
        } else if APU_START <= address && address <= APU_END {
            self.apu.write(address, value);
        } else if address == OAM_DMA {
            self.oam_dma(value);
        } else if PPU_REG_START <= address && address <= PPU_REG_END {
            self.ppu.write_reg(address, value);
        } else if address == BOOT_OFF {
            if value != 0 {
                self.boot_rom_mapped = false;
            }
        } else {
            self.write_high_io(address, value);
        }
    }

    #[verifier::rlimit(60)]
    fn write_high_io(&mut self, address: u16, value: u8)
        requires
            old(self).wf(),
            address > UNUSABLE_END,
        ensures
            final(self)@ == old(self)@.write_high_io_spec(address, value),
            final(self).wf(),
    {
        reveal(BusModel::write_high_io_spec);
        proof {
            assert(value & 7 <= 7 && (value & 7 != 0 ==> value & 7 >= 1)) by (bit_vector);
            assert((value & 0x1F) as int * 256 + 255 < 0x2000) by (bit_vector);
            assert(value & 0xF0 <= 0xF0) by (bit_vector);
        }
        if !self.cgb {
            if HRAM_START <= address && address <= HRAM_END {
                self.hram.set((address - HRAM_START) as usize, value);
            } else if address == IE {
                self.inte = value;
            }
        } else if address == KEY1 {
            self.speed_armed = value & 1 != 0;
        } else if address == VBK || (PALETTE_START <= address && address <= PALETTE_END) {
            self.ppu.write_reg(address, value);
        } else if address == HDMA1 {
            self.hdma_source = value as u16 * 256 + self.hdma_source % 256;
        } else if address == HDMA2 {
            self.hdma_source = (self.hdma_source / 256) * 256 + (value & 0xF0) as u16;
        } else if address == HDMA3 {
            self.hdma_dest = (value & 0x1F) as u16 * 256 + self.hdma_dest % 256;
        } else if address == HDMA4 {
            self.hdma_dest = (self.hdma_dest / 256) * 256 + (value & 0xF0) as u16;
        } else if address == HDMA5 {
            self.write_hdma5(value);
        } else if address == SVBK {
            self.wram_bank = if value & 7 == 0 { 1 } else { value & 7 };
        } else if HRAM_START <= address && address <= HRAM_END {
            self.hram.set((address - HRAM_START) as usize, value);
        } else if address == IE {
            self.inte = value;
        }
    }

    /// STOP: switches the CPU speed if KEY1 armed the switch (CGB only).
    pub fn switch_speed(&mut self)
        requires
            old(self).wf(),
        ensures
            final(self)@ == old(self)@.switch_speed_spec(),
            final(self).wf(),
    {
        if self.cgb && self.speed_armed {
            self.double_speed = !self.double_speed;
            self.speed_armed = false;
        }
    }

    /// Runs the machine for `t_cycles` CPU T-cycles: at most 80, as the PPU's
    /// `tick` needs (one mode step per call); a step of the CPU takes at most 24.
    pub fn tick(&mut self, t_cycles: u8)
        requires
            old(self).wf(),
            t_cycles <= 80,
        ensures
            final(self)@ == old(self)@.tick_spec(t_cycles),
            final(self).wf(),
    {
        reveal(BusModel::tick_spec);
        let video = if self.double_speed { t_cycles / 2 } else { t_cycles };
        let from_ppu = self.ppu.tick(video);
        let hblank = self.ppu.take_hblank_start();
        if hblank && self.hdma_active {
            self.hdma_copy(1);
            self.hdma_remaining = self.hdma_remaining - 1;
            self.hdma_active = self.hdma_remaining > 0;
        }
        let from_timer = self.timer.tick(t_cycles);
        let from_serial = self.serial.tick(t_cycles);
        let from_apu = self.apu.tick(video);
        let intf = self.intf;
        proof {
            assert(intf | from_ppu | from_timer | 0u8 | 0u8 == intf | from_ppu | from_timer) by (bit_vector);
        }
        self.intf = self.intf | from_ppu | from_timer | from_serial | from_apu;
    }

    /// Presses or releases a button, requesting the joypad interrupt when the
    /// joypad raises it.
    pub fn set_button(&mut self, button: Button, pressed: bool)
        requires
            old(self).wf(),
        ensures
            final(self)@ == (BusModel {
                joypad: old(self)@.joypad.set_spec(button, pressed).0,
                intf: old(self)@.intf | old(self)@.joypad.set_spec(button, pressed).1,
                ..old(self)@
            }),
            final(self).wf(),
    {
        let raised = self.joypad.set(button, pressed);
        self.intf = self.intf | raised;
    }

    /// Whether the PPU has finished a frame since the last call; clears the flag.
    pub fn take_frame_ready(&mut self) -> (r: bool)
        requires
            old(self).wf(),
        ensures
            r == old(self)@.ppu.frame_ready,
            final(self)@ == (BusModel { ppu: PpuModel { frame_ready: false, ..old(self)@.ppu }, ..old(self)@ }),
            final(self).wf(),
    {
        self.ppu.take_frame_ready()
    }

    pub fn take_samples(&mut self) -> (r: Vec<crate::apu::SampleFrame>)
        requires
            old(self).wf(),
        ensures
            r@ == old(self)@.apu.samples,
            final(self)@ == (BusModel { apu: ApuModel { samples: Seq::empty(), ..old(self)@.apu }, ..old(self)@ }),
            final(self).wf(),
    {
        self.apu.take_samples()
    }

    pub fn battery_ram(&self) -> (r: Option<&[u8]>)
        ensures
            r is Some == self@.cartridge.battery_ram_spec() is Some,
            r is Some ==> r.unwrap()@ == self@.cartridge.battery_ram_spec().unwrap(),
    {
        self.cartridge.battery_ram()
    }

    pub fn load_battery_ram(&mut self, saved: &[u8])
        requires
            old(self).wf(),
        ensures
            final(self)@ == (BusModel { cartridge: old(self)@.cartridge.load_battery_ram_spec(saved@), ..old(self)@ }),
            final(self).wf(),
    {
        self.cartridge.load_battery_ram(saved);
    }
}

/// Plain read-write memory: work RAM (without its echo) and high RAM.
pub open spec fn is_plain_ram(address: u16) -> bool {
    (WRAM_START <= address <= WRAM_END) || (HRAM_START <= address <= HRAM_END)
}

/// A write to plain RAM changes that one byte and nothing else in the model.
pub proof fn lemma_plain_ram_write(b: BusModel, address: u16, value: u8)
    requires
        b.wf(),
        is_plain_ram(address),
    ensures
        b.write_spec(address, value) == if address <= WRAM_END {
            BusModel { wram: b.wram.update(b.wram_index(address), value), ..b }
        } else {
            BusModel { hram: b.hram.update(address - HRAM_START, value), ..b }
        },
        b.write_spec(address, value).wf(),
{
    reveal(BusModel::write_memory_spec);
    reveal(BusModel::write_io_spec);
    reveal(BusModel::write_high_io_spec);
}

/// Work RAM, its echo, high RAM and IE give back what was written to them.
pub proof fn law_ram_reads_back(b: BusModel, address: u16, value: u8)
    requires
        b.wf(),
        (WRAM_START <= address <= ECHO_END) || (HRAM_START <= address <= HRAM_END) || address == IE,
    ensures
        b.write_spec(address, value).read_spec(address) == value,
{
    reveal(BusModel::read_spec);
    reveal(BusModel::write_memory_spec);
    reveal(BusModel::write_io_spec);
    reveal(BusModel::write_high_io_spec);
}

/// A write to one byte of plain RAM leaves every other byte of it as it was.
pub proof fn law_ram_write_leaves_the_rest(b: BusModel, address: u16, other: u16, value: u8)
    requires
        b.wf(),
        is_plain_ram(address),
        is_plain_ram(other),
        address != other,
    ensures
        b.write_spec(address, value).read_spec(other) == b.read_spec(other),
{
    reveal(BusModel::read_spec);
    lemma_plain_ram_write(b, address, value);
}

/// The echo at 0xE000..=0xFDFF reads as the work RAM 0x2000 below it.
pub proof fn law_echo_mirrors_work_ram(b: BusModel, address: u16)
    requires
        b.wf(),
        ECHO_START <= address <= ECHO_END,
    ensures
        b.read_spec(address) == b.read_spec((address - 0x2000) as u16),
{
    reveal(BusModel::read_spec);
}

/// VRAM gives back what was written to it, in whichever bank VBK selects.
pub proof fn law_vram_reads_back(b: BusModel, address: u16, value: u8)
    requires
        b.wf(),
        VRAM_START <= address <= VRAM_END,
    ensures
        b.write_spec(address, value).read_spec(address) == value,
{
    reveal(BusModel::read_spec);
    reveal(BusModel::write_memory_spec);
}

/// Writing a page number to 0xFF46 copies the 160 bytes of that page into
/// OAM at once, as they read before the write.
pub proof fn law_oam_dma_copies_the_page(b: BusModel, page: u8, i: int)
    requires
        b.wf(),
        0 <= i < 0xA0,
    ensures
        b.write_spec(OAM_DMA, page).read_spec((OAM_START + i) as u16) == b.read_spec((page * 256 + i) as u16),
{
    reveal(BusModel::read_spec);
    reveal(BusModel::write_io_spec);
}

/// A general-purpose VRAM DMA (HDMA5 with bit 7 clear while no HBlank
/// transfer runs) copies its (value & 0x7F) + 1 blocks of 16 bytes at once:
/// byte `i` of the source lands `i` bytes past the destination, wrapping
/// within the selected VRAM bank, and reads back through the bus.
#[verifier::spinoff_prover]
#[verifier::rlimit(60)]
pub proof fn law_general_dma_copies(b: BusModel, value: u8, i: int)
    requires
        b.wf(),
        b.cgb,
        !b.hdma_active,
        value & 0x80 == 0,
        0 <= i < (value % 128 + 1) * 16,
    ensures
        b.write_spec(HDMA5, value).read_spec((VRAM_START + (b.hdma_dest + i) % 0x2000) as u16)
            == b.read_spec(((b.hdma_source + i) % 0x10000) as u16),
{
    reveal(BusModel::read_spec);
    reveal(BusModel::write_io_spec);
    reveal(BusModel::write_high_io_spec);
    let blocks = (value % 128 + 1) as u8;
    let after = b.write_spec(HDMA5, value);
    let data = b.hdma_data(blocks * 16);
    let base = b.ppu.vbk * 0x2000;
    let j = base + (b.hdma_dest + i) % 0x2000;
    assert((j - base - b.hdma_dest) % 0x2000 == i);
    assert(after.ppu.vram[j] == data[i]);
}

} // verus!
