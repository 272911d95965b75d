pub mod nombc;
pub mod mbc1;
pub mod mbc3;
pub mod mbc5;

use vstd::prelude::*;
use crate::cartridge::nombc::{NoMbc, NoMbcModel};
use crate::cartridge::mbc1::{Mbc1, Mbc1Model};
use crate::cartridge::mbc3::{Mbc3, Mbc3Model};
use crate::cartridge::mbc5::{Mbc5, Mbc5Model};

verus! {

pub const ROM_BANK_BYTES: usize = 0x4000;
pub const RAM_BANK_BYTES: usize = 0x2000;

pub const TITLE: usize = 0x0134;
pub const CGB_FLAG: usize = 0x0143;
pub const CART_TYPE: usize = 0x0147;
pub const ROM_SIZE: usize = 0x0148;
pub const RAM_SIZE: usize = 0x0149;
pub const CHECKSUM: usize = 0x014D;

/// The byte at `i`, or 0xFF (open bus) past the end.
pub open spec fn byte_or_ff(s: Seq<u8>, i: int) -> u8 {
    if 0 <= i < s.len() {
        s[i]
    } else {
        0xFF
    }
}

/// `s` with the byte at `i` replaced, or unchanged when `i` is past the end.
pub open spec fn written_if_in(s: Seq<u8>, i: int, value: u8) -> Seq<u8> {
    if 0 <= i < s.len() {
        s.update(i, value)
    } else {
        s
    }
}

/// `ram` with as much of `saved` copied over its start as both reach.
pub open spec fn copied_prefix(ram: Seq<u8>, saved: Seq<u8>) -> Seq<u8> {
    Seq::new(ram.len(), |i: int| if i < saved.len() { saved[i] } else { ram[i] })
}

pub fn get_or_ff(v: &Vec<u8>, i: usize) -> (r: u8)
    ensures
        r == byte_or_ff(v@, i as int),
{
    if i < v.len() {
        v[i]
    } else {
        0xFF
    }
}

pub fn set_if_in(v: &mut Vec<u8>, i: usize, value: u8)
    ensures
        final(v)@ == written_if_in(old(v)@, i as int, value),
{
    if i < v.len() {
        v.set(i, value);
    }
}

pub fn copy_prefix(ram: &mut Vec<u8>, saved: &[u8])
    ensures
        final(ram)@ == copied_prefix(old(ram)@, saved@),
{
    let shared = if ram.len() < saved.len() { ram.len() } else { saved.len() };
    let mut i: usize = 0;
    while i < shared
        invariant
            shared <= ram.len() && shared <= saved.len(),
            ram@.len() == old(ram)@.len(),
            i <= shared,
            forall|j: int| 0 <= j < i ==> ram@[j] == saved@[j],
            forall|j: int| i <= j < ram@.len() ==> ram@[j] == old(ram)@[j],
        decreases shared - i,
    {
        ram.set(i, saved[i]);
        i = i + 1;
    }
    assert(ram@ =~= copied_prefix(old(ram)@, saved@));
}

/// Where `address` lands in a ROM image with `bank` mapped at its half of the map.
pub fn rom_offset(bank: usize, address: u16) -> (r: usize)
    requires
        bank * 0x4000 + 0x3FFF <= usize::MAX,
    ensures
        r == bank * 0x4000 + address % 0x4000,
{
    bank * ROM_BANK_BYTES + address as usize % ROM_BANK_BYTES
}

/// Where `offset` into the RAM window lands in a RAM image with `bank` mapped.
pub fn ram_offset(bank: usize, offset: u16) -> (r: usize)
    requires
        bank * 0x2000 + offset <= usize::MAX,
    ensures
        r == bank * 0x2000 + offset,
{
    bank * RAM_BANK_BYTES + offset as usize
}

/// Why a ROM image cannot be loaded.
#[derive(Clone, Copy, PartialEq, Eq, Debug)]
pub enum CartridgeError {
    /// The image is this many bytes; the header alone runs to 0x014F.
    TooShort(usize),
    /// The header checksum stored at 0x014D is not the one the header computes
    /// to: this is probably not a Game Boy ROM.
    ChecksumMismatch { stored: u8, computed: u8 },
    UnknownRomSize(u8),
    UnknownRamSize(u8),
    UnsupportedType(u8),
}

/// The checksum of the header bytes from 0x0134 up to `end`: subtract every
/// byte, and one more each time.
pub open spec fn checksum_upto(rom: Seq<u8>, end: int) -> u8
    decreases end - TITLE,
{
    if end <= TITLE {
        0
    } else {
        ((checksum_upto(rom, end - 1) - rom[end - 1] - 1 + 512) % 256) as u8
    }
}

/// The checksum the boot ROM compares against 0x014D, over 0x0134..=0x014C.
pub open spec fn header_checksum_spec(rom: Seq<u8>) -> u8 {
    checksum_upto(rom, CHECKSUM as int)
}

/// The title characters from `i`, stopping at the first zero byte or at `end`.
pub open spec fn title_from(rom: Seq<u8>, i: int, end: int) -> Seq<char>
    decreases end - i,
{
    if i >= end || rom[i] == 0 {
        Seq::empty()
    } else {
        seq![rom[i] as char] + title_from(rom, i + 1, end)
    }
}

/// The title: 0x0134..=0x0143, or ..=0x0142 once the CGB claimed 0x0143 as a
/// compatibility flag (its top bit set), up to the first zero.
pub open spec fn title_spec(rom: Seq<u8>) -> Seq<char> {
    let end: int = if rom[CGB_FLAG as int] & 0x80 == 0 { CGB_FLAG + 1 } else { CGB_FLAG as int };
    title_from(rom, TITLE as int, end)
}

pub open spec fn has_battery_spec(cart_type: u8) -> bool {
    cart_type == 0x03 || cart_type == 0x06 || cart_type == 0x09 || cart_type == 0x0D || cart_type
        == 0x0F || cart_type == 0x10 || cart_type == 0x13 || cart_type == 0x1B || cart_type == 0x1E
        || cart_type == 0x22 || cart_type == 0xFF
}

/// ROM size in bytes for a size code 0..=8: 32 KiB doubled `code` times.
pub open spec fn rom_size_spec(code: u8) -> usize {
    (0x8000usize << code) as usize
}

pub open spec fn ram_size_known(code: u8) -> bool {
    code <= 5
}

pub open spec fn ram_size_spec(code: u8) -> usize {
    if code == 0 {
        0usize
    } else if code == 1 {
        0x800usize
    } else if code == 2 {
        0x2000usize
    } else if code == 3 {
        0x8000usize
    } else if code == 4 {
        0x20000usize
    } else {
        0x10000usize
    }
}

/// The outcome `Header::parse` owes for a ROM image.
pub open spec fn parse_error(rom: Seq<u8>) -> Option<CartridgeError> {
    if rom.len() <= CHECKSUM {
        Some(CartridgeError::TooShort(rom.len() as usize))
    } else if rom[CHECKSUM as int] != header_checksum_spec(rom) {
        Some(
            CartridgeError::ChecksumMismatch {
                stored: rom[CHECKSUM as int],
                computed: header_checksum_spec(rom),
            },
        )
    } else if rom[ROM_SIZE as int] > 8 {
        Some(CartridgeError::UnknownRomSize(rom[ROM_SIZE as int]))
    } else if !ram_size_known(rom[RAM_SIZE as int]) {
        Some(CartridgeError::UnknownRamSize(rom[RAM_SIZE as int]))
    } else {
        None
    }
}

/// The cartridge header fields the emulator uses.
pub struct Header {
    pub _title: String,
    pub cart_type: u8,
    pub rom_size: usize,
    pub ram_size: usize,
    pub has_battery: bool,
}

/// Calls `String::push`, which the std documentation says appends the
/// character to the end of the string: the contract claims exactly that.
#[verifier::external_body]
fn push_char(s: &mut String, c: char)
    ensures
        final(s)@ == old(s)@.push(c),
{
    s.push(c)
}

/// Subtract every byte of 0x0134..=0x014C, and one more each time. The boot
/// ROM compares this against 0x014D and refuses the cartridge if it differs.
pub fn header_checksum(rom: &[u8]) -> (r: u8)
    requires
        rom@.len() >= CHECKSUM,
    ensures
        r == header_checksum_spec(rom@),
        r == (0 - (header_sum(rom@, CHECKSUM as int) + 25)) % 256,
{
    let mut checksum: u8 = 0;
    let mut i: usize = TITLE;
    while i < CHECKSUM
        invariant
            TITLE <= i <= CHECKSUM,
            rom@.len() >= CHECKSUM,
            checksum == checksum_upto(rom@, i as int),
        decreases CHECKSUM - i,
    {
        checksum = checksum.wrapping_sub(rom[i]).wrapping_sub(1);
        i = i + 1;
    }
    proof {
        lemma_checksum_is_negated_sum(rom@, CHECKSUM as int);
    }
    checksum
}

fn title(rom: &[u8]) -> (r: String)
    requires
        rom@.len() > CHECKSUM,
    ensures
        r@ == title_spec(rom@),
{
    let end = if rom[CGB_FLAG] & 0x80 == 0 { CGB_FLAG + 1 } else { CGB_FLAG };
    let mut result = String::new();
    let mut i: usize = TITLE;
    while i < end
        invariant
            TITLE <= i <= end <= CGB_FLAG + 1,
            rom@.len() > CHECKSUM,
            result@ + title_from(rom@, i as int, end as int) == title_from(rom@, TITLE as int, end as int),
        ensures
            title_from(rom@, i as int, end as int) =~= Seq::<char>::empty(),
        decreases end - i,
    {
        let byte = rom[i];
        if byte == 0 {
            break;
        }
        let ghost before = result@;
        push_char(&mut result, byte as char);
        assert(result@ + title_from(rom@, i + 1, end as int) =~= before + title_from(rom@, i as int, end as int));
        i = i + 1;
    }
    assert(result@ =~= result@ + title_from(rom@, i as int, end as int));
    result
}

fn has_battery(cart_type: u8) -> (r: bool)
    ensures
        r == has_battery_spec(cart_type),
{
    cart_type == 0x03 || cart_type == 0x06 || cart_type == 0x09 || cart_type == 0x0D || cart_type
        == 0x0F || cart_type == 0x10 || cart_type == 0x13 || cart_type == 0x1B || cart_type == 0x1E
        || cart_type == 0x22 || cart_type == 0xFF
}

fn rom_size(code: u8) -> (r: usize)
    requires
        code <= 8,
    ensures
        r == rom_size_spec(code),
{
    0x8000usize << code
}

fn ram_size(code: u8) -> (r: usize)
    requires
        ram_size_known(code),
    ensures
        r == ram_size_spec(code),
{
    if code == 0 {
        0
    } else if code == 1 {
        2 * 1024
    } else if code == 2 {
        8 * 1024
    } else if code == 3 {
        32 * 1024
    } else if code == 4 {
        128 * 1024
    } else {
        64 * 1024
    }
}

impl Header {
    /// Reads the header of a ROM image; refuses an image too short to hold one,
    /// a header whose checksum does not match, and unknown size codes. The
    /// refusal is an `Err` naming the reason, not a panic; a frontend that
    /// wants to stop on a bad ROM turns it into one.
    pub fn parse(rom: &[u8]) -> (r: Result<Header, CartridgeError>)
        ensures
            parse_error(rom@) matches Some(e) ==> r == Err::<Header, CartridgeError>(e),
            parse_error(rom@) is None ==> (r matches Ok(h) && {
                &&& h._title@ == title_spec(rom@)
                &&& h.cart_type == rom@[CART_TYPE as int]
                &&& h.rom_size == rom_size_spec(rom@[ROM_SIZE as int])
                &&& h.ram_size == ram_size_spec(rom@[RAM_SIZE as int])
                &&& h.has_battery == has_battery_spec(rom@[CART_TYPE as int])
            }),
    {
        if rom.len() <= CHECKSUM {
            return Err(CartridgeError::TooShort(rom.len()));
        }
        let computed = header_checksum(rom);
        if rom[CHECKSUM] != computed {
            return Err(CartridgeError::ChecksumMismatch { stored: rom[CHECKSUM], computed });
        }
        if rom[ROM_SIZE] > 8 {
            return Err(CartridgeError::UnknownRomSize(rom[ROM_SIZE]));
        }
        if rom[RAM_SIZE] > 5 {
            return Err(CartridgeError::UnknownRamSize(rom[RAM_SIZE]));
        }
        Ok(
            Header {
                _title: title(rom),
                cart_type: rom[CART_TYPE],
                rom_size: rom_size(rom[ROM_SIZE]),
                ram_size: ram_size(rom[RAM_SIZE]),
                has_battery: has_battery(rom[CART_TYPE]),
            },
        )
    }
}

/// No cartridge in the slot: everything reads as open bus and writes go nowhere.
pub struct Unplugged;

/// A cartridge, by memory bank controller.
pub enum Cartridge {
    Unplugged(Unplugged),
    NoMbc(NoMbc),
    Mbc1(Mbc1),
    Mbc3(Mbc3),
    Mbc5(Mbc5),
}

/// A cartridge as values.
pub enum CartridgeModel {
    Unplugged,
    NoMbc(NoMbcModel),
    Mbc1(Mbc1Model),
    Mbc3(Mbc3Model),
    Mbc5(Mbc5Model),
}

impl View for Cartridge {
    type V = CartridgeModel;

    open spec fn view(&self) -> CartridgeModel {
        match self {
            Cartridge::Unplugged(_) => CartridgeModel::Unplugged,
            Cartridge::NoMbc(m) => CartridgeModel::NoMbc(m@),
            Cartridge::Mbc1(m) => CartridgeModel::Mbc1(m@),
            Cartridge::Mbc3(m) => CartridgeModel::Mbc3(m@),
            Cartridge::Mbc5(m) => CartridgeModel::Mbc5(m@),
        }
    }
}

impl CartridgeModel {
    pub open spec fn wf(self) -> bool {
        match self {
            CartridgeModel::Mbc1(m) => m.wf(),
            CartridgeModel::Mbc3(m) => m.wf(),
            CartridgeModel::Mbc5(m) => m.wf(),
            _ => true,
        }
    }

    pub open spec fn read_rom_spec(self, address: u16) -> u8 {
        match self {
            CartridgeModel::Unplugged => 0xFF,
            CartridgeModel::NoMbc(m) => m.read_rom_spec(address),
            CartridgeModel::Mbc1(m) => m.read_rom_spec(address),
            CartridgeModel::Mbc3(m) => m.read_rom_spec(address),
            CartridgeModel::Mbc5(m) => m.read_rom_spec(address),
        }
    }

    pub open spec fn write_rom_spec(self, address: u16, value: u8) -> CartridgeModel {
        match self {
            CartridgeModel::Mbc1(m) => CartridgeModel::Mbc1(m.write_rom_spec(address, value)),
            CartridgeModel::Mbc3(m) => CartridgeModel::Mbc3(m.write_rom_spec(address, value)),
            CartridgeModel::Mbc5(m) => CartridgeModel::Mbc5(m.write_rom_spec(address, value)),
            _ => self,
        }
    }

    pub open spec fn read_ram_spec(self, offset: u16) -> u8 {
        match self {
            CartridgeModel::Unplugged => 0xFF,
            CartridgeModel::NoMbc(m) => m.read_ram_spec(offset),
            CartridgeModel::Mbc1(m) => m.read_ram_spec(offset),
            CartridgeModel::Mbc3(m) => m.read_ram_spec(offset),
            CartridgeModel::Mbc5(m) => m.read_ram_spec(offset),
        }
    }

    pub open spec fn write_ram_spec(self, offset: u16, value: u8) -> CartridgeModel {
        match self {
            CartridgeModel::Unplugged => self,
            CartridgeModel::NoMbc(m) => CartridgeModel::NoMbc(m.write_ram_spec(offset, value)),
            CartridgeModel::Mbc1(m) => CartridgeModel::Mbc1(m.write_ram_spec(offset, value)),
            CartridgeModel::Mbc3(m) => CartridgeModel::Mbc3(m.write_ram_spec(offset, value)),
            CartridgeModel::Mbc5(m) => CartridgeModel::Mbc5(m.write_ram_spec(offset, value)),
        }
    }

    /// The battery-backed RAM, if the cartridge has a battery.
    pub open spec fn battery_ram_spec(self) -> Option<Seq<u8>> {
        match self {
            CartridgeModel::Mbc1(m) => if m.has_battery { Some(m.ram) } else { None },
            CartridgeModel::Mbc3(m) => if m.has_battery { Some(m.ram) } else { None },
            CartridgeModel::Mbc5(m) => if m.has_battery { Some(m.ram) } else { None },
            _ => None,
        }
    }

    pub open spec fn load_battery_ram_spec(self, saved: Seq<u8>) -> CartridgeModel {
        match self {
            CartridgeModel::Mbc1(m) => CartridgeModel::Mbc1(Mbc1Model { ram: copied_prefix(m.ram, saved), ..m }),
            CartridgeModel::Mbc3(m) => CartridgeModel::Mbc3(Mbc3Model { ram: copied_prefix(m.ram, saved), ..m }),
            CartridgeModel::Mbc5(m) => CartridgeModel::Mbc5(Mbc5Model { ram: copied_prefix(m.ram, saved), ..m }),
            _ => self,
        }
    }
}

/// Whether `load` has a memory bank controller for a cartridge type.
pub open spec fn supported_type(cart_type: u8) -> bool {
    cart_type == 0x00 || (0x01 <= cart_type <= 0x03) || (0x0F <= cart_type <= 0x13) || (0x19
        <= cart_type <= 0x1E)
}

/// Whether a ROM image asks for CGB mode: bit 7 of 0x0143.
pub open spec fn is_cgb_spec(rom: Seq<u8>) -> bool {
    rom.len() > CGB_FLAG && rom[CGB_FLAG as int] & 0x80 != 0
}

pub fn is_cgb(rom: &[u8]) -> (r: bool)
    ensures
        r == is_cgb_spec(rom@),
{
    rom.len() > CGB_FLAG && rom[CGB_FLAG] & 0x80 != 0
}

/// The cartridge a ROM image of a supported type loads as: its controller in
/// the reset state, RAM of the size the header gives, all zero.
pub open spec fn loaded_spec(rom: Seq<u8>) -> CartridgeModel {
    let t = rom[CART_TYPE as int];
    let ram = Seq::new(ram_size_spec(rom[RAM_SIZE as int]) as nat, |i: int| 0u8);
    let battery = has_battery_spec(t);
    if t == 0x00 {
        CartridgeModel::NoMbc(NoMbcModel { rom, ram })
    } else if 0x01 <= t <= 0x03 {
        CartridgeModel::Mbc1(Mbc1Model { rom, ram, has_battery: battery, ram_enabled: false, bank: 1, upper: 0, in_ram_mode: false })
    } else if 0x0F <= t <= 0x13 {
        CartridgeModel::Mbc3(Mbc3Model { rom, ram, has_battery: battery, ram_enabled: false, rom_bank: 1, ram_select: 0 })
    } else {
        CartridgeModel::Mbc5(Mbc5Model { rom, ram, has_battery: battery, ram_enabled: false, rom_bank: 1, ram_bank: 0 })
    }
}

/// Builds the cartridge a ROM image describes.
pub fn load(rom: &[u8]) -> (r: Result<Cartridge, CartridgeError>)
    ensures
        parse_error(rom@) matches Some(e) ==> r == Err::<Cartridge, CartridgeError>(e),
        parse_error(rom@) is None && !supported_type(rom@[CART_TYPE as int]) ==> r
            == Err::<Cartridge, CartridgeError>(CartridgeError::UnsupportedType(rom@[CART_TYPE as int])),
        parse_error(rom@) is None && supported_type(rom@[CART_TYPE as int]) ==> (r matches Ok(c)
            && c@ == loaded_spec(rom@) && c.wf()),
{
    let header = match Header::parse(rom) {
        Ok(h) => h,
        Err(e) => return Err(e),
    };
    let t = header.cart_type;
    if t == 0x00 {
        Ok(Cartridge::NoMbc(NoMbc::new(rom, &header)))
    } else if 0x01 <= t && t <= 0x03 {
        Ok(Cartridge::Mbc1(Mbc1::new(rom, &header)))
    } else if 0x0F <= t && t <= 0x13 {
        Ok(Cartridge::Mbc3(Mbc3::new(rom, &header)))
    } else if 0x19 <= t && t <= 0x1E {
        Ok(Cartridge::Mbc5(Mbc5::new(rom, &header)))
    } else {
        Err(CartridgeError::UnsupportedType(t))
    }
}

/// The empty cartridge slot.
pub fn unplugged() -> (c: Cartridge)
    ensures
        c@ == CartridgeModel::Unplugged,
{
    Cartridge::Unplugged(Unplugged)
}

impl Cartridge {
    pub open spec fn wf(&self) -> bool {
        self@.wf()
    }

    pub fn read_rom(&self, address: u16) -> (r: u8)
        requires
            self.wf(),
        ensures
            r == self@.read_rom_spec(address),
    {
        match self {
            Cartridge::Unplugged(_) => 0xFF,
            Cartridge::NoMbc(m) => m.read_rom(address),
            Cartridge::Mbc1(m) => m.read_rom(address),
            Cartridge::Mbc3(m) => m.read_rom(address),
            Cartridge::Mbc5(m) => m.read_rom(address),
        }
    }

    pub fn write_rom(&mut self, address: u16, value: u8)
        requires
            old(self).wf(),
        ensures
            final(self)@ == old(self)@.write_rom_spec(address, value),
            final(self).wf(),
    {
        match self {
            Cartridge::Unplugged(_) => {},
            Cartridge::NoMbc(m) => m.write_rom(address, value),
            Cartridge::Mbc1(m) => m.write_rom(address, value),
            Cartridge::Mbc3(m) => m.write_rom(address, value),
            Cartridge::Mbc5(m) => m.write_rom(address, value),
        }
    }

    pub fn read_ram(&self, offset: u16) -> (r: u8)
        requires
            self.wf(),
        ensures
            r == self@.read_ram_spec(offset),
    {
        match self {
            Cartridge::Unplugged(_) => 0xFF,
            Cartridge::NoMbc(m) => m.read_ram(offset),
            Cartridge::Mbc1(m) => m.read_ram(offset),
            Cartridge::Mbc3(m) => m.read_ram(offset),
            Cartridge::Mbc5(m) => m.read_ram(offset),
        }
    }

    pub fn write_ram(&mut self, offset: u16, value: u8)
        requires
            old(self).wf(),
        ensures
            final(self)@ == old(self)@.write_ram_spec(offset, value),
            final(self).wf(),
    {
        match self {
            Cartridge::Unplugged(_) => {},
            Cartridge::NoMbc(m) => m.write_ram(offset, value),
            Cartridge::Mbc1(m) => m.write_ram(offset, value),
            Cartridge::Mbc3(m) => m.write_ram(offset, value),
            Cartridge::Mbc5(m) => m.write_ram(offset, value),
        }
    }

    pub fn battery_ram(&self) -> (r: Option<&[u8]>)
        ensures
            r is Some == self@.battery_ram_spec() is Some,
            r is Some ==> r.unwrap()@ == self@.battery_ram_spec().unwrap(),
    {
        match self {
            Cartridge::Mbc1(m) => m.battery_ram(),
            Cartridge::Mbc3(m) => m.battery_ram(),
            Cartridge::Mbc5(m) => m.battery_ram(),
            _ => None,
        }
    }

    pub fn load_battery_ram(&mut self, saved: &[u8])
        requires
            old(self).wf(),
        ensures
            final(self)@ == old(self)@.load_battery_ram_spec(saved@),
            final(self).wf(),
    {
        match self {
            Cartridge::Mbc1(m) => m.load_battery_ram(saved),
            Cartridge::Mbc3(m) => m.load_battery_ram(saved),
            Cartridge::Mbc5(m) => m.load_battery_ram(saved),
            _ => {},
        }
    }
}

/// Whether the RAM window byte at `offset` reaches a byte of cartridge RAM:
/// the RAM is enabled (a controller without one always is), the selected
/// bank is RAM rather than a clock register, and the byte exists.
pub open spec fn ram_mapped(c: CartridgeModel, offset: u16) -> bool {
    match c {
        CartridgeModel::Unplugged => false,
        CartridgeModel::NoMbc(m) => offset < m.ram.len(),
        CartridgeModel::Mbc1(m) => m.ram_enabled && m.ram_bank_spec() * 0x2000 + offset < m.ram.len(),
        CartridgeModel::Mbc3(m) => m.ram_enabled && m.ram_select < 8 && m.ram_select * 0x2000 + offset
            < m.ram.len(),
        CartridgeModel::Mbc5(m) => m.ram_enabled && m.ram_bank * 0x2000 + offset < m.ram.len(),
    }
}

/// Cartridge RAM that the window reaches reads back what was written there.
pub proof fn law_cartridge_ram_round_trip(c: CartridgeModel, offset: u16, value: u8)
    requires
        c.wf(),
        ram_mapped(c, offset),
    ensures
        c.write_ram_spec(offset, value).read_ram_spec(offset) == value,
        ram_mapped(c.write_ram_spec(offset, value), offset),
{
}

/// Where the window reaches no RAM, reads are open bus (0xFF) and writes change nothing.
pub proof fn law_unmapped_ram_is_open_bus(c: CartridgeModel, offset: u16, value: u8)
    requires
        !ram_mapped(c, offset),
    ensures
        c.read_ram_spec(offset) == 0xFF,
        c.write_ram_spec(offset, value) == c,
{
    match c {
        CartridgeModel::NoMbc(m) => assert(written_if_in(m.ram, offset as int, value) =~= m.ram),
        CartridgeModel::Mbc1(m) => if m.ram_enabled {
            assert(written_if_in(m.ram, m.ram_bank_spec() * 0x2000 + offset, value) =~= m.ram);
        },
        CartridgeModel::Mbc3(m) => if m.ram_enabled && m.ram_select < 8 {
            assert(written_if_in(m.ram, m.ram_select * 0x2000 + offset, value) =~= m.ram);
        },
        CartridgeModel::Mbc5(m) => if m.ram_enabled {
            assert(written_if_in(m.ram, m.ram_bank * 0x2000 + offset, value) =~= m.ram);
        },
        _ => {},
    }
}

/// On a banked cartridge, writing a value whose low nibble is not 0xA to
/// 0x0000..=0x1FFF disables the RAM, and writing one whose low nibble is
/// enables it.
pub proof fn law_ram_enable_register(c: CartridgeModel, address: u16, value: u8, offset: u16)
    requires
        c is Mbc1 || c is Mbc3 || c is Mbc5,
        address <= 0x1FFF,
    ensures
        value % 16 != 0x0A ==> !ram_mapped(c.write_rom_spec(address, value), offset),
        value % 16 == 0x0A ==> ram_mapped(c.write_rom_spec(address, value), offset) == ram_mapped(
            c.write_rom_spec(address, 0x0A), offset),
{
}

/// The switchable half of an MBC1 never maps a bank whose low five bits are 0:
/// 0x00, 0x20, 0x40 and 0x60 read as the bank above.
pub proof fn law_mbc1_skips_bank_zero(m: Mbc1Model, address: u16)
    requires
        m.wf(),
        0x4000 <= address,
    ensures
        m.rom_bank_spec(address) % 32 != 0,
{
}

/// MBC3 and MBC5 differ at bank 0: MBC3 maps bank 1 for it, MBC5 maps bank 0.
pub proof fn law_bank_zero_select(m3: Mbc3Model, m5: Mbc5Model, address: u16)
    requires
        0x4000 <= address <= 0x7FFF,
    ensures
        m3.write_rom_spec(0x2000, 0).read_rom_spec(address) == byte_or_ff(m3.rom, 0x4000 + address % 0x4000),
        m5.rom_bank < 256 ==> m5.write_rom_spec(0x2000, 0).read_rom_spec(address) == byte_or_ff(
            m5.rom, (address % 0x4000) as int),
{
}

/// Loading the RAM a battery saved gives it back: the battery RAM after the
/// load is the saved image, when the sizes agree.
pub proof fn law_battery_ram_round_trip(c: CartridgeModel, saved: Seq<u8>)
    requires
        c.battery_ram_spec() matches Some(ram) && ram.len() == saved.len(),
    ensures
        c.load_battery_ram_spec(saved).battery_ram_spec() == Some(saved),
{
    match c {
        CartridgeModel::Mbc1(m) => assert(copied_prefix(m.ram, saved) =~= saved),
        CartridgeModel::Mbc3(m) => assert(copied_prefix(m.ram, saved) =~= saved),
        CartridgeModel::Mbc5(m) => assert(copied_prefix(m.ram, saved) =~= saved),
        _ => {},
    }
}

/// A header parses only when 0x014D holds the checksum of 0x0134..=0x014C.
pub proof fn law_parse_checks_checksum(rom: Seq<u8>)
    requires
        parse_error(rom) is None,
    ensures
        rom[CHECKSUM as int] == header_checksum_spec(rom),
{
}

/// The sum of the header bytes from 0x0134 up to `end`.
pub open spec fn header_sum(rom: Seq<u8>, end: int) -> int
    decreases end - TITLE,
{
    if end <= TITLE {
        0
    } else {
        header_sum(rom, end - 1) + rom[end - 1]
    }
}

proof fn lemma_checksum_is_negated_sum(rom: Seq<u8>, end: int)
    requires
        TITLE <= end,
    ensures
        checksum_upto(rom, end) == (0 - (header_sum(rom, end) + (end - TITLE))) % 256,
    decreases end - TITLE,
{
    if end > TITLE {
        lemma_checksum_is_negated_sum(rom, end - 1);
        let prev = checksum_upto(rom, end - 1);
        let t = header_sum(rom, end - 1) + (end - 1 - TITLE);
        let x = rom[end - 1] as int;
        assert(prev == (0 - t) % 256);
        assert((prev - x - 1 + 512) % 256 == (0 - (t + x + 1)) % 256) by (nonlinear_arith)
            requires
                prev == (0 - t) % 256,
                0 <= x < 256;
    }
}

/// The header checksum is the negated sum of the 25 bytes 0x0134..=0x014C,
/// less 25, modulo 256; no other byte of the image affects it.
pub proof fn law_header_checksum_is_negated_sum(rom: Seq<u8>, other: Seq<u8>)
    ensures
        header_checksum_spec(rom) == (0 - (header_sum(rom, CHECKSUM as int) + 25)) % 256,
        (forall|i: int| TITLE <= i < CHECKSUM ==> #[trigger] rom[i] == other[i]) ==> header_checksum_spec(rom)
            == header_checksum_spec(other),
{
    lemma_checksum_is_negated_sum(rom, CHECKSUM as int);
    lemma_checksum_is_negated_sum(other, CHECKSUM as int);
    if forall|i: int| TITLE <= i < CHECKSUM ==> #[trigger] rom[i] == other[i] {
        lemma_same_header_sum(rom, other, CHECKSUM as int);
    }
}

proof fn lemma_same_header_sum(rom: Seq<u8>, other: Seq<u8>, end: int)
    requires
        end <= CHECKSUM,
        forall|i: int| TITLE <= i < CHECKSUM ==> #[trigger] rom[i] == other[i],
    ensures
        header_sum(rom, end) == header_sum(other, end),
    decreases end - TITLE,
{
    if end > TITLE {
        lemma_same_header_sum(rom, other, end - 1);
        assert(rom[end - 1] == other[end - 1]);
    }
}

} // verus!
