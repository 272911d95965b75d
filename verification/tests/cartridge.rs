use ferroboy::cartridge::{
    self, header_checksum, load, CartridgeError, Header, CART_TYPE, CGB_FLAG, CHECKSUM, RAM_SIZE,
    ROM_SIZE, TITLE,
};

const HALT: u8 = 0x76;
const CGB_ENHANCED: u8 = 0x80;

const CART_TYPE_NONE: u8 = 0x00;
const CART_TYPE_MBC1: u8 = 0x01;

const ROM_SIZE_32_KIB: u8 = 0x00;
const ROM_SIZE_1_MIB: u8 = 0x05;

const RAM_SIZE_NONE: u8 = 0x00;
const RAM_SIZE_64_KIB: u8 = 0x05;

fn rom_with(cart_type: u8, rom_size: u8, ram_size: u8) -> Vec<u8> {
    let mut rom = vec![HALT; 0x8000];
    rom[TITLE..=CGB_FLAG].fill(0);
    rom[CART_TYPE] = cart_type;
    rom[ROM_SIZE] = rom_size;
    rom[RAM_SIZE] = ram_size;
    rom[CHECKSUM] = header_checksum(&rom);
    rom
}

#[test]
fn parses_a_32_kib_cartridge_with_no_ram() {
    let header = Header::parse(&rom_with(CART_TYPE_NONE, ROM_SIZE_32_KIB, RAM_SIZE_NONE)).unwrap();
    assert_eq!(header._title, "");
    assert_eq!(header.cart_type, CART_TYPE_NONE);
    assert_eq!(header.rom_size, 0x8000);
    assert_eq!(header.ram_size, 0);
}

#[test]
fn the_size_codes_are_not_the_sizes() {
    let header = Header::parse(&rom_with(CART_TYPE_MBC1, ROM_SIZE_1_MIB, RAM_SIZE_64_KIB)).unwrap();
    assert_eq!(header.rom_size, 1024 * 1024);
    assert_eq!(header.ram_size, 64 * 1024);
}

#[test]
fn the_title_stops_at_the_first_zero() {
    let mut rom = rom_with(CART_TYPE_NONE, ROM_SIZE_32_KIB, RAM_SIZE_NONE);
    rom[TITLE..TITLE + 6].copy_from_slice(b"TETRIS");
    rom[CHECKSUM] = header_checksum(&rom);

    assert_eq!(Header::parse(&rom).unwrap()._title, "TETRIS");
}

#[test]
fn a_cgb_flag_is_not_part_of_the_title() {
    let mut rom = rom_with(CART_TYPE_NONE, ROM_SIZE_32_KIB, RAM_SIZE_NONE);
    rom[TITLE..=CGB_FLAG].fill(b'A');
    rom[CGB_FLAG] = CGB_ENHANCED;
    rom[CHECKSUM] = header_checksum(&rom);

    assert_eq!(Header::parse(&rom).unwrap()._title, "A".repeat(15));
}

#[test]
fn load_takes_a_32_kib_mbc1_cartridge() {
    let rom = rom_with(CART_TYPE_MBC1, ROM_SIZE_32_KIB, RAM_SIZE_NONE);

    assert_eq!(load(&rom).unwrap().read_rom(CART_TYPE as u16), CART_TYPE_MBC1);
}

#[test]
fn a_wrong_checksum_is_rejected() {
    let mut rom = rom_with(CART_TYPE_NONE, ROM_SIZE_32_KIB, RAM_SIZE_NONE);
    let good = rom[CHECKSUM];
    rom[CHECKSUM] ^= 0xFF;

    assert_eq!(
        Header::parse(&rom).err(),
        Some(CartridgeError::ChecksumMismatch { stored: good ^ 0xFF, computed: good })
    );
}

#[test]
fn a_rom_shorter_than_its_header_is_rejected() {
    let rom = vec![0u8; 0x0100];
    assert_eq!(Header::parse(&rom).err(), Some(CartridgeError::TooShort(0x0100)));
    assert_eq!(load(&rom).err(), Some(CartridgeError::TooShort(0x0100)));
}

#[test]
fn unknown_size_codes_are_rejected() {
    let rom = rom_with(CART_TYPE_NONE, 0x09, RAM_SIZE_NONE);
    assert_eq!(Header::parse(&rom).err(), Some(CartridgeError::UnknownRomSize(0x09)));

    let rom = rom_with(CART_TYPE_NONE, ROM_SIZE_32_KIB, 0x06);
    assert_eq!(Header::parse(&rom).err(), Some(CartridgeError::UnknownRamSize(0x06)));
}

#[test]
fn an_unknown_mapper_is_unsupported() {
    let rom = rom_with(0x05, ROM_SIZE_32_KIB, RAM_SIZE_NONE);
    assert!(Header::parse(&rom).is_ok());
    assert_eq!(load(&rom).err(), Some(CartridgeError::UnsupportedType(0x05)));
}

#[test]
fn every_supported_mapper_loads() {
    for cart_type in [0x00u8, 0x01, 0x02, 0x03, 0x0F, 0x10, 0x11, 0x12, 0x13, 0x19, 0x1A, 0x1B, 0x1C, 0x1D, 0x1E] {
        let rom = rom_with(cart_type, ROM_SIZE_32_KIB, 0x02);
        let cartridge = load(&rom).unwrap();
        assert_eq!(cartridge.read_rom(0x0000), HALT);
    }
}

#[test]
fn the_battery_comes_from_the_cartridge_type() {
    for (cart_type, battery) in [(0x01u8, false), (0x03, true), (0x13, true), (0x11, false), (0x1B, true), (0x1E, true)] {
        let header = Header::parse(&rom_with(cart_type, ROM_SIZE_32_KIB, RAM_SIZE_NONE)).unwrap();
        assert_eq!(header.has_battery, battery, "type {cart_type:#04X}");
    }
}

#[test]
fn an_unplugged_slot_reads_as_open_bus() {
    let mut cartridge = cartridge::unplugged();
    cartridge.write_rom(0x2000, 5);
    cartridge.write_ram(0, 0x42);
    assert_eq!(cartridge.read_rom(0x0000), 0xFF);
    assert_eq!(cartridge.read_rom(0x7FFF), 0xFF);
    assert_eq!(cartridge.read_ram(0), 0xFF);
    assert!(cartridge.battery_ram().is_none());
}

#[test]
fn the_cgb_flag_decides_the_mode() {
    let mut rom = rom_with(CART_TYPE_NONE, ROM_SIZE_32_KIB, RAM_SIZE_NONE);
    assert!(!cartridge::is_cgb(&rom));
    rom[CGB_FLAG] = 0x80;
    assert!(cartridge::is_cgb(&rom));
    rom[CGB_FLAG] = 0xC0;
    assert!(cartridge::is_cgb(&rom));
}

#[test]
fn the_header_checksum_of_a_blank_header() {
    let rom = vec![0u8; 0x150];
    // 25 bytes of zero: each subtracts one.
    assert_eq!(header_checksum(&rom), 0u8.wrapping_sub(25));
}

#[test]
fn the_checksum_needs_only_the_bytes_it_sums() {
    let mut rom = vec![0u8; 0x014D];
    rom[0x0134] = 0x10;
    // 0 - (0x10 + 25) mod 256
    assert_eq!(header_checksum(&rom), 0u8.wrapping_sub(0x10 + 25));
}
