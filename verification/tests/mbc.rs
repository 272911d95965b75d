use ferroboy::cartridge::mbc1::Mbc1;
use ferroboy::cartridge::mbc3::Mbc3;
use ferroboy::cartridge::mbc5::Mbc5;
use ferroboy::cartridge::nombc::NoMbc;
use ferroboy::cartridge::{Header, RAM_BANK_BYTES, ROM_BANK_BYTES};

/// A ROM image of `banks` banks, every byte of bank `n` holding `n`.
fn rom_of_banks(banks: usize) -> Vec<u8> {
    let mut rom = Vec::with_capacity(banks * ROM_BANK_BYTES);
    for bank in 0..banks {
        rom.extend(std::iter::repeat(bank as u8).take(ROM_BANK_BYTES));
    }
    rom
}

fn header(cart_type: u8, rom_size: usize, ram_size: usize) -> Header {
    Header { _title: String::new(), cart_type, rom_size, ram_size, has_battery: true }
}

fn mbc1(banks: usize, ram_size: usize) -> Mbc1 {
    let rom = rom_of_banks(banks);
    Mbc1::new(&rom, &header(0x03, rom.len(), ram_size))
}

fn mbc3(banks: usize, ram_size: usize) -> Mbc3 {
    let rom = rom_of_banks(banks);
    Mbc3::new(&rom, &header(0x13, rom.len(), ram_size))
}

fn mbc5(banks: usize, ram_size: usize) -> Mbc5 {
    let rom = rom_of_banks(banks);
    Mbc5::new(&rom, &header(0x1B, rom.len(), ram_size))
}

#[test]
fn bank_1_is_mapped_at_reset() {
    let cartridge = mbc1(4, 0);

    assert_eq!(cartridge.read_rom(0x0000), 0, "bank 0 is fixed at the bottom");
    assert_eq!(cartridge.read_rom(0x4000), 1);
}

#[test]
fn writing_the_bank_register_moves_the_upper_window() {
    let mut cartridge = mbc1(8, 0);
    cartridge.write_rom(0x2000, 5);

    assert_eq!(cartridge.read_rom(0x4000), 5);
    assert_eq!(cartridge.read_rom(0x0000), 0, "the lower half does not move");
}

#[test]
fn bank_0_is_not_selectable() {
    let mut cartridge = mbc1(4, 0);
    cartridge.write_rom(0x2000, 0);

    assert_eq!(cartridge.read_rom(0x4000), 1, "0 selects 1");
}

#[test]
fn banks_20_40_and_60_are_unreachable() {
    let mut cartridge = mbc1(128, 0);

    for unreachable in [0x20u8, 0x40, 0x60] {
        cartridge.write_rom(0x2000, unreachable & 0x1F);
        cartridge.write_rom(0x4000, unreachable >> 5);

        assert_eq!(
            cartridge.read_rom(0x4000),
            unreachable + 1,
            "{unreachable:#04X} reads as the bank above it"
        );
    }
}

#[test]
fn ram_is_disabled_until_the_magic_value_is_written() {
    let mut cartridge = mbc1(4, RAM_BANK_BYTES);

    cartridge.write_ram(0, 0x42);
    assert_eq!(cartridge.read_ram(0), 0xFF, "disabled reads as open bus");

    cartridge.write_rom(0x0000, 0x0A);
    cartridge.write_ram(0, 0x42);
    assert_eq!(cartridge.read_ram(0), 0x42);

    cartridge.write_rom(0x0000, 0x00);
    assert_eq!(cartridge.read_ram(0), 0xFF, "and disabling hides it again");
}

#[test]
fn the_mode_bit_decides_what_the_upper_bits_mean() {
    let mut cartridge = mbc1(128, RAM_BANK_BYTES * 4);
    cartridge.write_rom(0x0000, 0x0A);
    cartridge.write_rom(0x4000, 2);

    cartridge.write_rom(0x2000, 1);
    assert_eq!(cartridge.read_rom(0x4000), 0x41);
    cartridge.write_ram(0, 0xAA);

    cartridge.write_rom(0x6000, 1);
    cartridge.write_ram(0, 0xBB);
    assert_eq!(cartridge.read_ram(0), 0xBB, "bank 2");

    cartridge.write_rom(0x6000, 0);
    assert_eq!(cartridge.read_ram(0), 0xAA, "back to bank 0");
}

#[test]
fn battery_ram_round_trips() {
    let mut cartridge = mbc1(4, RAM_BANK_BYTES);
    cartridge.write_rom(0x0000, 0x0A);
    cartridge.write_ram(0, 0x99);

    let saved = cartridge.battery_ram().unwrap().to_vec();

    let mut reloaded = mbc1(4, RAM_BANK_BYTES);
    reloaded.load_battery_ram(&saved);
    reloaded.write_rom(0x0000, 0x0A);

    assert_eq!(reloaded.read_ram(0), 0x99);
}

#[test]
fn seven_bits_of_bank_with_no_unreachable_ones() {
    let mut cartridge = mbc3(128, 0);

    for bank in [0x20u8, 0x40, 0x60, 0x7F] {
        cartridge.write_rom(0x2000, bank);
        assert_eq!(cartridge.read_rom(0x4000), bank);
    }
}

#[test]
fn bank_0_still_selects_1() {
    let mut cartridge = mbc3(4, 0);
    cartridge.write_rom(0x2000, 0);

    assert_eq!(cartridge.read_rom(0x4000), 1);
}

#[test]
fn ram_banks_switch() {
    let mut cartridge = mbc3(4, RAM_BANK_BYTES * 4);
    cartridge.write_rom(0x0000, 0x0A);

    cartridge.write_rom(0x4000, 0);
    cartridge.write_ram(0, 0xAA);
    cartridge.write_rom(0x4000, 3);
    cartridge.write_ram(0, 0xBB);

    cartridge.write_rom(0x4000, 0);
    assert_eq!(cartridge.read_ram(0), 0xAA);
}

#[test]
fn selecting_an_rtc_register_does_not_alias_onto_ram() {
    let mut cartridge = mbc3(4, RAM_BANK_BYTES);
    cartridge.write_rom(0x0000, 0x0A);
    cartridge.write_ram(0, 0x42);

    cartridge.write_rom(0x4000, 0x08);
    assert_eq!(cartridge.read_ram(0), 0xFF, "a stopped clock, not RAM");
    cartridge.write_ram(0, 0x99);

    cartridge.write_rom(0x4000, 0x00);
    assert_eq!(cartridge.read_ram(0), 0x42, "RAM was not written through");
}

#[test]
fn bank_0_is_selectable_unlike_mbc1() {
    let mut cartridge = mbc5(4, 0);
    cartridge.write_rom(0x2000, 0);

    assert_eq!(cartridge.read_rom(0x4000), 0, "0 means 0 here");
}

#[test]
fn the_bank_register_is_nine_bits_across_two_ranges() {
    let mut cartridge = mbc5(512, 0);

    cartridge.write_rom(0x2000, 0x11);
    assert_eq!(cartridge.read_rom(0x4000), 0x11);

    cartridge.write_rom(0x3000, 0x01);
    assert_eq!(cartridge.read_rom(0x4000), 0x11, "bank 0x111 wraps to 0x11");

    cartridge.write_rom(0x2000, 0x05);
    assert_eq!(cartridge.read_rom(0x4000), 0x05, "bank 0x105 wraps to 0x05");
}

#[test]
fn ram_banks_are_four_bits() {
    let mut cartridge = mbc5(4, RAM_BANK_BYTES * 4);
    cartridge.write_rom(0x0000, 0x0A);

    for bank in 0..4u8 {
        cartridge.write_rom(0x4000, bank);
        cartridge.write_ram(0, 0xB0 | bank);
    }
    for bank in 0..4u8 {
        cartridge.write_rom(0x4000, bank);
        assert_eq!(cartridge.read_ram(0), 0xB0 | bank);
    }
}

#[test]
fn a_bank_past_the_end_reads_as_open_bus() {
    let mut cartridge = mbc5(4, 0);
    cartridge.write_rom(0x2000, 9);
    assert_eq!(cartridge.read_rom(0x4000), 0xFF);
}

#[test]
fn without_a_mapper_writes_to_rom_change_nothing() {
    let rom = rom_of_banks(2);
    let mut cartridge = NoMbc::new(&rom, &header(0x00, rom.len(), RAM_BANK_BYTES));
    cartridge.write_rom(0x2000, 5);
    assert_eq!(cartridge.read_rom(0x4000), 1);
    assert_eq!(cartridge.read_rom(0x0000), 0);
    cartridge.write_ram(0x10, 0x77);
    assert_eq!(cartridge.read_ram(0x10), 0x77);
}
