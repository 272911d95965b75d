use ferroboy::common::{looks_like_a_rom, rgba_from_555, to_rgba, PALETTE};
use ferroboy::Emulator;

fn valid_header() -> Vec<u8> {
    let mut rom = vec![0u8; 0x0150];
    let mut checksum = 0u8;
    for byte in &rom[0x0134..0x014D] {
        checksum = checksum.wrapping_sub(*byte).wrapping_sub(1);
    }
    rom[0x014D] = checksum;
    rom
}

#[test]
fn white_and_black_widen_to_the_ends() {
    assert_eq!(rgba_from_555(0x7FFF), [0xFF, 0xFF, 0xFF, 0xFF]);
    assert_eq!(rgba_from_555(0x0000), [0x00, 0x00, 0x00, 0xFF]);
}

#[test]
fn the_channels_are_red_green_blue_from_the_bottom() {
    assert_eq!(rgba_from_555(0x001F), [0xFF, 0x00, 0x00, 0xFF]);
    assert_eq!(rgba_from_555(0x03E0), [0x00, 0xFF, 0x00, 0xFF]);
    assert_eq!(rgba_from_555(0x7C00), [0x00, 0x00, 0xFF, 0xFF]);
    // 0b10000 -> 0b10000_100
    assert_eq!(rgba_from_555(0x0010), [0x84, 0x00, 0x00, 0xFF]);
}

#[test]
fn a_short_file_is_not_a_rom() {
    assert!(!looks_like_a_rom(&[0u8; 0x014F]));
}

#[test]
fn the_header_checksum_decides() {
    let mut rom = valid_header();
    assert!(looks_like_a_rom(&rom));
    rom[0x014D] ^= 0x01;
    assert!(!looks_like_a_rom(&rom));
}

#[test]
fn a_fresh_dmg_screen_is_the_lightest_shade() {
    let emulator = Emulator::unplugged();
    let mut surface = vec![[0u8; 4]; 160 * 144];
    to_rgba(&emulator, &mut surface);
    assert!(surface.iter().all(|pixel| *pixel == PALETTE[0]));
}

#[test]
fn a_short_surface_is_filled_as_far_as_it_goes() {
    let emulator = Emulator::unplugged();
    let mut surface = vec![[1u8; 4]; 10];
    to_rgba(&emulator, &mut surface);
    assert_eq!(surface, vec![PALETTE[0]; 10]);
}
