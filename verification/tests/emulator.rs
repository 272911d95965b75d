use ferroboy::cartridge::CartridgeError;
use ferroboy::joypad::Button;
use ferroboy::{Emulator, SCREEN_HEIGHT, SCREEN_WIDTH};

fn rom_running(program: &[u8]) -> Vec<u8> {
    let mut rom = vec![0x76u8; 0x8000];
    rom[0x0100..0x0100 + program.len()].copy_from_slice(program);

    rom[0x0147] = 0x00;
    rom[0x0148] = 0x00;
    rom[0x0149] = 0x00;

    let mut checksum = 0u8;
    for byte in &rom[0x0134..=0x014C] {
        checksum = checksum.wrapping_sub(*byte).wrapping_sub(1);
    }
    rom[0x014D] = checksum;
    rom
}

#[test]
fn writing_ff46_copies_160_bytes_into_oam() {
    let program = [
        0x21, 0x00, 0xC1, 0x3E, 0x5A, 0x06, 0xA0, 0x22, 0x05, 0x20, 0xFC, 0x3E, 0xC1, 0xE0, 0x46,
        0x76,
    ];
    let mut emulator = Emulator::new(&rom_running(&program)).unwrap();

    for _ in 0..150 {
        emulator.run_frame().unwrap();
    }

    assert_eq!(emulator.read(0xFE00), 0x5A, "first OAM byte");
    assert_eq!(emulator.read(0xFE9F), 0x5A, "last OAM byte");
}

#[test]
fn a_frame_is_70224_t_cycles() {
    let mut emu = Emulator::unplugged();
    let mut cycles = 0u32;
    for _ in 0..100_000 {
        cycles += emu.step().unwrap() as u32;
        if cycles >= 70_224 {
            break;
        }
    }

    assert_eq!(cycles, 70_224);
    assert_eq!(emu.framebuffer().len(), SCREEN_WIDTH * SCREEN_HEIGHT);
}

#[test]
fn run_frame_stops_when_a_frame_is_ready() {
    let mut emu = Emulator::new(&rom_running(&[])).unwrap();
    emu.run_frame().unwrap();
    // The LCD is on from the start, so the first frame completes on entering VBlank.
    assert_eq!(emu.read(0xFF44), 144);
    emu.run_frame().unwrap();
    assert_eq!(emu.read(0xFF44), 144);
}

#[test]
fn a_rom_that_is_not_a_game_boy_rom_is_refused() {
    let mut rom = rom_running(&[]);
    rom[0x014D] ^= 1;
    assert!(matches!(Emulator::new(&rom), Err(CartridgeError::ChecksumMismatch { .. })));
}

#[test]
fn the_serial_port_hands_over_what_the_game_sends() {
    // LD A,'O'; LDH (01),A; LD A,0x81; LDH (02),A; HALT
    let program = [0x3E, b'O', 0xE0, 0x01, 0x3E, 0x81, 0xE0, 0x02, 0x76];
    let mut emu = Emulator::new(&rom_running(&program)).unwrap();
    let mut seen = None;
    for _ in 0..10 {
        emu.step().unwrap();
        if let Some(byte) = emu.take_serial_byte() {
            seen = Some(byte);
        }
    }
    assert_eq!(seen, Some(b'O'));
    assert_eq!(emu.take_serial_byte(), None);
}

#[test]
fn an_undefined_opcode_is_reported_where_it_stands() {
    let mut emu = Emulator::new(&rom_running(&[0x00, 0xFC])).unwrap();
    assert_eq!(emu.step(), Ok(4));
    let err = emu.step().unwrap_err();
    assert_eq!((err.opcode, err.address), (0xFC, 0x0101));
    let mut stuck = Emulator::new(&rom_running(&[0xFC])).unwrap();
    let err = stuck.run_frame().unwrap_err();
    assert_eq!((err.opcode, err.address), (0xFC, 0x0100));
}

#[test]
fn buttons_reach_the_joypad_register() {
    let mut bus_program = Emulator::new(&rom_running(&[0x3E, 0x20, 0xE0, 0x00, 0x76])).unwrap();
    for _ in 0..3 {
        bus_program.step().unwrap();
    }
    bus_program.set_button(Button::Down, true);
    assert_eq!(bus_program.read(0xFF00) & 0x0F, 0b0111);
    assert_ne!(bus_program.read(0xFF0F) & 0x10, 0, "the joypad interrupt was requested");
    bus_program.set_button(Button::Down, false);
    assert_eq!(bus_program.read(0xFF00) & 0x0F, 0b1111);
}

#[test]
fn a_boot_rom_runs_from_address_zero() {
    let rom = rom_running(&[]);
    // NOP; LD A,1; LDH (50),A
    let boot = [0x00, 0x3E, 0x01, 0xE0, 0x50];
    let mut emu = Emulator::with_boot_rom(&rom, &boot).unwrap();
    assert_eq!(emu.read(0x0001), 0x3E);
    for _ in 0..3 {
        emu.step().unwrap();
    }
    assert_eq!(emu.read(0x0001), 0x76, "the cartridge is mapped again");
}

#[test]
fn battery_ram_survives_a_reload() {
    let mut rom = rom_running(&[]);
    rom[0x0147] = 0x03;
    rom[0x0149] = 0x02;
    let mut checksum = 0u8;
    for byte in &rom[0x0134..=0x014C] {
        checksum = checksum.wrapping_sub(*byte).wrapping_sub(1);
    }
    rom[0x014D] = checksum;

    let mut emu = Emulator::new(&rom).unwrap();
    assert_eq!(emu.battery_ram().map(|ram| ram.len()), Some(0x2000));
    let mut saved = vec![0u8; 0x2000];
    saved[0] = 0x99;
    emu.load_battery_ram(&saved);
    assert_eq!(emu.battery_ram().unwrap()[0], 0x99);
    assert!(Emulator::unplugged().battery_ram().is_none());
}

#[test]
fn a_cgb_rom_starts_in_cgb_mode() {
    let mut rom = rom_running(&[]);
    rom[0x0143] = 0x80;
    let mut checksum = 0u8;
    for byte in &rom[0x0134..=0x014C] {
        checksum = checksum.wrapping_sub(*byte).wrapping_sub(1);
    }
    rom[0x014D] = checksum;
    let emu = Emulator::new(&rom).unwrap();
    assert!(emu.is_cgb());
    assert!(!Emulator::new(&rom_running(&[])).unwrap().is_cgb());
    assert_eq!(emu.cpu.regs.a, 0x11, "A tells a game it runs on a CGB");
}

#[test]
fn samples_are_taken_once() {
    let mut emu = Emulator::unplugged();
    emu.run_frame().unwrap();
    let samples = emu.take_samples();
    assert!(!samples.is_empty());
    assert!(emu.take_samples().is_empty());
}

#[test]
fn a_dmg_screen_holds_only_shades() {
    // Turn on a tile of every color: LD A,0xFF; LD (0x8000),A ... then HALT.
    let program = [0x3E, 0xFF, 0xEA, 0x00, 0x80, 0xEA, 0x01, 0x80, 0x76];
    let mut emu = Emulator::new(&rom_running(&program)).unwrap();
    for _ in 0..3 {
        emu.run_frame().unwrap();
    }
    assert!(emu.framebuffer().iter().all(|&shade| shade < 4));
    assert!(emu.framebuffer().iter().any(|&shade| shade != 0), "the tile shows");
}
