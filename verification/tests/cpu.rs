use ferroboy::bus::Bus;
use ferroboy::cartridge;
use ferroboy::cpu::{Cpu, FLAG_C, FLAG_H, FLAG_N, FLAG_Z};
use ferroboy::Registers;

#[test]
fn b_is_the_high_byte_of_bc() {
    let mut regs = Registers::new_post_boot();
    regs.set_bc(0x1234);
    assert_eq!(regs.b, 0x12);
    assert_eq!(regs.c, 0x34);
    assert_eq!(regs.bc(), 0x1234);
}

#[test]
fn the_low_nibble_of_f_does_not_exist() {
    let mut regs = Registers::new_post_boot();
    regs.set_af(0xFFFF);
    assert_eq!(regs.f, 0xF0);
    assert_eq!(regs.af(), 0xFFF0);
}

#[test]
fn flags_round_trip() {
    let mut regs = Registers::new_post_boot();
    regs.set_flags(true, false, false, true);
    assert!(regs.has_flags(FLAG_Z));
    assert!(regs.has_flags(FLAG_C));
    assert!(regs.has_flags(FLAG_Z | FLAG_C));
    assert!(!regs.has_flags(FLAG_N));
    assert_eq!(regs.f, FLAG_Z | FLAG_C);
}

#[test]
fn the_other_pairs_split_the_same_way() {
    let mut regs = Registers::new_post_boot();
    regs.set_de(0xBEEF);
    regs.set_hl(0xCAFE);
    assert_eq!((regs.d, regs.e), (0xBE, 0xEF));
    assert_eq!((regs.h, regs.l), (0xCA, 0xFE));
    assert_eq!(regs.de(), 0xBEEF);
    assert_eq!(regs.hl(), 0xCAFE);
}

#[test]
fn the_dmg_boot_rom_leaves_these_registers() {
    let regs = Registers::new_post_boot();
    assert_eq!(regs.af(), 0x01B0);
    assert_eq!(regs.bc(), 0x0013);
    assert_eq!(regs.de(), 0x00D8);
    assert_eq!(regs.hl(), 0x014D);
    let cpu = Cpu::after_boot(false);
    assert_eq!(cpu.pc, 0x0100);
    assert_eq!(cpu.sp, 0xFFFE);
    assert!(regs.has_flags(FLAG_Z | FLAG_H | FLAG_C));
}

/// A bus whose work RAM at 0xC000 holds `program`, with the CPU pointed at it.
fn machine(program: &[u8]) -> (Cpu, Bus) {
    let mut bus = Bus::new(cartridge::unplugged(), &[], false);
    for (i, byte) in program.iter().enumerate() {
        bus.write(0xC000 + i as u16, *byte);
    }
    let mut cpu = Cpu::after_boot(false);
    cpu.pc = 0xC000;
    (cpu, bus)
}

#[test]
fn ld_and_add_set_the_flags() {
    // LD A,0x3A; ADD A,0xC6
    let (mut cpu, mut bus) = machine(&[0x3E, 0x3A, 0xC6, 0xC6]);
    assert_eq!(cpu.step(&mut bus), Ok(8));
    assert_eq!(cpu.regs.a, 0x3A);
    assert_eq!(cpu.step(&mut bus), Ok(8));
    assert_eq!(cpu.regs.a, 0x00);
    assert_eq!(cpu.regs.f, FLAG_Z | FLAG_H | FLAG_C);
    assert_eq!(cpu.pc, 0xC004);
}

#[test]
fn daa_corrects_a_bcd_addition() {
    // LD A,0x45; ADD A,0x38; DAA
    let (mut cpu, mut bus) = machine(&[0x3E, 0x45, 0xC6, 0x38, 0x27]);
    for _ in 0..3 {
        cpu.step(&mut bus).unwrap();
    }
    assert_eq!(cpu.regs.a, 0x83);
    assert!(!cpu.regs.has_flags(FLAG_C));
}

#[test]
fn call_and_ret_use_the_stack() {
    // CALL 0xC010 ... at 0xC010: RET
    let mut program = vec![0u8; 0x11];
    program[0] = 0xCD;
    program[1] = 0x10;
    program[2] = 0xC0;
    program[0x10] = 0xC9;
    let (mut cpu, mut bus) = machine(&program);
    assert_eq!(cpu.step(&mut bus), Ok(24));
    assert_eq!(cpu.pc, 0xC010);
    assert_eq!(cpu.sp, 0xFFFC);
    assert_eq!(bus.peek(0xFFFD), 0xC0);
    assert_eq!(bus.peek(0xFFFC), 0x03);
    assert_eq!(cpu.step(&mut bus), Ok(16));
    assert_eq!(cpu.pc, 0xC003);
    assert_eq!(cpu.sp, 0xFFFE);
}

#[test]
fn conditional_jumps_take_longer_when_taken() {
    // XOR A (Z set); JR Z,+2; NOP; NOP; JR NZ,+2
    let (mut cpu, mut bus) = machine(&[0xAF, 0x28, 0x02, 0x00, 0x00, 0x20, 0x02]);
    cpu.step(&mut bus).unwrap();
    assert_eq!(cpu.step(&mut bus), Ok(12));
    assert_eq!(cpu.pc, 0xC005);
    assert_eq!(cpu.step(&mut bus), Ok(8));
    assert_eq!(cpu.pc, 0xC007);
}

#[test]
fn cb_prefixed_bit_ops() {
    // LD B,0x80; SWAP B; BIT 3,B; SET 0,B; RES 7,B (bit 7 of 0x08 is clear already)
    let (mut cpu, mut bus) = machine(&[0x06, 0x80, 0xCB, 0x30, 0xCB, 0x58, 0xCB, 0xC0]);
    cpu.step(&mut bus).unwrap();
    assert_eq!(cpu.step(&mut bus), Ok(8));
    assert_eq!(cpu.regs.b, 0x08);
    cpu.step(&mut bus).unwrap();
    assert!(!cpu.regs.has_flags(FLAG_Z));
    cpu.step(&mut bus).unwrap();
    assert_eq!(cpu.regs.b, 0x09);
}

#[test]
fn an_undefined_opcode_stops_the_cpu() {
    let (mut cpu, mut bus) = machine(&[0x00, 0xD3]);
    assert_eq!(cpu.step(&mut bus), Ok(4));
    let err = cpu.step(&mut bus).unwrap_err();
    assert_eq!(err.opcode, 0xD3);
    assert_eq!(err.address, 0xC001);
}

#[test]
fn an_enabled_interrupt_is_serviced_after_ei_takes_effect() {
    // EI; NOP; NOP
    let (mut cpu, mut bus) = machine(&[0xFB, 0x00, 0x00]);
    bus.write(0xFFFF, 0x04);
    bus.write(0xFF0F, 0x04);
    assert_eq!(cpu.step(&mut bus), Ok(4));
    assert!(!cpu.ime, "EI takes effect one instruction late");
    assert_eq!(cpu.step(&mut bus), Ok(4));
    assert!(cpu.ime);
    assert_eq!(cpu.step(&mut bus), Ok(20));
    assert_eq!(cpu.pc, 0x0050, "the timer vector");
    assert!(!cpu.ime);
    assert_eq!(bus.peek(0xFF0F) & 0x04, 0, "the request was acknowledged");
}

#[test]
fn halt_idles_until_an_interrupt_is_pending() {
    // HALT
    let (mut cpu, mut bus) = machine(&[0x76, 0x00]);
    cpu.step(&mut bus).unwrap();
    assert!(cpu.halted);
    assert_eq!(cpu.step(&mut bus), Ok(4));
    assert_eq!(cpu.pc, 0xC001);
    bus.write(0xFFFF, 0x01);
    bus.write(0xFF0F, 0x01);
    cpu.step(&mut bus).unwrap();
    assert!(!cpu.halted, "a pending request wakes it with IME clear");
    assert_eq!(cpu.pc, 0xC002);
}

fn rom_with_program(program: &[u8], timer_handler: &[u8]) -> Vec<u8> {
    let mut rom = vec![0x00u8; 0x8000];
    rom[0x0050..0x0050 + timer_handler.len()].copy_from_slice(timer_handler);
    rom[0x0100..0x0100 + program.len()].copy_from_slice(program);
    let mut checksum = 0u8;
    for byte in &rom[0x0134..=0x014C] {
        checksum = checksum.wrapping_sub(*byte).wrapping_sub(1);
    }
    rom[0x014D] = checksum;
    rom
}

#[test]
fn reti_resumes_where_the_interrupt_struck() {
    // EI; NOP; NOP at 0x0100; RETI at the timer vector.
    let rom = rom_with_program(&[0xFB, 0x00, 0x00], &[0xD9]);
    let mut emu = ferroboy::Emulator::new(&rom).unwrap();
    emu.bus.write(0xFFFF, 0x04);
    emu.bus.write(0xFF0F, 0x04);
    assert_eq!(emu.cpu.step(&mut emu.bus), Ok(4));
    assert_eq!(emu.cpu.step(&mut emu.bus), Ok(4));
    assert_eq!(emu.cpu.step(&mut emu.bus), Ok(20));
    assert_eq!(emu.cpu.pc, 0x0050);
    assert_eq!(emu.cpu.step(&mut emu.bus), Ok(16));
    assert_eq!(emu.cpu.pc, 0x0102);
    assert_eq!(emu.cpu.sp, 0xFFFE);
    assert!(emu.cpu.ime, "RETI turns IME on at once");
}

#[test]
fn daa_corrects_a_bcd_subtraction_with_a_borrow() {
    // LD A,0x12; SUB 0x34; DAA -> 12 - 34 = -22, i.e. 78 with a borrow
    let (mut cpu, mut bus) = machine(&[0x3E, 0x12, 0xD6, 0x34, 0x27]);
    for _ in 0..3 {
        cpu.step(&mut bus).unwrap();
    }
    assert_eq!(cpu.regs.a, 0x78);
    assert!(cpu.regs.has_flags(FLAG_C | FLAG_N));
    assert!(!cpu.regs.has_flags(FLAG_H));
}

#[test]
fn push_then_pop_restores_each_pair() {
    // LD BC,0x1234; PUSH BC; LD BC,0; POP BC; PUSH AF; POP DE
    let (mut cpu, mut bus) = machine(&[0x01, 0x34, 0x12, 0xC5, 0x01, 0x00, 0x00, 0xC1, 0xF5, 0xD1]);
    cpu.step(&mut bus).unwrap();
    assert_eq!(cpu.step(&mut bus), Ok(16));
    cpu.step(&mut bus).unwrap();
    assert_eq!(cpu.step(&mut bus), Ok(12));
    assert_eq!(cpu.regs.bc(), 0x1234);
    assert_eq!(cpu.sp, 0xFFFE);
    cpu.step(&mut bus).unwrap();
    cpu.step(&mut bus).unwrap();
    assert_eq!(cpu.regs.de(), cpu.regs.af());
}

#[test]
fn res_and_set_on_hl_in_work_ram() {
    // LD HL,0xC100; SET 3,(HL); RES 3,(HL)
    let (mut cpu, mut bus) = machine(&[0x21, 0x00, 0xC1, 0xCB, 0xDE, 0xCB, 0x9E]);
    bus.write(0xC100, 0xF0);
    cpu.step(&mut bus).unwrap();
    assert_eq!(cpu.step(&mut bus), Ok(16));
    assert_eq!(bus.peek(0xC100), 0xF8);
    assert_eq!(cpu.step(&mut bus), Ok(16));
    assert_eq!(bus.peek(0xC100), 0xF0);
}

#[test]
fn ret_after_balanced_code_resumes_after_the_call() {
    // CALL 0xC010; ... at 0xC010: PUSH BC; POP DE; RET
    let mut program = vec![0u8; 0x13];
    program[0] = 0xCD;
    program[1] = 0x10;
    program[2] = 0xC0;
    program[0x10] = 0xC5;
    program[0x11] = 0xD1;
    program[0x12] = 0xC9;
    let (mut cpu, mut bus) = machine(&program);
    for _ in 0..3 {
        cpu.step(&mut bus).unwrap();
    }
    assert_eq!(cpu.step(&mut bus), Ok(16));
    assert_eq!(cpu.pc, 0xC003);
    assert_eq!(cpu.sp, 0xFFFE);
}

#[test]
fn every_defined_opcode_takes_a_multiple_of_four_cycles() {
    let undefined = [0xD3u8, 0xDB, 0xDD, 0xE3, 0xE4, 0xEB, 0xEC, 0xED, 0xF4, 0xFC, 0xFD];
    for opcode in 0..=255u8 {
        let (mut cpu, mut bus) = machine(&[0x00, 0x00, 0x00]);
        let result = cpu.execute(opcode, &mut bus);
        if undefined.contains(&opcode) {
            assert_eq!(result, None, "{opcode:#04X}");
        } else {
            let cycles = result.unwrap();
            assert!(cycles % 4 == 0 && (4..=24).contains(&cycles), "{opcode:#04X}: {cycles}");
        }
    }
}
