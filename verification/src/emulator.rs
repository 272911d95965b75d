use vstd::prelude::*;
use crate::apu::SampleFrame;
use crate::bus::{Bus, BusModel};
use crate::cartridge::{self, Cartridge, CartridgeError, CartridgeModel};
use crate::cpu::{Cpu, UndefinedOpcode};
use crate::cpu::exec::add16w;
use crate::joypad::Button;
use crate::ppu::PpuModel;
use crate::serial::Serial;

verus! {

/// The whole machine: the CPU and everything on its bus.
pub struct Emulator {
    pub cpu: Cpu,
    pub bus: Bus,
}

/// Steps until a frame is ready, at most `fuel` of them: the CPU and bus
/// after, and whether an undefined opcode stopped the machine.
#[verifier::opaque]
pub open spec fn run_frame_spec(cpu: Cpu, bus: BusModel, fuel: nat) -> (Cpu, BusModel, Result<(), UndefinedOpcode>)
    decreases fuel,
{
    if bus.ppu.frame_ready {
        (cpu, BusModel { ppu: PpuModel { frame_ready: false, ..bus.ppu }, ..bus }, Ok(()))
    } else if fuel == 0 {
        (cpu, bus, Ok(()))
    } else {
        let (c, b, cycles) = cpu.step_spec(bus);
        match cycles {
            Some(n) => run_frame_spec(c, b.tick_spec(n), (fuel - 1) as nat),
            None => (c, b, Err(undefined_at(bus, c))),
        }
    }
}

/// The undefined opcode a failed step stopped at: the byte just before where
/// the CPU's PC was left.
pub open spec fn undefined_at(bus: BusModel, cpu: Cpu) -> UndefinedOpcode {
    UndefinedOpcode { opcode: bus.read_spec(add16w(cpu.pc, -1)), address: add16w(cpu.pc, -1) }
}

/// One unfolding of `run_frame_spec` when no frame is ready and fuel is left.
proof fn lemma_run_frame_step(cpu: Cpu, bus: BusModel, fuel: nat)
    requires
        !bus.ppu.frame_ready,
        fuel > 0,
    ensures
        ({
            let (c, b, cycles) = cpu.step_spec(bus);
            run_frame_spec(cpu, bus, fuel) == match cycles {
                Some(n) => run_frame_spec(c, b.tick_spec(n), (fuel - 1) as nat),
                None => (c, b, Err(undefined_at(bus, c))),
            }
        }),
{
    reveal(run_frame_spec);
}

/// `run_frame_spec` when a frame is ready, or when no fuel is left.
proof fn lemma_run_frame_stop(cpu: Cpu, bus: BusModel, fuel: nat)
    requires
        bus.ppu.frame_ready || fuel == 0,
    ensures
        run_frame_spec(cpu, bus, fuel) == if bus.ppu.frame_ready {
            (cpu, BusModel { ppu: PpuModel { frame_ready: false, ..bus.ppu }, ..bus }, Ok::<(), UndefinedOpcode>(()))
        } else {
            (cpu, bus, Ok::<(), UndefinedOpcode>(()))
        },
{
    reveal(run_frame_spec);
}

/// A frame that `run_frame` finishes is taken: when it returns `Ok`, the
/// frame-ready flag is clear, whether it saw a frame or ran out of steps.
pub proof fn law_run_frame_takes_the_frame(cpu: Cpu, bus: BusModel, fuel: nat)
    ensures
        run_frame_spec(cpu, bus, fuel).2 is Ok ==> !run_frame_spec(cpu, bus, fuel).1.ppu.frame_ready,
    decreases fuel,
{
    reveal(run_frame_spec);
    if !bus.ppu.frame_ready && fuel > 0 {
        let (c, b, cycles) = cpu.step_spec(bus);
        if let Some(n) = cycles {
            law_run_frame_takes_the_frame(c, b.tick_spec(n), (fuel - 1) as nat);
        }
    }
}

impl Emulator {
    pub open spec fn wf(&self) -> bool {
        self.bus.wf()
    }

    fn from_cartridge(cartridge: Cartridge, boot_rom: &[u8], cgb: bool) -> (e: Self)
        requires
            cartridge.wf(),
        ensures
            e.wf(),
            e.bus@ == BusModel::initial(cartridge@, boot_rom@, cgb),
            e.cpu == if boot_rom@.len() == 0 {
                Cpu::after_boot_spec(cgb)
            } else {
                Cpu::power_on_spec()
            },
    {
        let cpu = if boot_rom.len() == 0 { Cpu::after_boot(cgb) } else { Cpu::new() };
        Emulator { cpu, bus: Bus::new(cartridge, boot_rom, cgb) }
    }

    /// A machine with `rom` in the slot, starting where a boot ROM hands over
    /// (in CGB mode when the ROM asks for it). Refuses a ROM `cartridge::load` refuses.
    pub fn new(rom: &[u8]) -> (r: Result<Self, CartridgeError>)
        ensures
            cartridge::parse_error(rom@) matches Some(e) ==> r == Err::<Self, CartridgeError>(e),
            cartridge::parse_error(rom@) is None && !cartridge::supported_type(rom@[cartridge::CART_TYPE as int])
                ==> r == Err::<Self, CartridgeError>(CartridgeError::UnsupportedType(rom@[cartridge::CART_TYPE as int])),
            r is Ok <==> (cartridge::parse_error(rom@) is None && cartridge::supported_type(rom@[cartridge::CART_TYPE as int])),
            r matches Ok(emu) ==> emu.wf() && emu.bus@.cgb == cartridge::is_cgb_spec(rom@)
                && emu.cpu == Cpu::after_boot_spec(cartridge::is_cgb_spec(rom@))
                && emu.bus@ == BusModel::initial(cartridge::loaded_spec(rom@), Seq::empty(), cartridge::is_cgb_spec(rom@)),
    {
        let no_boot_rom: &[u8] = &[];
        assert(no_boot_rom@ =~= Seq::<u8>::empty());
        Self::with_boot_rom(rom, no_boot_rom)
    }

    /// A machine with `rom` in the slot and `boot_rom` mapped at 0x0000 until
    /// it switches itself off; an empty boot ROM starts where one hands over.
    pub fn with_boot_rom(rom: &[u8], boot_rom: &[u8]) -> (r: Result<Self, CartridgeError>)
        ensures
            cartridge::parse_error(rom@) matches Some(e) ==> r == Err::<Self, CartridgeError>(e),
            cartridge::parse_error(rom@) is None && !cartridge::supported_type(rom@[cartridge::CART_TYPE as int])
                ==> r == Err::<Self, CartridgeError>(CartridgeError::UnsupportedType(rom@[cartridge::CART_TYPE as int])),
            r is Ok <==> (cartridge::parse_error(rom@) is None && cartridge::supported_type(rom@[cartridge::CART_TYPE as int])),
            r matches Ok(emu) ==> emu.wf()
                && emu.bus@ == BusModel::initial(cartridge::loaded_spec(rom@), boot_rom@, cartridge::is_cgb_spec(rom@))
                && emu.cpu == if boot_rom@.len() == 0 {
                    Cpu::after_boot_spec(cartridge::is_cgb_spec(rom@))
                } else {
                    Cpu::power_on_spec()
                },
    {
        let cgb = cartridge::is_cgb(rom);
        match cartridge::load(rom) {
            Ok(c) => {
                Ok(Self::from_cartridge(c, boot_rom, cgb))
            },
            Err(e) => Err(e),
        }
    }

    /// A machine with no cartridge.
    pub fn unplugged() -> (e: Self)
        ensures
            e.wf(),
            e.bus@ == BusModel::initial(CartridgeModel::Unplugged, Seq::empty(), false),
            e.cpu == Cpu::after_boot_spec(false),
    {
        let no_boot_rom: &[u8] = &[];
        assert(no_boot_rom@ =~= Seq::<u8>::empty());
        Self::from_cartridge(cartridge::unplugged(), no_boot_rom, false)
    }

    pub fn is_cgb(&self) -> (r: bool)
        ensures
            r == self.bus@.cgb,
    {
        self.bus.is_cgb()
    }

    pub fn set_button(&mut self, button: Button, pressed: bool)
        requires
            old(self).wf(),
        ensures
            final(self).wf(),
            final(self).cpu == old(self).cpu,
            final(self).bus@ == (BusModel {
                joypad: old(self).bus@.joypad.set_spec(button, pressed).0,
                intf: old(self).bus@.intf | old(self).bus@.joypad.set_spec(button, pressed).1,
                ..old(self).bus@
            }),
    {
        self.bus.set_button(button, pressed);
    }

    /// The audio samples made since the last call, oldest first.
    pub fn take_samples(&mut self) -> (r: Vec<SampleFrame>)
        requires
            old(self).wf(),
        ensures
            final(self).wf(),
            r@ == old(self).bus@.apu.samples,
            final(self).cpu == old(self).cpu,
            final(self).bus@.apu.samples.len() == 0,
            final(self).bus@ == (BusModel { apu: crate::apu::ApuModel { samples: Seq::empty(), ..old(self).bus@.apu }, ..old(self).bus@ }),
    {
        self.bus.take_samples()
    }

    pub fn battery_ram(&self) -> (r: Option<&[u8]>)
        ensures
            r is Some == self.bus@.cartridge.battery_ram_spec() is Some,
            r is Some ==> r.unwrap()@ == self.bus@.cartridge.battery_ram_spec().unwrap(),
    {
        self.bus.battery_ram()
    }

    pub fn load_battery_ram(&mut self, saved: &[u8])
        requires
            old(self).wf(),
        ensures
            final(self).wf(),
            final(self).cpu == old(self).cpu,
            final(self).bus@ == (BusModel { cartridge: old(self).bus@.cartridge.load_battery_ram_spec(saved@), ..old(self).bus@ }),
    {
        self.bus.load_battery_ram(saved);
    }

    /// The byte at `address`, without side effects.
    pub fn read(&self, address: u16) -> (r: u8)
        requires
            self.wf(),
        ensures
            r == self.bus@.read_spec(address),
    {
        self.bus.peek(address)
    }

    /// Runs one CPU step and the rest of the machine for as long as it took;
    /// returns the T-cycles, or the undefined opcode that stopped the CPU.
    pub fn step(&mut self) -> (r: Result<u8, UndefinedOpcode>)
        requires
            old(self).wf(),
        ensures
            final(self).wf(),
            ({
                let (c, b, cycles) = old(self).cpu.step_spec(old(self).bus@);
                &&& final(self).cpu == c
                &&& match r {
                    Ok(n) => cycles == Some(n) && final(self).bus@ == b.tick_spec(n),
                    Err(e) => cycles is None && final(self).bus@ == b && e == undefined_at(old(self).bus@, c),
                }
            }),
    {
        let cycles = match self.cpu.step(&mut self.bus) {
            Ok(n) => n,
            Err(e) => return Err(e),
        };
        self.bus.tick(cycles);
        Ok(cycles)
    }

    /// Steps until the PPU finishes a frame. Stops early at an undefined opcode,
    /// and gives up after 2^64 - 1 steps, which no running frame needs.
    pub fn run_frame(&mut self) -> (r: Result<(), UndefinedOpcode>)
        requires
            old(self).wf(),
        ensures
            final(self).wf(),
            ({
                let (c, b, result) = run_frame_spec(old(self).cpu, old(self).bus@, u64::MAX as nat);
                &&& final(self).cpu == c
                &&& final(self).bus@ == b
                &&& r == result
            }),
    {
        let ghost target = run_frame_spec(self.cpu, self.bus@, u64::MAX as nat);
        let mut fuel: u64 = u64::MAX;
        while !self.bus.ppu.frame_ready && fuel > 0
            invariant
                self.wf(),
                run_frame_spec(self.cpu, self.bus@, fuel as nat) == target,
                target == run_frame_spec(old(self).cpu, old(self).bus@, u64::MAX as nat),
            decreases fuel,
        {
            let ghost (cpu0, bus0) = (self.cpu, self.bus@);
            proof {
                lemma_run_frame_step(cpu0, bus0, fuel as nat);
            }
            match self.step() {
                Ok(_) => {},
                Err(e) => {
                    return Err(e);
                },
            }
            fuel = fuel - 1;
        }
        proof {
            lemma_run_frame_stop(self.cpu, self.bus@, fuel as nat);
        }
        self.clear_frame_ready();
        Ok(())
    }

    fn clear_frame_ready(&mut self)
        requires
            old(self).wf(),
        ensures
            final(self).wf(),
            final(self).cpu == old(self).cpu,
            final(self).bus@ == if old(self).bus@.ppu.frame_ready {
                BusModel { ppu: PpuModel { frame_ready: false, ..old(self).bus@.ppu }, ..old(self).bus@ }
            } else {
                old(self).bus@
            },
    {
        let ghost before = self.bus@;
        self.bus.take_frame_ready();
        proof {
            if !before.ppu.frame_ready {
                assert(self.bus@.ppu == before.ppu);
                assert(self.bus@ == before);
            }
        }
    }

    /// The byte the last serial transfer sent, if not yet taken.
    pub fn take_serial_byte(&mut self) -> (r: Option<u8>)
        requires
            old(self).wf(),
        ensures
            final(self).wf(),
            r == old(self).bus@.serial.output,
            final(self).cpu == old(self).cpu,
            final(self).bus@ == (BusModel { serial: Serial { output: None, ..old(self).bus@.serial }, ..old(self).bus@ }),
    {
        self.bus.serial.take_byte()
    }

    /// The screen, row by row: DMG shades 0..=3, or CGB RGB555 colors.
    pub fn framebuffer(&self) -> (r: &[u16])
        ensures
            r@ == self.bus@.ppu.framebuffer,
    {
        self.bus.ppu.framebuffer()
    }
}

} // verus!
