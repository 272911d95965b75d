pub mod alu;
pub mod exec;
pub mod exec_cb;

use vstd::prelude::*;
use vstd::arithmetic::power2::{pow2, lemma2_to64};
use crate::bus::{Bus, BusModel};

verus! {

pub const FLAG_Z: u8 = 0x80;
pub const FLAG_N: u8 = 0x40;
pub const FLAG_H: u8 = 0x20;
pub const FLAG_C: u8 = 0x10;

/// 1 for a set flag, 0 for a clear one.
pub open spec fn bit(b: bool) -> int {
    if b {
        1
    } else {
        0
    }
}

/// The value of F that the four flags make; the low nibble is always clear.
pub open spec fn flags_byte(z: bool, n: bool, h: bool, c: bool) -> u8 {
    (128 * bit(z) + 64 * bit(n) + 32 * bit(h) + 16 * bit(c)) as u8
}

/// The 16-bit value whose high byte is `high` and low byte is `low`.
pub open spec fn word(high: u8, low: u8) -> u16 {
    (high as int * 256 + low as int) as u16
}

/// The high byte of a 16-bit value.
pub open spec fn high(value: u16) -> u8 {
    (value as int / 256) as u8
}

/// The low byte of a 16-bit value.
pub open spec fn low(value: u16) -> u8 {
    (value as int % 256) as u8
}

/// The 16-bit value with `high` above `low`.
pub fn join(high: u8, low: u8) -> (r: u16)
    ensures
        r == word(high, low),
{
    proof {
        lemma_join(high, low);
    }
    (high as u16) << 8 | low as u16
}

/// The high byte of `value`.
pub fn high_byte(value: u16) -> (r: u8)
    ensures
        r == high(value),
{
    proof {
        assert(value >> 8 == value / 256) by (bit_vector);
    }
    (value >> 8) as u8
}

/// The low byte of `value`.
pub fn low_byte(value: u16) -> (r: u8)
    ensures
        r == low(value),
{
    proof {
        lemma_low(value);
    }
    (value & 0xFF) as u8
}

proof fn lemma_join(high: u8, low: u8)
    by (bit_vector)
    ensures
        ((high as u16) << 8 | low as u16) == high as u16 * 256 + low as u16,
{
}

proof fn lemma_low(value: u16)
    by (bit_vector)
    ensures
        value & 0xFF == value % 256,
{
}

/// Splitting a word into its bytes and joining them again gives the word back.
pub proof fn lemma_word_split(value: u16)
    ensures
        word(high(value), low(value)) == value,
        high(word(high(value), low(value))) == high(value),
{
}

/// Joining two bytes and splitting the word gives the bytes back.
pub proof fn law_bytes_join_then_split(h: u8, l: u8)
    ensures
        high(word(h, l)) == h,
        low(word(h, l)) == l,
{
}

/// Reading a flag back out of the F that `flags_byte` makes gives the flag.
pub proof fn lemma_flags_byte(z: bool, n: bool, h: bool, c: bool)
    ensures
        (flags_byte(z, n, h, c) & FLAG_Z == FLAG_Z) == z,
        (flags_byte(z, n, h, c) & FLAG_N == FLAG_N) == n,
        (flags_byte(z, n, h, c) & FLAG_H == FLAG_H) == h,
        (flags_byte(z, n, h, c) & FLAG_C == FLAG_C) == c,
        flags_byte(z, n, h, c) & 0x0F == 0,
{
    let f = flags_byte(z, n, h, c);
    let zi: u8 = if z { 1 } else { 0 };
    let ni: u8 = if n { 1 } else { 0 };
    let hi: u8 = if h { 1 } else { 0 };
    let ci: u8 = if c { 1 } else { 0 };
    assert(f == 128 * zi + 64 * ni + 32 * hi + 16 * ci);
    assert(zi <= 1 && ni <= 1 && hi <= 1 && ci <= 1 && f == 128 * zi + 64 * ni + 32 * hi + 16
        * ci ==> {
        &&& (f & 0x80 == 0x80) == (zi == 1)
        &&& (f & 0x40 == 0x40) == (ni == 1)
        &&& (f & 0x20 == 0x20) == (hi == 1)
        &&& (f & 0x10 == 0x10) == (ci == 1)
        &&& f & 0x0F == 0
    }) by (bit_vector);
}

/// The eight 8-bit registers; F holds the flags in its high nibble.
pub struct Registers {
    pub a: u8,
    pub f: u8,
    pub b: u8,
    pub c: u8,
    pub d: u8,
    pub e: u8,
    pub h: u8,
    pub l: u8,
}

impl Registers {
    pub open spec fn af_spec(self) -> u16 {
        word(self.a, self.f)
    }

    pub open spec fn bc_spec(self) -> u16 {
        word(self.b, self.c)
    }

    pub open spec fn de_spec(self) -> u16 {
        word(self.d, self.e)
    }

    pub open spec fn hl_spec(self) -> u16 {
        word(self.h, self.l)
    }

    /// Whether every flag in `mask` is set in F.
    pub open spec fn flags_set(self, mask: u8) -> bool {
        self.f & mask == mask
    }

    pub fn new() -> (regs: Self)
        ensures
            regs.a == 0 && regs.f == 0 && regs.b == 0 && regs.c == 0,
            regs.d == 0 && regs.e == 0 && regs.h == 0 && regs.l == 0,
    {
        Registers { a: 0, f: 0, b: 0, c: 0, d: 0, e: 0, h: 0, l: 0 }
    }

    /// The values the DMG boot ROM leaves in the registers when it hands over.
    pub fn new_post_boot() -> (regs: Self)
        ensures
            regs.a == 0x01 && regs.f == 0xB0 && regs.b == 0x00 && regs.c == 0x13,
            regs.d == 0x00 && regs.e == 0xD8 && regs.h == 0x01 && regs.l == 0x4D,
    {
        Registers { a: 0x01, f: 0xB0, b: 0x00, c: 0x13, d: 0x00, e: 0xD8, h: 0x01, l: 0x4D }
    }

    pub fn af(&self) -> (r: u16)
        ensures
            r == self.af_spec(),
    {
        join(self.a, self.f)
    }

    pub fn bc(&self) -> (r: u16)
        ensures
            r == self.bc_spec(),
    {
        join(self.b, self.c)
    }

    pub fn de(&self) -> (r: u16)
        ensures
            r == self.de_spec(),
    {
        join(self.d, self.e)
    }

    pub fn hl(&self) -> (r: u16)
        ensures
            r == self.hl_spec(),
    {
        join(self.h, self.l)
    }

    /// Sets A and F; the low nibble of F does not exist on hardware and stays clear.
    pub fn set_af(&mut self, value: u16)
        ensures
            *final(self) == (Registers { a: high(value), f: (low(value) & 0xF0) as u8, ..*old(self) }),
    {
        self.a = high_byte(value);
        self.f = low_byte(value) & 0xF0;
    }

    pub fn set_bc(&mut self, value: u16)
        ensures
            *final(self) == (Registers { b: high(value), c: low(value), ..*old(self) }),
    {
        self.b = high_byte(value);
        self.c = low_byte(value);
    }

    pub fn set_de(&mut self, value: u16)
        ensures
            *final(self) == (Registers { d: high(value), e: low(value), ..*old(self) }),
    {
        self.d = high_byte(value);
        self.e = low_byte(value);
    }

    pub fn set_hl(&mut self, value: u16)
        ensures
            *final(self) == (Registers { h: high(value), l: low(value), ..*old(self) }),
    {
        self.h = high_byte(value);
        self.l = low_byte(value);
    }

    pub fn has_flags(&self, mask: u8) -> (r: bool)
        ensures
            r == self.flags_set(mask),
    {
        (self.f & mask) == mask
    }

    pub fn set_flags(&mut self, z: bool, n: bool, h: bool, c: bool)
        ensures
            *final(self) == (Registers { f: flags_byte(z, n, h, c), ..*old(self) }),
    {
        let mut f: u8 = 0;
        if z {
            f = f + 0x80;
        }
        if n {
            f = f + 0x40;
        }
        if h {
            f = f + 0x20;
        }
        if c {
            f = f + 0x10;
        }
        self.f = f;
    }
}

/// Writing BC (or DE, HL) and reading it back gives the written value, and
/// the high byte lands in B (D, H).
pub proof fn law_register_pair_round_trip(regs: Registers, value: u16)
    ensures
        (Registers { b: high(value), c: low(value), ..regs }).bc_spec() == value,
        (Registers { d: high(value), e: low(value), ..regs }).de_spec() == value,
        (Registers { h: high(value), l: low(value), ..regs }).hl_spec() == value,
{
    lemma_word_split(value);
}

/// AF reads back with the low nibble of F cleared, whatever was written.
pub proof fn law_af_drops_low_nibble(regs: Registers, value: u16)
    ensures
        (Registers { a: high(value), f: (low(value) & 0xF0) as u8, ..regs }).af_spec() == (value
            & 0xFFF0) as u16,
{
    let lo = low(value);
    let hi = high(value);
    assert(lo == value % 256);
    assert(hi == value / 256);
    assert(((value % 256) as u8 & 0xF0) as int + (value / 256) as int * 256 == (value & 0xFFF0)
        as int) by (bit_vector);
}

/// Flags written with `set_flags` read back one by one with `has_flags`.
pub proof fn law_flags_round_trip(regs: Registers, z: bool, n: bool, h: bool, c: bool)
    ensures
        (Registers { f: flags_byte(z, n, h, c), ..regs }).flags_set(FLAG_Z) == z,
        (Registers { f: flags_byte(z, n, h, c), ..regs }).flags_set(FLAG_N) == n,
        (Registers { f: flags_byte(z, n, h, c), ..regs }).flags_set(FLAG_H) == h,
        (Registers { f: flags_byte(z, n, h, c), ..regs }).flags_set(FLAG_C) == c,
{
    lemma_flags_byte(z, n, h, c);
}

/// The SM83 processor: registers, stack pointer, program counter and the
/// interrupt-enable state.
pub struct Cpu {
    pub regs: Registers,
    pub sp: u16,
    pub pc: u16,
    pub ime: bool,
    pub ime_pending: bool,
    pub halted: bool,
}

impl Cpu {
    /// This CPU with A and F replaced.
    pub open spec fn with_af(self, a: u8, f: u8) -> Cpu {
        Cpu { regs: Registers { a, f, ..self.regs }, ..self }
    }

    /// This CPU with F replaced.
    pub open spec fn with_f(self, f: u8) -> Cpu {
        Cpu { regs: Registers { f, ..self.regs }, ..self }
    }

    pub open spec fn carry_bit(self) -> u8 {
        if self.regs.flags_set(FLAG_C) {
            1
        } else {
            0
        }
    }

    /// The CPU at power-on, before a boot ROM runs: everything zero.
    pub open spec fn power_on_spec() -> Cpu {
        Cpu {
            regs: Registers { a: 0, f: 0, b: 0, c: 0, d: 0, e: 0, h: 0, l: 0 },
            sp: 0,
            pc: 0,
            ime: false,
            ime_pending: false,
            halted: false,
        }
    }

    pub fn new() -> (cpu: Self)
        ensures
            cpu == Cpu::power_on_spec(),
    {
        Cpu { regs: Registers::new(), sp: 0, pc: 0, ime: false, ime_pending: false, halted: false }
    }
}


/// The CPU fetched an opcode that does not exist. Real hardware locks up; the
/// emulator stops and reports it.
#[derive(Clone, Copy, PartialEq, Eq, Debug)]
pub struct UndefinedOpcode {
    pub opcode: u8,
    pub address: u16,
}

/// The lowest set bit of a nonzero interrupt mask: the highest-priority request.
pub open spec fn lowest_bit(p: u8) -> u8 {
    if p & 0x01 != 0 {
        0
    } else if p & 0x02 != 0 {
        1
    } else if p & 0x04 != 0 {
        2
    } else if p & 0x08 != 0 {
        3
    } else {
        4
    }
}

impl Cpu {
    /// The CPU as a boot ROM leaves it when it hands over to the cartridge at
    /// 0x0100: the DMG's registers, or the CGB's (A = 0x11 tells a game it runs
    /// on a CGB).
    pub open spec fn after_boot_spec(cgb: bool) -> Cpu {
        Cpu {
            regs: if cgb {
                Registers { a: 0x11, f: 0x80, b: 0x00, c: 0x00, d: 0xFF, e: 0x56, h: 0x00, l: 0x0D }
            } else {
                Registers { a: 0x01, f: 0xB0, b: 0x00, c: 0x13, d: 0x00, e: 0xD8, h: 0x01, l: 0x4D }
            },
            sp: 0xFFFE,
            pc: 0x0100,
            ime: false,
            ime_pending: false,
            halted: false,
        }
    }

    pub fn after_boot(cgb: bool) -> (cpu: Cpu)
        ensures
            cpu == Cpu::after_boot_spec(cgb),
    {
        let regs = if cgb {
            Registers { a: 0x11, f: 0x80, b: 0x00, c: 0x00, d: 0xFF, e: 0x56, h: 0x00, l: 0x0D }
        } else {
            Registers::new_post_boot()
        };
        Cpu { regs, sp: 0xFFFE, pc: 0x0100, ime: false, ime_pending: false, halted: false }
    }

    /// Services the highest-priority pending interrupt: any pending request
    /// wakes a HALT, and with IME set the CPU acknowledges the request, clears
    /// IME, pushes PC and jumps to 0x40 + 8 * bit, taking 20 T-cycles.
    pub open spec fn handle_interrupt_spec(self, bus: BusModel) -> (Cpu, BusModel, Option<u8>) {
        let pending = bus.intf & bus.inte & 0x1F;
        if pending == 0 {
            (self, bus, None)
        } else if !self.ime {
            (Cpu { halted: false, ..self }, bus, None)
        } else {
            let bit = lowest_bit(pending);
            let b1 = BusModel { intf: bus.intf & !((1u8 << bit) as u8), ..bus };
            let c1 = Cpu { halted: false, ime: false, ..self };
            let (c2, b2) = c1.push16_spec(b1, self.pc);
            (Cpu { pc: (0x40 + bit * 8) as u16, ..c2 }, b2, Some(20))
        }
    }

    /// One step: an interrupt, an idle HALT cycle, or one instruction. EI takes
    /// effect one instruction late. The result is the T-cycles taken, or `None`
    /// for an undefined opcode.
    #[verifier::opaque]
    pub open spec fn step_spec(self, bus: BusModel) -> (Cpu, BusModel, Option<u8>) {
        let (c1, b1, serviced) = self.handle_interrupt_spec(bus);
        if serviced is Some {
            (c1, b1, serviced)
        } else if c1.halted {
            (c1, b1, Some(4))
        } else {
            let (op, c2) = c1.fetch8_spec(b1);
            let (c3, b3, cycles) = c2.execute_spec(b1, op);
            if cycles is Some && c1.ime_pending {
                (Cpu { ime: true, ime_pending: false, ..c3 }, b3, cycles)
            } else {
                (c3, b3, cycles)
            }
        }
    }

    fn lowest_pending(pending: u8) -> (r: u8)
        requires
            pending != 0,
            pending & 0xE0 == 0,
        ensures
            r == lowest_bit(pending),
            r <= 4,
    {
        if pending & 0x01 != 0 {
            0
        } else if pending & 0x02 != 0 {
            1
        } else if pending & 0x04 != 0 {
            2
        } else if pending & 0x08 != 0 {
            3
        } else {
            4
        }
    }

    fn handle_interrupt(&mut self, bus: &mut Bus) -> (r: Option<u8>)
        requires
            old(bus).wf(),
        ensures
            (*final(self), final(bus)@, r) == old(self).handle_interrupt_spec(old(bus)@),
            final(bus).wf(),
    {
        let pending = bus.intf & bus.inte & 0x1F;
        if pending == 0 {
            return None;
        }
        // HALT wakes on a pending interrupt whether or not IME is set.
        self.halted = false;
        if !self.ime {
            return None;
        }
        proof {
            let i = bus.intf;
            let e = bus.inte;
            assert((pending & 0x1F == pending ==> pending & 0xE0 == 0) && (i & e & 0x1F) & 0x1F == i & e & 0x1F) by (bit_vector);
        }
        let bit = Self::lowest_pending(pending);
        bus.intf = bus.intf & !(1u8 << bit);
        self.ime = false;
        let pc = self.pc;
        self.push16(bus, pc);
        self.pc = 0x40 + bit as u16 * 8;
        Some(20)
    }

    /// Runs one step and returns the T-cycles it took.
    pub fn step(&mut self, bus: &mut Bus) -> (r: Result<u8, UndefinedOpcode>)
        requires
            old(bus).wf(),
        ensures
            final(bus).wf(),
            r matches Ok(n) ==> n <= 24,
            ({
                let (c, b, cycles) = old(self).step_spec(old(bus)@);
                &&& *final(self) == c
                &&& final(bus)@ == b
                &&& match r {
                    Ok(n) => cycles == Some(n),
                    Err(e) => cycles is None && crate::cpu::exec::add16w(e.address, 1) == c.pc
                        && e.opcode == old(bus)@.read_spec(e.address),
                }
            }),
    {
        reveal(Cpu::step_spec);
        reveal(Cpu::execute_spec);
        if let Some(cycles) = self.handle_interrupt(bus) {
            return Ok(cycles);
        }
        if self.halted {
            return Ok(4);
        }
        // EI takes effect one instruction late, so the pending flag is read
        // before the instruction runs and applied after it.
        let enabling = self.ime_pending;
        let address = self.pc;
        let opcode = self.fetch8(bus);
        match self.execute(opcode, bus) {
            Some(cycles) => {
                if enabling {
                    self.ime = true;
                    self.ime_pending = false;
                }
                Ok(cycles)
            },
            None => Err(UndefinedOpcode { opcode, address }),
        }
    }
}

/// A step that services an interrupt does nothing else.
proof fn lemma_step_takes_interrupt(cpu: Cpu, bus: BusModel)
    requires
        cpu.handle_interrupt_spec(bus).2 is Some,
    ensures
        cpu.step_spec(bus) == cpu.handle_interrupt_spec(bus),
{
    reveal(Cpu::step_spec);
}

/// Taking an interrupt pushes the PC it struck at, clears IME and jumps to the
/// vector of the lowest pending request, acknowledging it: with the stack in
/// plain RAM, a return from the handler pops the interrupted PC back.
pub proof fn law_interrupt_returns_where_it_struck(cpu: Cpu, bus: BusModel)
    requires
        bus.wf(),
        cpu.ime,
        bus.intf & bus.inte & 0x1F != 0,
        crate::bus::is_plain_ram(crate::cpu::exec::add16w(cpu.sp, -1)),
        crate::bus::is_plain_ram(crate::cpu::exec::add16w(cpu.sp, -2)),
    ensures
        ({
            let bit = lowest_bit(bus.intf & bus.inte & 0x1F);
            let (c, b, cycles) = cpu.step_spec(bus);
            &&& cycles == Some(20u8)
            &&& !c.ime && !c.halted
            &&& c.pc == 0x40 + 8 * bit
            &&& b.intf == bus.intf & !((1u8 << bit) as u8)
            &&& c.pop16_spec(b).0 == cpu.pc
            &&& c.pop16_spec(b).1.sp == cpu.sp
        }),
{
    lemma_step_takes_interrupt(cpu, bus);
    let bit = lowest_bit(bus.intf & bus.inte & 0x1F);
    let b1 = BusModel { intf: bus.intf & !((1u8 << bit) as u8), ..bus };
    let c1 = Cpu { halted: false, ime: false, ..cpu };
    crate::cpu::exec::law_push_then_pop(c1, b1, cpu.pc);
    let sp1 = crate::cpu::exec::add16w(cpu.sp, -1);
    crate::bus::lemma_plain_ram_write(b1, sp1, high(cpu.pc));
    crate::bus::lemma_plain_ram_write(
        b1.write_spec(sp1, high(cpu.pc)),
        crate::cpu::exec::add16w(sp1, -1),
        low(cpu.pc),
    );
}

/// A step that services no interrupt and finds the CPU awake runs one instruction.
proof fn lemma_step_runs_instruction(cpu: Cpu, bus: BusModel)
    requires
        cpu.handle_interrupt_spec(bus).2 is None,
        !cpu.handle_interrupt_spec(bus).0.halted,
    ensures
        ({
            let (c1, b1, serviced) = cpu.handle_interrupt_spec(bus);
            let (op, c2) = c1.fetch8_spec(b1);
            let (c3, b3, cycles) = c2.execute_spec(b1, op);
            cpu.step_spec(bus) == if cycles is Some && c1.ime_pending {
                (Cpu { ime: true, ime_pending: false, ..c3 }, b3, cycles)
            } else {
                (c3, b3, cycles)
            }
        }),
{
    reveal(Cpu::step_spec);
}

/// EI takes effect one instruction late: the step that runs it leaves IME as
/// it was and only arms it.
pub proof fn law_ei_arms_without_enabling(cpu: Cpu, bus: BusModel)
    requires
        bus.intf & bus.inte & 0x1F == 0,
        !cpu.halted,
        !cpu.ime_pending,
        bus.read_spec(cpu.pc) == 0xFB,
    ensures
        ({
            let (c, b, cycles) = cpu.step_spec(bus);
            &&& cycles == Some(4u8)
            &&& c.ime == cpu.ime
            &&& c.ime_pending
            &&& c.pc == crate::cpu::exec::add16w(cpu.pc, 1)
            &&& b == bus
        }),
{
    reveal(Cpu::execute_spec);
    lemma_step_runs_instruction(cpu, bus);
}

/// The instruction after EI, once it completes, leaves IME on.
pub proof fn law_armed_ime_turns_on_after_the_next_instruction(cpu: Cpu, bus: BusModel)
    requires
        cpu.ime_pending,
        !cpu.ime,
        !cpu.halted,
    ensures
        ({
            let (c, b, cycles) = cpu.step_spec(bus);
            cycles is Some ==> c.ime && !c.ime_pending
        }),
{
    lemma_step_runs_instruction(cpu, bus);
}

/// HALT wakes on a pending request whether or not IME is set: with IME clear,
/// a halted CPU with a request pending steps exactly as an awake one.
pub proof fn law_halt_wakes_without_ime(cpu: Cpu, bus: BusModel)
    requires
        cpu.halted,
        !cpu.ime,
        bus.intf & bus.inte & 0x1F != 0,
    ensures
        cpu.step_spec(bus) == (Cpu { halted: false, ..cpu }).step_spec(bus),
{
    lemma_step_runs_instruction(cpu, bus);
    lemma_step_runs_instruction(Cpu { halted: false, ..cpu }, bus);
}

/// A handler that returns with RETI resumes the interrupted code: PC and SP
/// are back where the interrupt struck, and IME is on again at once.
pub proof fn law_reti_resumes_where_the_interrupt_struck(cpu: Cpu, bus: BusModel)
    requires
        bus.wf(),
        cpu.ime,
        bus.intf & bus.inte & 0x1F != 0,
        crate::bus::is_plain_ram(crate::cpu::exec::add16w(cpu.sp, -1)),
        crate::bus::is_plain_ram(crate::cpu::exec::add16w(cpu.sp, -2)),
    ensures
        ({
            let (c, b, _) = cpu.step_spec(bus);
            let (r, after, cycles) = c.execute_spec(b, 0xD9);
            &&& r.pc == cpu.pc
            &&& r.sp == cpu.sp
            &&& r.ime
            &&& after == b
            &&& cycles == Some(16u8)
        }),
{
    reveal(Cpu::execute_spec);
    law_interrupt_returns_where_it_struck(cpu, bus);
}

/// What a step does when it takes no interrupt: with no request pending a
/// halted CPU idles for 4 T-cycles and nothing changes; otherwise (a request
/// pending with IME clear, or an awake CPU with none) HALT is cleared if a
/// request is pending, IF is left alone, and one instruction runs.
pub proof fn law_step_without_interrupt(cpu: Cpu, bus: BusModel)
    requires
        bus.intf & bus.inte & 0x1F == 0 || !cpu.ime,
    ensures
        ({
            let pending = bus.intf & bus.inte & 0x1F;
            let awake = if pending != 0 { Cpu { halted: false, ..cpu } } else { cpu };
            let (op, fetched) = awake.fetch8_spec(bus);
            let (c3, b3, cycles) = fetched.execute_spec(bus, op);
            &&& pending == 0 && cpu.halted ==> cpu.step_spec(bus) == (cpu, bus, Some(4u8))
            &&& !awake.halted ==> cpu.step_spec(bus) == if cycles is Some && cpu.ime_pending {
                (Cpu { ime: true, ime_pending: false, ..c3 }, b3, cycles)
            } else {
                (c3, b3, cycles)
            }
        }),
{
    reveal(Cpu::step_spec);
}

/// The stack frame an interrupt leaves: SP two below where it was, the
/// interrupted PC there low byte first (with the stack in plain RAM).
pub proof fn law_interrupt_stack_frame(cpu: Cpu, bus: BusModel)
    requires
        bus.wf(),
        cpu.ime,
        bus.intf & bus.inte & 0x1F != 0,
        crate::bus::is_plain_ram(crate::cpu::exec::add16w(cpu.sp, -1)),
        crate::bus::is_plain_ram(crate::cpu::exec::add16w(cpu.sp, -2)),
    ensures
        ({
            let (c, b, _) = cpu.step_spec(bus);
            &&& c.sp == crate::cpu::exec::add16w(cpu.sp, -2)
            &&& b.read_spec(c.sp) == low(cpu.pc)
            &&& b.read_spec(crate::cpu::exec::add16w(c.sp, 1)) == high(cpu.pc)
        }),
{
    lemma_step_takes_interrupt(cpu, bus);
    let bit = lowest_bit(bus.intf & bus.inte & 0x1F);
    let b1 = BusModel { intf: bus.intf & !((1u8 << bit) as u8), ..bus };
    let c1 = Cpu { halted: false, ime: false, ..cpu };
    let sp1 = crate::cpu::exec::add16w(cpu.sp, -1);
    let sp2 = crate::cpu::exec::add16w(sp1, -1);
    let b2 = b1.write_spec(sp1, high(cpu.pc));
    crate::bus::lemma_plain_ram_write(b1, sp1, high(cpu.pc));
    crate::bus::law_ram_reads_back(b1, sp1, high(cpu.pc));
    crate::bus::law_ram_reads_back(b2, sp2, low(cpu.pc));
    crate::bus::law_ram_write_leaves_the_rest(b2, sp2, sp1, low(cpu.pc));
}

/// Of several pending and enabled interrupts the lowest bit is served first:
/// VBlank, then LCD STAT, timer, serial and joypad. The bit chosen is set,
/// and every bit below it is clear.
pub proof fn law_interrupt_priority(pending: u8)
    requires
        pending != 0,
        pending < 32,
    ensures
        ({
            let k = lowest_bit(pending);
            let weight = pow2(k as nat) as int;
            &&& k <= 4
            &&& (pending as int / weight) % 2 == 1
            &&& pending as int % weight == 0
        }),
{
    lemma2_to64();
    crate::bits::lemma_u8_bits(pending);
    let k = lowest_bit(pending);
    if k == 0 {
        assert(pow2(k as nat) == 1);
    } else if k == 1 {
        assert(pow2(k as nat) == 2);
    } else if k == 2 {
        assert(pow2(k as nat) == 4);
    } else if k == 3 {
        assert(pow2(k as nat) == 8);
    } else {
        assert(pow2(k as nat) == 16);
    }
}

} // verus!
