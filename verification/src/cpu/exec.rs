use vstd::prelude::*;
use crate::bus::{Bus, BusModel};
use crate::cpu::alu::{top, bottom};
use crate::cpu::{Cpu, Registers, FLAG_C, FLAG_H, FLAG_N, FLAG_Z, high, low, word, join, high_byte, low_byte};

verus! {

/// 16-bit wrapping sum.
pub open spec fn add16w(a: u16, b: int) -> u16 {
    ((a + b + 0x20000) % 0x10000) as u16
}

/// Whether a defined opcode: eleven of the 256 are not, and lock the CPU.
pub open spec fn is_defined_opcode(op: u8) -> bool {
    !(op == 0xD3 || op == 0xDB || op == 0xDD || op == 0xE3 || op == 0xE4 || op == 0xEB || op == 0xEC
        || op == 0xED || op == 0xF4 || op == 0xFC || op == 0xFD)
}

impl Cpu {
    // ---- register access by the 3-bit operand code ---------------------------
    /// Register by code: 0 B, 1 C, 2 D, 3 E, 4 H, 5 L, 7 A (6 is (HL)).
    pub open spec fn reg8(self, r: u8) -> u8 {
        if r == 0 {
            self.regs.b
        } else if r == 1 {
            self.regs.c
        } else if r == 2 {
            self.regs.d
        } else if r == 3 {
            self.regs.e
        } else if r == 4 {
            self.regs.h
        } else if r == 5 {
            self.regs.l
        } else {
            self.regs.a
        }
    }

    pub open spec fn with_reg8(self, r: u8, v: u8) -> Cpu {
        let regs = self.regs;
        Cpu {
            regs: if r == 0 {
                Registers { b: v, ..regs }
            } else if r == 1 {
                Registers { c: v, ..regs }
            } else if r == 2 {
                Registers { d: v, ..regs }
            } else if r == 3 {
                Registers { e: v, ..regs }
            } else if r == 4 {
                Registers { h: v, ..regs }
            } else if r == 5 {
                Registers { l: v, ..regs }
            } else {
                Registers { a: v, ..regs }
            },
            ..self
        }
    }

    /// The operand an instruction's 3-bit code names: a register, or for 6 the byte at HL.
    pub open spec fn operand(self, bus: BusModel, r: u8) -> u8 {
        if r == 6 {
            bus.read_spec(self.regs.hl_spec())
        } else {
            self.reg8(r)
        }
    }

    /// Stores into an instruction's 3-bit operand.
    pub open spec fn store_operand(self, bus: BusModel, r: u8, v: u8) -> (Cpu, BusModel) {
        if r == 6 {
            (self, bus.write_spec(self.regs.hl_spec(), v))
        } else {
            (self.with_reg8(r, v), bus)
        }
    }

    /// Register pair by 2-bit code: 0 BC, 1 DE, 2 HL, 3 SP.
    pub open spec fn pair(self, rr: u8) -> u16 {
        if rr == 0 {
            self.regs.bc_spec()
        } else if rr == 1 {
            self.regs.de_spec()
        } else if rr == 2 {
            self.regs.hl_spec()
        } else {
            self.sp
        }
    }

    pub open spec fn with_pair(self, rr: u8, v: u16) -> Cpu {
        if rr == 0 {
            Cpu { regs: Registers { b: high(v), c: low(v), ..self.regs }, ..self }
        } else if rr == 1 {
            Cpu { regs: Registers { d: high(v), e: low(v), ..self.regs }, ..self }
        } else if rr == 2 {
            Cpu { regs: Registers { h: high(v), l: low(v), ..self.regs }, ..self }
        } else {
            Cpu { sp: v, ..self }
        }
    }

    /// Stack pair by 2-bit code: 0 BC, 1 DE, 2 HL, 3 AF.
    pub open spec fn stack_pair(self, rr: u8) -> u16 {
        if rr == 3 {
            self.regs.af_spec()
        } else {
            self.pair(rr)
        }
    }

    pub open spec fn with_stack_pair(self, rr: u8, v: u16) -> Cpu {
        if rr == 3 {
            Cpu { regs: Registers { a: high(v), f: (low(v) & 0xF0) as u8, ..self.regs }, ..self }
        } else {
            self.with_pair(rr, v)
        }
    }

    /// Condition by 2-bit code: 0 NZ, 1 Z, 2 NC, 3 C.
    pub open spec fn condition(self, cc: u8) -> bool {
        if cc == 0 {
            !self.regs.flags_set(FLAG_Z)
        } else if cc == 1 {
            self.regs.flags_set(FLAG_Z)
        } else if cc == 2 {
            !self.regs.flags_set(FLAG_C)
        } else {
            self.regs.flags_set(FLAG_C)
        }
    }

    /// The eight ALU operations on A by 3-bit code: ADD ADC SUB SBC AND XOR OR CP.
    pub open spec fn alu_spec(self, k: u8, v: u8) -> Cpu {
        if k == 0 {
            self.add8_spec(v)
        } else if k == 1 {
            self.adc8_spec(v)
        } else if k == 2 {
            self.sub8_spec(v)
        } else if k == 3 {
            self.sbc8_spec(v)
        } else if k == 4 {
            self.and8_spec(v)
        } else if k == 5 {
            self.xor8_spec(v)
        } else if k == 6 {
            self.or8_spec(v)
        } else {
            self.cp8_spec(v)
        }
    }

    // ---- fetch and stack ------------------------------------------------------
    pub open spec fn fetch8_spec(self, bus: BusModel) -> (u8, Cpu) {
        (bus.read_spec(self.pc), Cpu { pc: add16w(self.pc, 1), ..self })
    }

    /// Two bytes at PC, little-endian.
    pub open spec fn fetch16_spec(self, bus: BusModel) -> (u16, Cpu) {
        let (lo, c1) = self.fetch8_spec(bus);
        let (hi, c2) = c1.fetch8_spec(bus);
        (word(hi, lo), c2)
    }

    /// Pushes a word: the high byte goes below SP, then the low byte below that.
    pub open spec fn push16_spec(self, bus: BusModel, value: u16) -> (Cpu, BusModel) {
        let sp1 = add16w(self.sp, -1);
        let b1 = bus.write_spec(sp1, high(value));
        let sp2 = add16w(sp1, -1);
        let b2 = b1.write_spec(sp2, low(value));
        (Cpu { sp: sp2, ..self }, b2)
    }

    pub open spec fn pop16_spec(self, bus: BusModel) -> (u16, Cpu) {
        let lo = bus.read_spec(self.sp);
        let hi = bus.read_spec(add16w(self.sp, 1));
        (word(hi, lo), Cpu { sp: add16w(self.sp, 2), ..self })
    }

    // ---- instruction semantics ------------------------------------------------
    /// 0x40..=0x7F: LD r,r' (and HALT at 0x76).
    pub open spec fn load_block_spec(self, bus: BusModel, op: u8) -> (Cpu, BusModel, u8) {
        if op == 0x76 {
            (Cpu { halted: true, ..self }, bus, 4)
        } else {
            let dst = (op / 8) % 8;
            let src = op % 8;
            let (c, b) = self.store_operand(bus, dst, self.operand(bus, src));
            (c, b, if src == 6 || dst == 6 { 8 } else { 4 })
        }
    }

    /// 0x80..=0xBF: an ALU operation on A with a register or (HL).
    pub open spec fn alu_block_spec(self, bus: BusModel, op: u8) -> (Cpu, BusModel, u8) {
        let src = op % 8;
        (self.alu_spec((op / 8) % 8, self.operand(bus, src)), bus, if src == 6 { 8 } else { 4 })
    }

    /// Columns 4, 5, 6 of 0x00..=0x3F: INC r, DEC r, LD r,d8.
    pub open spec fn inc_dec_ld_spec(self, bus: BusModel, op: u8) -> (Cpu, BusModel, u8) {
        let r = (op / 8) % 8;
        let col = op % 8;
        let mem = r == 6;
        if col == 4 {
            let v = self.operand(bus, r);
            let (c, b) = self.with_f(self.inc8_flags(v)).store_operand(bus, r, ((v + 1) % 256) as u8);
            (c, b, if mem { 12 } else { 4 })
        } else if col == 5 {
            let v = self.operand(bus, r);
            let (c, b) = self.with_f(self.dec8_flags(v)).store_operand(bus, r, ((v + 255) % 256) as u8);
            (c, b, if mem { 12 } else { 4 })
        } else {
            let (v, c1) = self.fetch8_spec(bus);
            let (c, b) = c1.store_operand(bus, r, v);
            (c, b, if mem { 12 } else { 8 })
        }
    }

    /// Columns 1, 2, 3, 9, A, B of 0x00..=0x3F: the 16-bit loads and arithmetic,
    /// and the loads through BC, DE, HL+ and HL-.
    pub open spec fn pair_ops_spec(self, bus: BusModel, op: u8) -> (Cpu, BusModel, u8) {
        let rr = op / 16;
        let col = op % 16;
        if col == 1 {
            let (v, c1) = self.fetch16_spec(bus);
            (c1.with_pair(rr, v), bus, 12)
        } else if col == 3 {
            (self.with_pair(rr, add16w(self.pair(rr), 1)), bus, 8)
        } else if col == 0xB {
            (self.with_pair(rr, add16w(self.pair(rr), -1)), bus, 8)
        } else if col == 9 {
            (self.add16_spec(self.pair(rr)), bus, 8)
        } else {
            let address = if rr == 0 {
                self.regs.bc_spec()
            } else if rr == 1 {
                self.regs.de_spec()
            } else {
                self.regs.hl_spec()
            };
            let c1 = if rr == 2 {
                self.with_pair(2, add16w(address, 1))
            } else if rr == 3 {
                self.with_pair(2, add16w(address, -1))
            } else {
                self
            };
            if col == 2 {
                (c1, bus.write_spec(address, self.regs.a), 8)
            } else {
                (c1.with_reg8(7, bus.read_spec(address)), bus, 8)
            }
        }
    }

    /// Column 7 of 0x00..=0x3F: RLCA RRCA RLA RRA DAA CPL SCF CCF.
    pub open spec fn accumulator_ops_spec(self, op: u8) -> Cpu {
        let k = op / 8;
        if k == 0 {
            self.rlca_spec()
        } else if k == 1 {
            self.rrca_spec()
        } else if k == 2 {
            self.rla_spec()
        } else if k == 3 {
            self.rra_spec()
        } else if k == 4 {
            self.daa_spec()
        } else if k == 5 {
            self.cpl_spec()
        } else if k == 6 {
            self.scf_spec()
        } else {
            self.ccf_spec()
        }
    }

    /// Column 0 of 0x00..=0x3F: NOP, LD (a16),SP, STOP, JR and JR cc.
    pub open spec fn control_low_spec(self, bus: BusModel, op: u8) -> (Cpu, BusModel, u8) {
        if op == 0x00 {
            (self, bus, 4)
        } else if op == 0x08 {
            let (address, c1) = self.fetch16_spec(bus);
            let b1 = bus.write_spec(address, low(self.sp));
            (c1, b1.write_spec(add16w(address, 1), high(self.sp)), 20)
        } else if op == 0x10 {
            // STOP is two bytes; the second is ignored. On the CGB it performs
            // an armed speed switch.
            let (_, c1) = self.fetch8_spec(bus);
            (c1, bus.switch_speed_spec(), 4)
        } else {
            let (byte, c1) = self.fetch8_spec(bus);
            let taken = op == 0x18 || c1.condition((op / 8) % 4);
            if taken {
                (Cpu { pc: add16w(c1.pc, (byte as i8) as int), ..c1 }, bus, 12)
            } else {
                (c1, bus, 8)
            }
        }
    }

    /// 0x00..=0x3F.
    pub open spec fn low_block_spec(self, bus: BusModel, op: u8) -> (Cpu, BusModel, u8) {
        let col = op % 8;
        if col == 4 || col == 5 || col == 6 {
            self.inc_dec_ld_spec(bus, op)
        } else if col == 7 {
            (self.accumulator_ops_spec(op), bus, 4)
        } else if col == 0 {
            self.control_low_spec(bus, op)
        } else {
            self.pair_ops_spec(bus, op)
        }
    }

    /// CALL: push the return address, jump.
    pub open spec fn call_spec(self, bus: BusModel, target: u16) -> (Cpu, BusModel) {
        let (c, b) = self.push16_spec(bus, self.pc);
        (Cpu { pc: target, ..c }, b)
    }

    /// Columns 0 to 3 of 0xC0..=0xFF (0xCB is handled by the caller).
    pub open spec fn high_a_spec(self, bus: BusModel, op: u8) -> (Cpu, BusModel, u8) {
        if op == 0xC0 || op == 0xC8 || op == 0xD0 || op == 0xD8 {
            if self.condition((op / 8) % 4) {
                let (target, c1) = self.pop16_spec(bus);
                (Cpu { pc: target, ..c1 }, bus, 20)
            } else {
                (self, bus, 8)
            }
        } else if op == 0xE0 {
            let (offset, c1) = self.fetch8_spec(bus);
            (c1, bus.write_spec((0xFF00 + offset) as u16, self.regs.a), 12)
        } else if op == 0xF0 {
            let (offset, c1) = self.fetch8_spec(bus);
            (c1.with_reg8(7, bus.read_spec((0xFF00 + offset) as u16)), bus, 12)
        } else if op == 0xE8 {
            let (byte, c1) = self.fetch8_spec(bus);
            (Cpu { sp: c1.sp_plus(byte as i8), ..c1.with_f(c1.sp_plus_flags(byte as i8)) }, bus, 16)
        } else if op == 0xF8 {
            let (byte, c1) = self.fetch8_spec(bus);
            (c1.with_f(c1.sp_plus_flags(byte as i8)).with_pair(2, c1.sp_plus(byte as i8)), bus, 12)
        } else if op == 0xC1 || op == 0xD1 || op == 0xE1 || op == 0xF1 {
            let (value, c1) = self.pop16_spec(bus);
            (c1.with_stack_pair((op / 16) % 4, value), bus, 12)
        } else if op == 0xC9 {
            let (target, c1) = self.pop16_spec(bus);
            (Cpu { pc: target, ..c1 }, bus, 16)
        } else if op == 0xD9 {
            // RETI re-enables interrupts at once, unlike EI.
            let (target, c1) = self.pop16_spec(bus);
            (Cpu { pc: target, ime: true, ..c1 }, bus, 16)
        } else if op == 0xE9 {
            (Cpu { pc: self.regs.hl_spec(), ..self }, bus, 4)
        } else if op == 0xF9 {
            (Cpu { sp: self.regs.hl_spec(), ..self }, bus, 8)
        } else if op == 0xC2 || op == 0xCA || op == 0xD2 || op == 0xDA {
            let (target, c1) = self.fetch16_spec(bus);
            if c1.condition((op / 8) % 4) {
                (Cpu { pc: target, ..c1 }, bus, 16)
            } else {
                (c1, bus, 12)
            }
        } else if op == 0xE2 {
            (self, bus.write_spec((0xFF00 + self.regs.c) as u16, self.regs.a), 8)
        } else if op == 0xF2 {
            (self.with_reg8(7, bus.read_spec((0xFF00 + self.regs.c) as u16)), bus, 8)
        } else if op == 0xEA {
            let (address, c1) = self.fetch16_spec(bus);
            (c1, bus.write_spec(address, self.regs.a), 16)
        } else if op == 0xFA {
            let (address, c1) = self.fetch16_spec(bus);
            (c1.with_reg8(7, bus.read_spec(address)), bus, 16)
        } else if op == 0xC3 {
            let (target, c1) = self.fetch16_spec(bus);
            (Cpu { pc: target, ..c1 }, bus, 16)
        } else if op == 0xF3 {
            (Cpu { ime: false, ime_pending: false, ..self }, bus, 4)
        } else {
            // 0xFB, EI: takes effect after the next instruction.
            (Cpu { ime_pending: true, ..self }, bus, 4)
        }
    }

    /// Columns 4 to 7 of 0xC0..=0xFF.
    pub open spec fn high_b_spec(self, bus: BusModel, op: u8) -> (Cpu, BusModel, u8) {
        let col = op % 8;
        if col == 4 {
            let (target, c1) = self.fetch16_spec(bus);
            if c1.condition((op / 8) % 4) {
                let (c, b) = c1.call_spec(bus, target);
                (c, b, 24)
            } else {
                (c1, bus, 12)
            }
        } else if col == 5 {
            if op == 0xCD {
                let (target, c1) = self.fetch16_spec(bus);
                let (c, b) = c1.call_spec(bus, target);
                (c, b, 24)
            } else {
                let (c, b) = self.push16_spec(bus, self.stack_pair((op / 16) % 4));
                (c, b, 16)
            }
        } else if col == 6 {
            let (v, c1) = self.fetch8_spec(bus);
            (c1.alu_spec((op / 8) % 8, v), bus, 8)
        } else {
            let (c, b) = self.call_spec(bus, (op & 0x38) as u16);
            (c, b, 16)
        }
    }

    /// One instruction whose opcode has been fetched (PC is past it): the CPU
    /// and bus after it and the T-cycles it took; `None` for an undefined opcode.
    #[verifier::opaque]
    pub open spec fn execute_spec(self, bus: BusModel, op: u8) -> (Cpu, BusModel, Option<u8>) {
        if !is_defined_opcode(op) {
            (self, bus, None)
        } else if op < 0x40 {
            let (c, b, n) = self.low_block_spec(bus, op);
            (c, b, Some(n))
        } else if op < 0x80 {
            let (c, b, n) = self.load_block_spec(bus, op);
            (c, b, Some(n))
        } else if op < 0xC0 {
            let (c, b, n) = self.alu_block_spec(bus, op);
            (c, b, Some(n))
        } else if op == 0xCB {
            let (cb, c1) = self.fetch8_spec(bus);
            let (c, b, n) = c1.execute_cb_spec(bus, cb);
            (c, b, Some(n))
        } else if op % 8 < 4 {
            let (c, b, n) = self.high_a_spec(bus, op);
            (c, b, Some(n))
        } else {
            let (c, b, n) = self.high_b_spec(bus, op);
            (c, b, Some(n))
        }
    }
}


proof fn lemma_signed_offset(byte: u8, pc: u16)
    ensures
        pc.wrapping_add((byte as i8) as u16) == add16w(pc, (byte as i8) as int),
        (byte as i8) as int == if byte >= 128 { byte - 256 } else { byte as int },
{
    let offset = byte as i8;
    let value = offset as u16;
    assert(value == (offset + 65536) % 65536
        && offset as i16 + (if byte >= 128 { 256i16 } else { 0i16 }) == byte as i16) by (bit_vector)
        requires
            value == offset as u16,
            offset == byte as i8;
}

impl Cpu {
    pub fn fetch8(&mut self, bus: &Bus) -> (r: u8)
        requires
            bus.wf(),
        ensures
            (r, *final(self)) == old(self).fetch8_spec(bus@),
    {
        let byte = bus.read(self.pc);
        self.pc = self.pc.wrapping_add(1);
        byte
    }

    pub fn fetch16(&mut self, bus: &Bus) -> (r: u16)
        requires
            bus.wf(),
        ensures
            (r, *final(self)) == old(self).fetch16_spec(bus@),
    {
        let lo = self.fetch8(bus);
        let hi = self.fetch8(bus);
        join(hi, lo)
    }

    pub fn push16(&mut self, bus: &mut Bus, value: u16)
        requires
            old(bus).wf(),
        ensures
            (*final(self), final(bus)@) == old(self).push16_spec(old(bus)@, value),
            final(bus).wf(),
    {
        self.sp = self.sp.wrapping_sub(1);
        bus.write(self.sp, high_byte(value));
        self.sp = self.sp.wrapping_sub(1);
        bus.write(self.sp, low_byte(value));
    }

    pub fn pop16(&mut self, bus: &Bus) -> (r: u16)
        requires
            bus.wf(),
        ensures
            (r, *final(self)) == old(self).pop16_spec(bus@),
    {
        let lo = bus.read(self.sp);
        self.sp = self.sp.wrapping_add(1);
        let hi = bus.read(self.sp);
        self.sp = self.sp.wrapping_add(1);
        join(hi, lo)
    }

    fn reg(&self, r: u8) -> (v: u8)
        ensures
            v == self.reg8(r),
    {
        if r == 0 {
            self.regs.b
        } else if r == 1 {
            self.regs.c
        } else if r == 2 {
            self.regs.d
        } else if r == 3 {
            self.regs.e
        } else if r == 4 {
            self.regs.h
        } else if r == 5 {
            self.regs.l
        } else {
            self.regs.a
        }
    }

    fn set_reg(&mut self, r: u8, v: u8)
        ensures
            *final(self) == old(self).with_reg8(r, v),
    {
        if r == 0 {
            self.regs.b = v;
        } else if r == 1 {
            self.regs.c = v;
        } else if r == 2 {
            self.regs.d = v;
        } else if r == 3 {
            self.regs.e = v;
        } else if r == 4 {
            self.regs.h = v;
        } else if r == 5 {
            self.regs.l = v;
        } else {
            self.regs.a = v;
        }
    }

    pub(crate) fn read_operand(&self, bus: &Bus, r: u8) -> (v: u8)
        requires
            bus.wf(),
        ensures
            v == self.operand(bus@, r),
    {
        if r == 6 {
            bus.read(self.regs.hl())
        } else {
            self.reg(r)
        }
    }

    pub(crate) fn write_operand(&mut self, bus: &mut Bus, r: u8, v: u8)
        requires
            old(bus).wf(),
        ensures
            (*final(self), final(bus)@) == old(self).store_operand(old(bus)@, r, v),
            final(bus).wf(),
    {
        if r == 6 {
            bus.write(self.regs.hl(), v);
        } else {
            self.set_reg(r, v);
        }
    }

    fn get_pair(&self, rr: u8) -> (v: u16)
        ensures
            v == self.pair(rr),
    {
        if rr == 0 {
            self.regs.bc()
        } else if rr == 1 {
            self.regs.de()
        } else if rr == 2 {
            self.regs.hl()
        } else {
            self.sp
        }
    }

    fn set_pair(&mut self, rr: u8, v: u16)
        ensures
            *final(self) == old(self).with_pair(rr, v),
    {
        if rr == 0 {
            self.regs.set_bc(v);
        } else if rr == 1 {
            self.regs.set_de(v);
        } else if rr == 2 {
            self.regs.set_hl(v);
        } else {
            self.sp = v;
        }
    }

    fn check_condition(&self, cc: u8) -> (r: bool)
        ensures
            r == self.condition(cc),
    {
        if cc == 0 {
            !self.regs.has_flags(FLAG_Z)
        } else if cc == 1 {
            self.regs.has_flags(FLAG_Z)
        } else if cc == 2 {
            !self.regs.has_flags(FLAG_C)
        } else {
            self.regs.has_flags(FLAG_C)
        }
    }

    fn alu(&mut self, k: u8, v: u8)
        ensures
            *final(self) == old(self).alu_spec(k, v),
    {
        if k == 0 {
            self.add8(v);
        } else if k == 1 {
            self.adc8(v);
        } else if k == 2 {
            self.sub8(v);
        } else if k == 3 {
            self.sbc8(v);
        } else if k == 4 {
            self.and8(v);
        } else if k == 5 {
            self.xor8(v);
        } else if k == 6 {
            self.or8(v);
        } else {
            self.cp8(v);
        }
    }

    fn call(&mut self, bus: &mut Bus, target: u16)
        requires
            old(bus).wf(),
        ensures
            (*final(self), final(bus)@) == old(self).call_spec(old(bus)@, target),
            final(bus).wf(),
    {
        self.push16(bus, self.pc);
        self.pc = target;
    }

    fn exec_load_block(&mut self, bus: &mut Bus, op: u8) -> (r: u8)
        requires
            old(bus).wf(),
            0x40 <= op < 0x80,
        ensures
            4 <= r <= 24 && r % 4 == 0,
            (*final(self), final(bus)@, r) == old(self).load_block_spec(old(bus)@, op),
            final(bus).wf(),
    {
        if op == 0x76 {
            self.halted = true;
            return 4;
        }
        let dst = (op / 8) % 8;
        let src = op % 8;
        let v = self.read_operand(bus, src);
        self.write_operand(bus, dst, v);
        if src == 6 || dst == 6 { 8 } else { 4 }
    }

    fn exec_alu_block(&mut self, bus: &Bus, op: u8) -> (r: u8)
        requires
            bus.wf(),
            0x80 <= op < 0xC0,
        ensures
            4 <= r <= 24 && r % 4 == 0,
            (*final(self), bus@, r) == old(self).alu_block_spec(bus@, op),
    {
        let src = op % 8;
        let v = self.read_operand(bus, src);
        self.alu((op / 8) % 8, v);
        if src == 6 { 8 } else { 4 }
    }

    fn exec_inc_dec_ld(&mut self, bus: &mut Bus, op: u8) -> (r: u8)
        requires
            old(bus).wf(),
            op < 0x40,
            op % 8 == 4 || op % 8 == 5 || op % 8 == 6,
        ensures
            4 <= r <= 24 && r % 4 == 0,
            (*final(self), final(bus)@, r) == old(self).inc_dec_ld_spec(old(bus)@, op),
            final(bus).wf(),
    {
        let r = (op / 8) % 8;
        let col = op % 8;
        let mem = r == 6;
        if col == 4 {
            let v = self.read_operand(bus, r);
            let result = self.inc8(v);
            self.write_operand(bus, r, result);
            if mem { 12 } else { 4 }
        } else if col == 5 {
            let v = self.read_operand(bus, r);
            let result = self.dec8(v);
            self.write_operand(bus, r, result);
            if mem { 12 } else { 4 }
        } else {
            let v = self.fetch8(bus);
            self.write_operand(bus, r, v);
            if mem { 12 } else { 8 }
        }
    }

    fn exec_pair_ops(&mut self, bus: &mut Bus, op: u8) -> (r: u8)
        requires
            old(bus).wf(),
            op < 0x40,
            op % 16 == 1 || op % 16 == 2 || op % 16 == 3 || op % 16 == 9 || op % 16 == 0xA || op % 16 == 0xB,
        ensures
            4 <= r <= 24 && r % 4 == 0,
            (*final(self), final(bus)@, r) == old(self).pair_ops_spec(old(bus)@, op),
            final(bus).wf(),
    {
        let col = op % 16;
        if col == 2 || col == 0xA {
            self.exec_indirect_load(bus, op)
        } else {
            self.exec_pair_arithmetic(bus, op)
        }
    }

    #[verifier::rlimit(80)]
    fn exec_pair_arithmetic(&mut self, bus: &Bus, op: u8) -> (r: u8)
        requires
            bus.wf(),
            op < 0x40,
            op % 16 == 1 || op % 16 == 3 || op % 16 == 9 || op % 16 == 0xB,
        ensures
            4 <= r <= 24 && r % 4 == 0,
            (*final(self), bus@, r) == old(self).pair_ops_spec(bus@, op),
    {
        let rr = op / 16;
        let col = op % 16;
        if col == 1 {
            let v = self.fetch16(bus);
            self.set_pair(rr, v);
            12
        } else if col == 3 {
            let v = self.get_pair(rr).wrapping_add(1);
            self.set_pair(rr, v);
            8
        } else if col == 0xB {
            let v = self.get_pair(rr).wrapping_sub(1);
            self.set_pair(rr, v);
            8
        } else {
            let v = self.get_pair(rr);
            self.add16(v);
            8
        }
    }

    #[verifier::spinoff_prover]
    #[verifier::rlimit(80)]
    fn exec_indirect_load(&mut self, bus: &mut Bus, op: u8) -> (r: u8)
        requires
            old(bus).wf(),
            op < 0x40,
            op % 16 == 2 || op % 16 == 0xA,
        ensures
            4 <= r <= 24 && r % 4 == 0,
            (*final(self), final(bus)@, r) == old(self).pair_ops_spec(old(bus)@, op),
            final(bus).wf(),
    {
        let rr = op / 16;
        let col = op % 16;
        let address = if rr == 0 {
            self.regs.bc()
        } else if rr == 1 {
            self.regs.de()
        } else {
            self.regs.hl()
        };
        let a = self.regs.a;
        if rr == 2 {
            self.set_pair(2, address.wrapping_add(1));
        } else if rr == 3 {
            self.set_pair(2, address.wrapping_sub(1));
        }
        if col == 2 {
            bus.write(address, a);
        } else {
            let v = bus.read(address);
            self.regs.a = v;
        }
        8
    }

    fn exec_accumulator_ops(&mut self, op: u8)
        requires
            op < 0x40,
            op % 8 == 7,
        ensures
            *final(self) == old(self).accumulator_ops_spec(op),
    {
        let k = op / 8;
        if k == 0 {
            self.rlca();
        } else if k == 1 {
            self.rrca();
        } else if k == 2 {
            self.rla();
        } else if k == 3 {
            self.rra();
        } else if k == 4 {
            self.daa();
        } else if k == 5 {
            self.cpl();
        } else if k == 6 {
            self.scf();
        } else {
            self.ccf();
        }
    }

    fn exec_control_low(&mut self, bus: &mut Bus, op: u8) -> (r: u8)
        requires
            old(bus).wf(),
            op < 0x40,
            op % 8 == 0,
        ensures
            4 <= r <= 24 && r % 4 == 0,
            (*final(self), final(bus)@, r) == old(self).control_low_spec(old(bus)@, op),
            final(bus).wf(),
    {
        if op == 0x00 {
            4
        } else if op == 0x08 {
            let address = self.fetch16(bus);
            bus.write(address, low_byte(self.sp));
            bus.write(address.wrapping_add(1), high_byte(self.sp));
            20
        } else if op == 0x10 {
            // STOP is two bytes; the second is ignored.
            self.fetch8(bus);
            bus.switch_speed();
            4
        } else {
            let byte = self.fetch8(bus);
            let taken = op == 0x18 || self.check_condition((op / 8) % 4);
            if taken {
                proof {
                    lemma_signed_offset(byte, self.pc);
                }
                self.pc = self.pc.wrapping_add((byte as i8) as u16);
                12
            } else {
                8
            }
        }
    }

    fn exec_high_a(&mut self, bus: &mut Bus, op: u8) -> (r: u8)
        requires
            old(bus).wf(),
            op >= 0xC0,
            op % 8 < 4,
            op != 0xCB,
            is_defined_opcode(op),
        ensures
            4 <= r <= 24 && r % 4 == 0,
            (*final(self), final(bus)@, r) == old(self).high_a_spec(old(bus)@, op),
            final(bus).wf(),
    {
        if op == 0xC0 || op == 0xC8 || op == 0xD0 || op == 0xD8 {
            if self.check_condition((op / 8) % 4) {
                self.pc = self.pop16(bus);
                20
            } else {
                8
            }
        } else if op == 0xE0 {
            let offset = self.fetch8(bus);
            bus.write(0xFF00 + offset as u16, self.regs.a);
            12
        } else if op == 0xF0 {
            let offset = self.fetch8(bus);
            self.regs.a = bus.read(0xFF00 + offset as u16);
            12
        } else if op == 0xE8 {
            let byte = self.fetch8(bus);
            self.sp = self.add_sp_i8(byte as i8);
            16
        } else if op == 0xF8 {
            let byte = self.fetch8(bus);
            let value = self.add_sp_i8(byte as i8);
            self.regs.set_hl(value);
            12
        } else if op == 0xC1 || op == 0xD1 || op == 0xE1 || op == 0xF1 {
            let value = self.pop16(bus);
            let rr = (op / 16) % 4;
            if rr == 3 {
                // set_af masks the low nibble of F away
                self.regs.set_af(value);
            } else {
                self.set_pair(rr, value);
            }
            12
        } else if op == 0xC9 {
            self.pc = self.pop16(bus);
            16
        } else if op == 0xD9 {
            self.pc = self.pop16(bus);
            self.ime = true;
            16
        } else if op == 0xE9 {
            // no memory read despite the mnemonic JP (HL)
            self.pc = self.regs.hl();
            4
        } else if op == 0xF9 {
            self.sp = self.regs.hl();
            8
        } else if op == 0xC2 || op == 0xCA || op == 0xD2 || op == 0xDA {
            let target = self.fetch16(bus);
            if self.check_condition((op / 8) % 4) {
                self.pc = target;
                16
            } else {
                12
            }
        } else if op == 0xE2 {
            bus.write(0xFF00 + self.regs.c as u16, self.regs.a);
            8
        } else if op == 0xF2 {
            self.regs.a = bus.read(0xFF00 + self.regs.c as u16);
            8
        } else if op == 0xEA {
            let address = self.fetch16(bus);
            bus.write(address, self.regs.a);
            16
        } else if op == 0xFA {
            let address = self.fetch16(bus);
            self.regs.a = bus.read(address);
            16
        } else if op == 0xC3 {
            self.pc = self.fetch16(bus);
            16
        } else if op == 0xF3 {
            self.ime = false;
            self.ime_pending = false;
            4
        } else {
            self.ime_pending = true;
            4
        }
    }

    fn exec_high_b(&mut self, bus: &mut Bus, op: u8) -> (r: u8)
        requires
            old(bus).wf(),
            op >= 0xC0,
            op % 8 >= 4,
            is_defined_opcode(op),
        ensures
            4 <= r <= 24 && r % 4 == 0,
            (*final(self), final(bus)@, r) == old(self).high_b_spec(old(bus)@, op),
            final(bus).wf(),
    {
        let col = op % 8;
        if col == 4 {
            let target = self.fetch16(bus);
            if self.check_condition((op / 8) % 4) {
                self.call(bus, target);
                24
            } else {
                12
            }
        } else if col == 5 {
            if op == 0xCD {
                let target = self.fetch16(bus);
                self.call(bus, target);
                24
            } else {
                let rr = (op / 16) % 4;
                let value = if rr == 3 { self.regs.af() } else { self.get_pair(rr) };
                self.push16(bus, value);
                16
            }
        } else if col == 6 {
            let v = self.fetch8(bus);
            self.alu((op / 8) % 8, v);
            8
        } else {
            proof {
                crate::bits::lemma_u8_bits(op);
            }
            self.call(bus, (op & 0x38) as u16);
            16
        }
    }

    /// Runs one instruction whose opcode was just fetched; returns the
    /// T-cycles it took (a multiple of 4, from 4 to 24), or `None` for one of
    /// the eleven undefined opcodes, where nothing else changes. The hardware
    /// locks up there; this library reports it instead of panicking, and a
    /// frontend that wants the crash turns the `None` into one.
    pub fn execute(&mut self, opcode: u8, bus: &mut Bus) -> (r: Option<u8>)
        requires
            old(bus).wf(),
        ensures
            r matches Some(n) ==> 4 <= n <= 24 && n % 4 == 0,
            r is None <==> !is_defined_opcode(opcode),
            (*final(self), final(bus)@, r) == old(self).execute_spec(old(bus)@, opcode),
            final(bus).wf(),
    {
        reveal(Cpu::execute_spec);
        if !(opcode != 0xD3 && opcode != 0xDB && opcode != 0xDD && opcode != 0xE3 && opcode != 0xE4
            && opcode != 0xEB && opcode != 0xEC && opcode != 0xED && opcode != 0xF4 && opcode != 0xFC
            && opcode != 0xFD) {
            return None;
        }
        if opcode < 0x40 {
            let col = opcode % 8;
            if col == 4 || col == 5 || col == 6 {
                Some(self.exec_inc_dec_ld(bus, opcode))
            } else if col == 7 {
                self.exec_accumulator_ops(opcode);
                Some(4)
            } else if col == 0 {
                Some(self.exec_control_low(bus, opcode))
            } else {
                Some(self.exec_pair_ops(bus, opcode))
            }
        } else if opcode < 0x80 {
            Some(self.exec_load_block(bus, opcode))
        } else if opcode < 0xC0 {
            Some(self.exec_alu_block(bus, opcode))
        } else if opcode == 0xCB {
            let cb = self.fetch8(bus);
            Some(self.execute_cb(cb, bus))
        } else if opcode % 8 < 4 {
            Some(self.exec_high_a(bus, opcode))
        } else {
            Some(self.exec_high_b(bus, opcode))
        }
    }
}

/// With the stack in plain RAM, popping right after a push gives back the
/// pushed word and puts SP back where it was.
pub proof fn law_push_then_pop(cpu: Cpu, bus: BusModel, value: u16)
    requires
        bus.wf(),
        crate::bus::is_plain_ram(add16w(cpu.sp, -1)),
        crate::bus::is_plain_ram(add16w(cpu.sp, -2)),
    ensures
        ({
            let (pushed, b) = cpu.push16_spec(bus, value);
            let (popped, after) = pushed.pop16_spec(b);
            &&& popped == value
            &&& after.sp == cpu.sp
            &&& b.wf()
        }),
{
    let sp1 = add16w(cpu.sp, -1);
    let sp2 = add16w(sp1, -1);
    let b1 = bus.write_spec(sp1, high(value));
    crate::bus::lemma_plain_ram_write(bus, sp1, high(value));
    crate::bus::lemma_plain_ram_write(b1, sp2, low(value));
    crate::bus::law_ram_reads_back(bus, sp1, high(value));
    crate::bus::law_ram_reads_back(b1, sp2, low(value));
    crate::bus::law_ram_write_leaves_the_rest(b1, sp2, sp1, low(value));
    crate::cpu::lemma_word_split(value);
}

/// How the decoder runs PUSH rr (0xC5 + 16 rr).
proof fn lemma_decode_push(cpu: Cpu, bus: BusModel, op: u8)
    requires
        op == 0xC5 || op == 0xD5 || op == 0xE5 || op == 0xF5,
    ensures
        ({
            let (c, b) = cpu.push16_spec(bus, cpu.stack_pair((op / 16) % 4));
            cpu.execute_spec(bus, op) == (c, b, Some(16u8))
        }),
{
    reveal(Cpu::execute_spec);
}

/// How the decoder runs POP rr (0xC1 + 16 rr).
proof fn lemma_decode_pop(cpu: Cpu, bus: BusModel, op: u8)
    requires
        op == 0xC1 || op == 0xD1 || op == 0xE1 || op == 0xF1,
    ensures
        ({
            let (value, c) = cpu.pop16_spec(bus);
            cpu.execute_spec(bus, op) == (c.with_stack_pair((op / 16) % 4, value), bus, Some(12u8))
        }),
{
    reveal(Cpu::execute_spec);
}

/// PUSH then the matching POP, run through the instruction decoder with the
/// stack in plain RAM, takes 16 and 12 T-cycles and gives back the pair and
/// SP; for AF the low nibble of F comes back clear, as F never holds one.
pub proof fn law_push_pop_instructions(cpu: Cpu, bus: BusModel, k: u8)
    requires
        bus.wf(),
        k < 4,
        crate::bus::is_plain_ram(add16w(cpu.sp, -1)),
        crate::bus::is_plain_ram(add16w(cpu.sp, -2)),
    ensures
        ({
            let (c1, b1, n1) = cpu.execute_spec(bus, (0xC5 + 16 * k) as u8);
            let (c2, b2, n2) = c1.execute_spec(b1, (0xC1 + 16 * k) as u8);
            &&& n1 == Some(16u8)
            &&& n2 == Some(12u8)
            &&& b2 == b1
            &&& k < 3 ==> c2 == cpu
            &&& k == 3 ==> c2 == (Cpu { regs: Registers { f: (cpu.regs.f & 0xF0) as u8, ..cpu.regs }, ..cpu })
        }),
{
    let value = cpu.stack_pair(k);
    law_push_then_pop(cpu, bus, value);
    let push = (0xC5 + 16 * k) as u8;
    let pop = (0xC1 + 16 * k) as u8;
    assert(push / 16 % 4 == k && pop / 16 % 4 == k);
    lemma_decode_push(cpu, bus, push);
    let (c1, b1) = cpu.push16_spec(bus, value);
    lemma_decode_pop(c1, b1, pop);
    let r = cpu.regs;
    crate::cpu::law_bytes_join_then_split(r.a, r.f);
    crate::cpu::law_bytes_join_then_split(r.b, r.c);
    crate::cpu::law_bytes_join_then_split(r.d, r.e);
    crate::cpu::law_bytes_join_then_split(r.h, r.l);
}

/// CALL a16 pushes the address after its operand and jumps; a RET with the
/// stack as the CALL left it (in plain RAM) comes back to that address with
/// SP restored: 24 T-cycles, then 16.
pub proof fn law_call_then_ret(cpu: Cpu, bus: BusModel)
    requires
        bus.wf(),
        crate::bus::is_plain_ram(add16w(cpu.sp, -1)),
        crate::bus::is_plain_ram(add16w(cpu.sp, -2)),
    ensures
        ({
            let (target, after_operand) = cpu.fetch16_spec(bus);
            let (c1, b1, n1) = cpu.execute_spec(bus, 0xCD);
            let (c2, b2, n2) = c1.execute_spec(b1, 0xC9);
            &&& n1 == Some(24u8)
            &&& c1.pc == target
            &&& n2 == Some(16u8)
            &&& c2.pc == after_operand.pc
            &&& c2.sp == cpu.sp
            &&& b2 == b1
        }),
{
    reveal(Cpu::execute_spec);
    let (target, c0) = cpu.fetch16_spec(bus);
    law_push_then_pop(c0, bus, c0.pc);
}

/// CALL then a later RET: whatever runs in between, once SP is back where the
/// CALL left it and the two stack bytes it pushed are as it left them (the
/// code in between is balanced), RET takes 16 T-cycles and resumes after the
/// CALL's operand with SP where it was before the CALL.
pub proof fn law_ret_after_balanced_code(cpu: Cpu, bus: BusModel, later: Cpu, later_bus: BusModel)
    requires
        bus.wf(),
        crate::bus::is_plain_ram(add16w(cpu.sp, -1)),
        crate::bus::is_plain_ram(add16w(cpu.sp, -2)),
        ({
            let (called, b1, _) = cpu.execute_spec(bus, 0xCD);
            &&& later.sp == called.sp
            &&& later_bus.read_spec(called.sp) == b1.read_spec(called.sp)
            &&& later_bus.read_spec(add16w(called.sp, 1)) == b1.read_spec(add16w(called.sp, 1))
        }),
    ensures
        ({
            let (_, after_operand) = cpu.fetch16_spec(bus);
            let (returned, rb, cycles) = later.execute_spec(later_bus, 0xC9);
            &&& cycles == Some(16u8)
            &&& returned.pc == after_operand.pc
            &&& returned.sp == cpu.sp
            &&& rb == later_bus
        }),
{
    law_call_then_ret(cpu, bus);
    reveal(Cpu::execute_spec);
}

/// A word is its high byte times 256 plus its low byte.
proof fn lemma_word_value(h: u8, l: u8, v: u16)
    ensures
        word(h, l) as int == h as int * 256 + l as int,
        high(v) as int * 256 + low(v) as int == v as int,
{
}

/// What an indirect load does to the CPU and bus, as the pair operations state it.
proof fn lemma_indirect_effect(cpu: Cpu, bus: BusModel, op: u8)
    requires
        op < 0x40,
        op % 16 == 2 || op % 16 == 0xA,
    ensures
        ({
            let (c, b, n) = cpu.pair_ops_spec(bus, op);
            let rr = op / 16;
            let r = cpu.regs;
            let address = if rr == 0 { r.bc_spec() } else if rr == 1 { r.de_spec() } else { r.hl_spec() };
            let moved = if rr == 2 {
                cpu.with_pair(2, add16w(address, 1))
            } else if rr == 3 {
                cpu.with_pair(2, add16w(address, -1))
            } else {
                cpu
            };
            &&& n == 8
            &&& op % 16 == 2 ==> c == moved && b == bus.write_spec(address, r.a)
            &&& op % 16 == 0xA ==> c == moved.with_reg8(7, bus.read_spec(address)) && b == bus
        }),
{
}

proof fn lemma_decode_indirect(cpu: Cpu, bus: BusModel, op: u8)
    requires
        op < 0x40,
        op % 16 == 2 || op % 16 == 0xA,
    ensures
        ({
            let (c, b, n) = cpu.pair_ops_spec(bus, op);
            cpu.execute_spec(bus, op) == (c, b, Some(n))
        }),
{
    reveal(Cpu::execute_spec);
}

/// The indirect loads LD (BC),A / LD (DE),A / LD (HL+),A / LD (HL-),A
/// (0x02, 0x12, 0x22, 0x32) and LD A,(BC) / LD A,(DE) / LD A,(HL+) /
/// LD A,(HL-) (0x0A, 0x1A, 0x2A, 0x3A): each takes 8 T-cycles and moves A to
/// or from the byte the pair points at; the HL+ forms then add 1 to HL and the
/// HL- forms subtract 1, wrapping at 16 bits. Nothing else changes; a store
/// to plain RAM reads back as A.
#[verifier::spinoff_prover]
#[verifier::rlimit(60)]
pub proof fn law_indirect_loads(cpu: Cpu, bus: BusModel, op: u8)
    requires
        bus.wf(),
        op < 0x40,
        op % 16 == 2 || op % 16 == 0xA,
    ensures
        ({
            let (c, b, n) = cpu.execute_spec(bus, op);
            let rr = op / 16;
            let r = cpu.regs;
            let bc = r.b as int * 256 + r.c as int;
            let de = r.d as int * 256 + r.e as int;
            let hl = r.h as int * 256 + r.l as int;
            let address = if rr == 0 { bc } else if rr == 1 { de } else { hl };
            let new_hl = c.regs.h as int * 256 + c.regs.l as int;
            &&& n == Some(8u8)
            &&& rr == 2 ==> new_hl == (hl + 1) % 65536
            &&& rr == 3 ==> new_hl == (hl + 65535) % 65536
            &&& rr < 2 ==> new_hl == hl
            &&& c.regs.b == r.b && c.regs.c == r.c && c.regs.d == r.d && c.regs.e == r.e && c.regs.f == r.f
            &&& c.sp == cpu.sp && c.pc == cpu.pc
            &&& op % 16 == 2 ==> c.regs.a == r.a && b == bus.write_spec(address as u16, r.a)
            &&& op % 16 == 2 && crate::bus::is_plain_ram(address as u16) ==> b.read_spec(address as u16) == r.a
            &&& op % 16 == 0xA ==> c.regs.a == bus.read_spec(address as u16) && b == bus
        }),
{
    lemma_decode_indirect(cpu, bus, op);
    lemma_indirect_effect(cpu, bus, op);
    let r = cpu.regs;
    let hl = r.hl_spec();
    lemma_word_value(r.b, r.c, 0);
    lemma_word_value(r.d, r.e, 0);
    lemma_word_value(r.h, r.l, add16w(hl, 1));
    lemma_word_value(r.h, r.l, add16w(hl, -1));
    let rr = op / 16;
    let address = if rr == 0 { r.bc_spec() } else if rr == 1 { r.de_spec() } else { hl };
    if op % 16 == 2 && crate::bus::is_plain_ram(address) {
        crate::bus::law_ram_reads_back(bus, address, r.a);
    }
}

proof fn lemma_decode_alu(cpu: Cpu, bus: BusModel, op: u8)
    requires
        0x80 <= op < 0xC0,
    ensures
        ({
            let (c, b, n) = cpu.alu_block_spec(bus, op);
            cpu.execute_spec(bus, op) == (c, b, Some(n))
        }),
{
    reveal(Cpu::execute_spec);
}

/// The ALU block 0x80..=0xBF combines A with the operand `v` of code op % 8
/// (B C D E H L (HL) A): ADD, ADC, SUB, SBC, AND, XOR, OR and CP by bits
/// 3 to 5. It takes 4 T-cycles (8 on (HL)) and changes only A and F. The
/// sums wrap at 256 with C for the carry out of bit 7 and H for the carry
/// out of bit 3; the differences wrap too, with C and H for the borrows; CP
/// sets the flags of SUB and keeps A. AND sets H, XOR and OR clear it, and
/// none of the three sets C. Z says whether the result is 0, N whether the
/// operation subtracts, and the low nibble of F stays 0.
#[verifier::spinoff_prover]
#[verifier::rlimit(60)]
pub proof fn law_alu_operations(cpu: Cpu, bus: BusModel, op: u8)
    requires
        0x80 <= op < 0xC0,
    ensures
        ({
            let (c, b, n) = cpu.execute_spec(bus, op);
            let kind = (op / 8) % 8;
            let v8 = cpu.operand(bus, op % 8);
            let a = cpu.regs.a as int;
            let v = v8 as int;
            let cin: int = if cpu.regs.f & FLAG_C == FLAG_C { 1 } else { 0 };
            let carry_in: int = if kind == 1 || kind == 3 { cin } else { 0 };
            let result = c.regs.a as int;
            let f = c.regs.f;
            let z = f & FLAG_Z == FLAG_Z;
            let sub = f & FLAG_N == FLAG_N;
            let half = f & FLAG_H == FLAG_H;
            let carry = f & FLAG_C == FLAG_C;
            &&& n == Some(if op % 8 == 6 { 8u8 } else { 4u8 })
            &&& b == bus
            &&& c == (Cpu { regs: Registers { a: c.regs.a, f, ..cpu.regs }, ..cpu })
            &&& f & 0x0F == 0
            &&& kind <= 1 ==> {
                &&& result == (a + v + carry_in) % 256
                &&& z == (result == 0) && !sub
                &&& half == (a % 16 + v % 16 + carry_in > 15)
                &&& carry == (a + v + carry_in > 255)
            }
            &&& (kind == 2 || kind == 3) ==> {
                &&& result == (a - v - carry_in + 512) % 256
                &&& z == (result == 0) && sub
                &&& half == (a % 16 - v % 16 - carry_in < 0)
                &&& carry == (a - v - carry_in < 0)
            }
            &&& kind == 7 ==> {
                &&& result == a
                &&& z == (a == v) && sub
                &&& half == (a % 16 < v % 16)
                &&& carry == (a < v)
            }
            &&& kind == 4 ==> c.regs.a == cpu.regs.a & v8 && z == (result == 0) && !sub && half && !carry
            &&& kind == 5 ==> c.regs.a == cpu.regs.a ^ v8 && z == (result == 0) && !sub && !half && !carry
            &&& kind == 6 ==> c.regs.a == cpu.regs.a | v8 && z == (result == 0) && !sub && !half && !carry
        }),
{
    lemma_decode_alu(cpu, bus, op);
    let kind = (op / 8) % 8;
    let v = cpu.operand(bus, op % 8);
    let a = cpu.regs.a;
    let cb = cpu.carry_bit();
    if kind == 0 {
        let r = ((a + v) % 256) as u8;
        crate::cpu::lemma_flags_byte(r == 0, false, a % 16 + v % 16 > 15, a + v > 255);
    } else if kind == 1 {
        let r = ((a + v + cb) % 256) as u8;
        crate::cpu::lemma_flags_byte(r == 0, false, a % 16 + v % 16 + cb > 15, a + v + cb > 255);
    } else if kind == 2 || kind == 7 {
        crate::cpu::lemma_flags_byte(a == v, true, a % 16 < v % 16, a < v);
    } else if kind == 3 {
        let r = ((a - v - cb + 512) % 256) as u8;
        crate::cpu::lemma_flags_byte(r == 0, true, a % 16 < v % 16 + cb, a < v + cb);
    } else if kind == 4 {
        crate::cpu::lemma_flags_byte(a & v == 0, false, true, false);
    } else if kind == 5 {
        crate::cpu::lemma_flags_byte(a ^ v == 0, false, false, false);
    } else {
        crate::cpu::lemma_flags_byte(a | v == 0, false, false, false);
    }
}

proof fn lemma_decode_low(cpu: Cpu, bus: BusModel, op: u8)
    requires
        op < 0x40,
    ensures
        ({
            let (c, b, n) = cpu.low_block_spec(bus, op);
            cpu.execute_spec(bus, op) == (c, b, Some(n))
        }),
{
    reveal(Cpu::execute_spec);
}

/// INC r and DEC r (0x04, 0x0C, .., 0x3D; r = op / 8 in B C D E H L (HL) A)
/// add or subtract 1, wrapping at 256, in 4 T-cycles (12 on (HL)). Z says
/// whether the result is 0, N whether it was DEC, H whether a borrow or carry
/// crossed bit 3; C stays as it was, and so do SP, PC and the other registers.
/// With (HL) in plain RAM the operand reads back as left.
#[verifier::spinoff_prover]
#[verifier::rlimit(60)]
pub proof fn law_inc_dec(cpu: Cpu, bus: BusModel, op: u8)
    requires
        bus.wf(),
        op < 0x40,
        op % 8 == 4 || op % 8 == 5,
        op / 8 == 6 ==> crate::bus::is_plain_ram(cpu.regs.hl_spec()),
    ensures
        ({
            let (c, b, n) = cpu.execute_spec(bus, op);
            let r = op / 8;
            let v = cpu.operand(bus, r) as int;
            let after = c.operand(b, r) as int;
            let f = c.regs.f;
            &&& n == Some(if r == 6 { 12u8 } else { 4u8 })
            &&& c.sp == cpu.sp && c.pc == cpu.pc
            &&& forall|j: u8| j < 8 && j != 6 && j != r ==> #[trigger] c.reg8(j) == cpu.reg8(j)
            &&& (f & FLAG_C == FLAG_C) == (cpu.regs.f & FLAG_C == FLAG_C)
            &&& (f & FLAG_Z == FLAG_Z) == (after == 0)
            &&& op % 8 == 4 ==> {
                &&& after == (v + 1) % 256
                &&& f & FLAG_N != FLAG_N
                &&& (f & FLAG_H == FLAG_H) == (v % 16 == 15)
            }
            &&& op % 8 == 5 ==> {
                &&& after == (v + 255) % 256
                &&& f & FLAG_N == FLAG_N
                &&& (f & FLAG_H == FLAG_H) == (v % 16 == 0)
            }
        }),
{
    lemma_decode_low(cpu, bus, op);
    let r = op / 8;
    let v = cpu.operand(bus, r);
    let carry = cpu.regs.flags_set(FLAG_C);
    let result = if op % 8 == 4 { ((v + 1) % 256) as u8 } else { ((v + 255) % 256) as u8 };
    if op % 8 == 4 {
        crate::cpu::lemma_flags_byte(v == 255, false, v % 16 == 15, carry);
    } else {
        crate::cpu::lemma_flags_byte(v == 1, true, v % 16 == 0, carry);
    }
    if r == 6 {
        crate::bus::law_ram_reads_back(bus, cpu.regs.hl_spec(), result);
    }
}

/// JR e and JR NZ/Z/NC/C,e (0x18, 0x20, 0x28, 0x30, 0x38) read the signed
/// offset e at PC. Taken (always for 0x18; for the others when Z is clear,
/// Z set, C clear, C set), they jump to the address after the instruction
/// plus e, wrapping at 16 bits, in 12 T-cycles; else they go on after the
/// instruction in 8. Registers, SP and the bus are left alone.
#[verifier::spinoff_prover]
#[verifier::rlimit(60)]
pub proof fn law_relative_jumps(cpu: Cpu, bus: BusModel, op: u8)
    requires
        op == 0x18 || op == 0x20 || op == 0x28 || op == 0x30 || op == 0x38,
    ensures
        ({
            let (c, b, n) = cpu.execute_spec(bus, op);
            let byte = bus.read_spec(cpu.pc) as int;
            let e: int = if byte >= 128 { byte - 256 } else { byte };
            let next = (cpu.pc + 1) % 65536;
            let z = cpu.regs.f & FLAG_Z == FLAG_Z;
            let carry = cpu.regs.f & FLAG_C == FLAG_C;
            let taken = if op == 0x18 {
                true
            } else if op == 0x20 {
                !z
            } else if op == 0x28 {
                z
            } else if op == 0x30 {
                !carry
            } else {
                carry
            };
            &&& b == bus
            &&& c.regs == cpu.regs && c.sp == cpu.sp
            &&& taken ==> n == Some(12u8) && c.pc as int == (next + e + 65536) % 65536
            &&& !taken ==> n == Some(8u8) && c.pc as int == next
        }),
{
    lemma_decode_low(cpu, bus, op);
    let (byte, c1) = cpu.fetch8_spec(bus);
    lemma_signed_offset(byte, cpu.pc);
    assert(c1.pc as int == (cpu.pc + 1) % 65536);
    assert(c1.condition((op / 8) % 4) == (if op == 0x20 {
        !cpu.regs.flags_set(FLAG_Z)
    } else if op == 0x28 {
        cpu.regs.flags_set(FLAG_Z)
    } else if op == 0x30 {
        !cpu.regs.flags_set(FLAG_C)
    } else {
        cpu.regs.flags_set(FLAG_C)
    }));
}

proof fn lemma_decode_pair_ops(cpu: Cpu, bus: BusModel, op: u8)
    requires
        op < 0x40,
        op % 16 == 3 || op % 16 == 0xB || op % 16 == 9,
    ensures
        ({
            let (c, b, n) = cpu.pair_ops_spec(bus, op);
            cpu.execute_spec(bus, op) == (c, b, Some(n))
        }),
{
    lemma_decode_low(cpu, bus, op);
}

/// The pair of code rr (BC DE HL SP) as a number.
pub open spec fn pair_value(cpu: Cpu, rr: u8) -> int {
    if rr == 0 {
        cpu.regs.b as int * 256 + cpu.regs.c as int
    } else if rr == 1 {
        cpu.regs.d as int * 256 + cpu.regs.e as int
    } else if rr == 2 {
        cpu.regs.h as int * 256 + cpu.regs.l as int
    } else {
        cpu.sp as int
    }
}

/// INC rr and DEC rr (columns 3 and B of 0x00..=0x3F, with rr = op / 16 in
/// BC DE HL SP) add or subtract 1 from the pair, wrapping at 16 bits, in 8
/// T-cycles, and change nothing else: the other pairs, A, the flags, PC and
/// the bus stay as they were.
#[verifier::spinoff_prover]
#[verifier::rlimit(60)]
pub proof fn law_pair_increments(cpu: Cpu, bus: BusModel, op: u8)
    requires
        op < 0x40,
        op % 16 == 3 || op % 16 == 0xB,
    ensures
        ({
            let (c, b, n) = cpu.execute_spec(bus, op);
            let rr = op / 16;
            let value = pair_value(cpu, rr);
            &&& n == Some(8u8) && b == bus
            &&& c.pc == cpu.pc && c.regs.a == cpu.regs.a && c.regs.f == cpu.regs.f
            &&& op % 16 == 3 ==> pair_value(c, rr) == (value + 1) % 65536
            &&& op % 16 == 0xB ==> pair_value(c, rr) == (value + 65535) % 65536
            &&& forall|j: u8| j < 4 && j != rr ==> #[trigger] pair_value(c, j) == pair_value(cpu, j)
        }),
{
    lemma_decode_pair_ops(cpu, bus, op);
    let rr = op / 16;
    let v = cpu.pair(rr);
    let r = cpu.regs;
    let next = if op % 16 == 3 { add16w(v, 1) } else { add16w(v, -1) };
    let (c, b, n) = cpu.pair_ops_spec(bus, op);
    assert(c == cpu.with_pair(rr, next));
    assert(v as int == pair_value(cpu, rr)) by {
        lemma_word_value(r.b, r.c, next);
        lemma_word_value(r.d, r.e, next);
        lemma_word_value(r.h, r.l, next);
    }
    assert(pair_value(c, rr) == next as int) by {
        lemma_word_value(r.b, r.c, next);
    }
    assert(op % 16 == 3 ==> next as int == (v + 1) % 65536);
    assert(op % 16 == 0xB ==> next as int == (v + 65535) % 65536);
}

/// ADD HL,rr (column 9 of 0x00..=0x3F, with rr = op / 16 in BC DE HL SP)
/// puts HL plus the pair, wrapping at 16 bits, into HL in 8 T-cycles. H says
/// whether the sum carried out of bit 11 and C out of bit 15, N is cleared
/// and Z kept; A, BC, DE, SP, PC and the bus stay as they were.
#[verifier::spinoff_prover]
#[verifier::rlimit(60)]
pub proof fn law_add_hl(cpu: Cpu, bus: BusModel, op: u8)
    requires
        op < 0x40,
        op % 16 == 9,
    ensures
        ({
            let (c, b, n) = cpu.execute_spec(bus, op);
            let hl = pair_value(cpu, 2);
            let value = pair_value(cpu, op / 16);
            let f = c.regs.f;
            &&& n == Some(8u8) && b == bus
            &&& pair_value(c, 2) == (hl + value) % 65536
            &&& (f & FLAG_Z == FLAG_Z) == (cpu.regs.f & FLAG_Z == FLAG_Z)
            &&& f & FLAG_N != FLAG_N
            &&& (f & FLAG_H == FLAG_H) == (hl % 4096 + value % 4096 > 4095)
            &&& (f & FLAG_C == FLAG_C) == (hl + value > 65535)
            &&& f & 0x0F == 0
            &&& c.regs.a == cpu.regs.a && c.pc == cpu.pc
            &&& pair_value(c, 0) == pair_value(cpu, 0) && pair_value(c, 1) == pair_value(cpu, 1)
            &&& pair_value(c, 3) == pair_value(cpu, 3)
        }),
{
    lemma_decode_pair_ops(cpu, bus, op);
    let r = cpu.regs;
    let v = cpu.pair(op / 16);
    let hl = r.hl_spec();
    lemma_word_value(r.b, r.c, 0);
    lemma_word_value(r.d, r.e, 0);
    lemma_word_value(r.h, r.l, ((hl + v) % 65536) as u16);
    crate::cpu::lemma_flags_byte(r.flags_set(FLAG_Z), false, hl % 4096 + v % 4096 > 4095, hl + v > 65535);
}

/// LD r,r' (0x40..=0x7F but 0x76, with r = bits 3 to 5 and r' = bits 0 to 2
/// in B C D E H L (HL) A) copies the operand r' into r in 4 T-cycles (8 when
/// either is (HL)) and changes nothing else: flags, SP and PC stay, and a
/// register load leaves the bus alone. With (HL) in plain RAM a store there
/// reads back as the copied byte.
#[verifier::spinoff_prover]
#[verifier::rlimit(60)]
pub proof fn law_register_loads(cpu: Cpu, bus: BusModel, op: u8)
    requires
        bus.wf(),
        0x40 <= op < 0x80,
        op != 0x76,
        (op / 8) % 8 == 6 ==> crate::bus::is_plain_ram(cpu.regs.hl_spec()),
    ensures
        ({
            let (c, b, n) = cpu.execute_spec(bus, op);
            let dst = (op / 8) % 8;
            let src = op % 8;
            &&& n == Some(if src == 6 || dst == 6 { 8u8 } else { 4u8 })
            &&& c.operand(b, dst) == cpu.operand(bus, src)
            &&& forall|j: u8| j < 8 && j != 6 && j != dst ==> #[trigger] c.reg8(j) == cpu.reg8(j)
            &&& c.regs.f == cpu.regs.f && c.sp == cpu.sp && c.pc == cpu.pc && c.halted == cpu.halted
            &&& dst != 6 ==> b == bus
        }),
{
    reveal(Cpu::execute_spec);
    let dst = (op / 8) % 8;
    if dst == 6 {
        crate::bus::law_ram_reads_back(bus, cpu.regs.hl_spec(), cpu.operand(bus, op % 8));
    }
}

proof fn lemma_decode_high_a(cpu: Cpu, bus: BusModel, op: u8)
    requires
        op >= 0xC0,
        op % 8 < 4,
        op != 0xCB,
        is_defined_opcode(op),
    ensures
        ({
            let (c, b, n) = cpu.high_a_spec(bus, op);
            cpu.execute_spec(bus, op) == (c, b, Some(n))
        }),
{
    reveal(Cpu::execute_spec);
}

proof fn lemma_decode_high_b(cpu: Cpu, bus: BusModel, op: u8)
    requires
        op >= 0xC0,
        op % 8 >= 4,
        is_defined_opcode(op),
    ensures
        ({
            let (c, b, n) = cpu.high_b_spec(bus, op);
            cpu.execute_spec(bus, op) == (c, b, Some(n))
        }),
{
    reveal(Cpu::execute_spec);
}

/// JP a16 (0xC3) and JP NZ/Z/NC/C,a16 (0xC2, 0xCA, 0xD2, 0xDA) read the
/// target at PC, low byte first. Taken (always for 0xC3; for the others when
/// Z is clear, Z set, C clear, C set) they jump there in 16 T-cycles; else
/// they go on after the two bytes in 12. Registers, SP and the bus stay.
#[verifier::spinoff_prover]
pub proof fn law_absolute_jumps(cpu: Cpu, bus: BusModel, op: u8)
    requires
        op == 0xC3 || op == 0xC2 || op == 0xCA || op == 0xD2 || op == 0xDA,
    ensures
        ({
            let (c, b, n) = cpu.execute_spec(bus, op);
            let target = bus.read_spec(cpu.pc) as int + 256 * bus.read_spec(((cpu.pc + 1) % 65536) as u16) as int;
            let z = cpu.regs.f & FLAG_Z == FLAG_Z;
            let carry = cpu.regs.f & FLAG_C == FLAG_C;
            let taken = if op == 0xC3 {
                true
            } else if op == 0xC2 {
                !z
            } else if op == 0xCA {
                z
            } else if op == 0xD2 {
                !carry
            } else {
                carry
            };
            &&& b == bus
            &&& c.regs == cpu.regs && c.sp == cpu.sp
            &&& taken ==> n == Some(16u8) && c.pc as int == target
            &&& !taken ==> n == Some(12u8) && c.pc as int == (cpu.pc + 2) % 65536
        }),
{
    lemma_decode_high_a(cpu, bus, op);
    let (target, c2) = cpu.fetch16_spec(bus);
    let (lo, c1) = cpu.fetch8_spec(bus);
    let (hi, c3) = c1.fetch8_spec(bus);
    assert(c1.pc as int == (cpu.pc + 1) % 65536);
    assert(c2.pc as int == (cpu.pc + 2) % 65536);
    assert(target as int == lo as int + 256 * hi as int) by {
        lemma_word_value(hi, lo, 0);
    }
    let taken = op == 0xC3 || c2.condition((op / 8) % 4);
    assert(cpu.high_a_spec(bus, op) == if taken {
        (Cpu { pc: target, ..c2 }, bus, 16u8)
    } else {
        (c2, bus, 12u8)
    });
}

/// RST n (0xC7, 0xCF, .., 0xFF) pushes the address after it, high byte at
/// SP - 1 and low byte at SP - 2, and jumps to op - 0xC7 (0x00, 0x08, ..,
/// 0x38) in 16 T-cycles; SP drops by 2, wrapping at 16 bits, and the
/// registers stay.
#[verifier::spinoff_prover]
pub proof fn law_restarts(cpu: Cpu, bus: BusModel, op: u8)
    requires
        op >= 0xC0,
        op % 8 == 7,
    ensures
        ({
            let (c, b, n) = cpu.execute_spec(bus, op);
            let sp1 = ((cpu.sp + 65535) % 65536) as u16;
            let sp2 = ((cpu.sp + 65534) % 65536) as u16;
            &&& n == Some(16u8)
            &&& c.pc == op - 0xC7
            &&& c.sp == sp2
            &&& c.regs == cpu.regs
            &&& b == bus.write_spec(sp1, (cpu.pc / 256) as u8).write_spec(sp2, (cpu.pc % 256) as u8)
        }),
{
    lemma_decode_high_b(cpu, bus, op);
    crate::bits::lemma_u8_bits(op);
    let (c, b) = cpu.call_spec(bus, (op & 0x38) as u16);
    assert(cpu.high_b_spec(bus, op) == (c, b, 16u8));
}

/// The accumulator operations of column 7 but DAA, in 4 T-cycles each on A
/// `a` and carry `cin`: RLCA (0x07) rotates A left and RRCA (0x0F) right,
/// RLA (0x17) and RRA (0x1F) rotate through the carry, each with C for the
/// bit rotated out and Z, N, H cleared; CPL (0x2F) inverts A and sets N and
/// H; SCF (0x37) sets C and CCF (0x3F) inverts it, both clearing N and H.
/// CPL, SCF and CCF keep Z, and only A and F ever change.
#[verifier::spinoff_prover]
pub proof fn law_accumulator_ops(cpu: Cpu, bus: BusModel, op: u8)
    requires
        op < 0x40,
        op % 8 == 7,
        op != 0x27,
    ensures
        ({
            let (c, b, n) = cpu.execute_spec(bus, op);
            let a = cpu.regs.a as int;
            let cin: int = if cpu.regs.f & FLAG_C == FLAG_C { 1 } else { 0 };
            let result = c.regs.a as int;
            let f = c.regs.f;
            let z = f & FLAG_Z == FLAG_Z;
            let sub = f & FLAG_N == FLAG_N;
            let half = f & FLAG_H == FLAG_H;
            let carry = f & FLAG_C == FLAG_C;
            &&& n == Some(4u8) && b == bus
            &&& c == (Cpu { regs: Registers { a: c.regs.a, f, ..cpu.regs }, ..cpu })
            &&& f & 0x0F == 0
            &&& op <= 0x1F ==> !z && !sub && !half
            &&& op == 0x07 ==> result == (2 * a) % 256 + a / 128 && carry == (a >= 128)
            &&& op == 0x0F ==> result == a / 2 + 128 * (a % 2) && carry == (a % 2 == 1)
            &&& op == 0x17 ==> result == (2 * a) % 256 + cin && carry == (a >= 128)
            &&& op == 0x1F ==> result == a / 2 + 128 * cin && carry == (a % 2 == 1)
            &&& op >= 0x2F ==> z == (cpu.regs.f & FLAG_Z == FLAG_Z)
            &&& op == 0x2F ==> result == 255 - a && sub && half && carry == (cin == 1)
            &&& op == 0x37 ==> result == a && !sub && !half && carry
            &&& op == 0x3F ==> result == a && !sub && !half && carry == (cin == 0)
        }),
{
    lemma_decode_low(cpu, bus, op);
    let a = cpu.regs.a;
    let zf = cpu.regs.flags_set(FLAG_Z);
    let cf = cpu.regs.flags_set(FLAG_C);
    assert(cpu.low_block_spec(bus, op) == (cpu.accumulator_ops_spec(op), bus, 4u8));
    if op == 0x07 || op == 0x17 {
        crate::cpu::lemma_flags_byte(false, false, false, top(a));
    } else if op == 0x0F || op == 0x1F {
        crate::cpu::lemma_flags_byte(false, false, false, bottom(a));
    } else if op == 0x2F {
        crate::cpu::lemma_flags_byte(zf, true, true, cf);
    } else if op == 0x37 {
        crate::cpu::lemma_flags_byte(zf, false, false, true);
    } else {
        crate::cpu::lemma_flags_byte(zf, false, false, !cf);
    }
}

/// The high-page loads reach 0xFF00 plus an offset: LDH (a8),A (0xE0) and
/// LDH A,(a8) (0xF0) take the offset from the byte at PC, in 12 T-cycles;
/// LD (C),A (0xE2) and LD A,(C) (0xF2) take it from C, in 8. A store writes
/// A there and changes no register; a load sets A to what the bus reads
/// there and leaves the bus alone. Only PC past an operand byte changes
/// besides.
#[verifier::spinoff_prover]
pub proof fn law_high_page_loads(cpu: Cpu, bus: BusModel, op: u8)
    requires
        op == 0xE0 || op == 0xF0 || op == 0xE2 || op == 0xF2,
    ensures
        ({
            let (c, b, n) = cpu.execute_spec(bus, op);
            let immediate = op == 0xE0 || op == 0xF0;
            let offset = if immediate { bus.read_spec(cpu.pc) as int } else { cpu.regs.c as int };
            let address = (0xFF00 + offset) as u16;
            &&& n == Some(if immediate { 12u8 } else { 8u8 })
            &&& c.pc as int == if immediate { (cpu.pc + 1) % 65536 } else { cpu.pc as int }
            &&& c.sp == cpu.sp
            &&& op == 0xE0 || op == 0xE2 ==> c.regs == cpu.regs && b == bus.write_spec(address, cpu.regs.a)
            &&& op == 0xF0 || op == 0xF2 ==> c.regs == (Registers { a: bus.read_spec(address), ..cpu.regs })
                && b == bus
        }),
{
    lemma_decode_high_a(cpu, bus, op);
}

proof fn lemma_sp_offset_effect(cpu: Cpu, bus: BusModel, op: u8)
    requires
        op == 0xE8 || op == 0xF8,
    ensures
        ({
            let (byte, c1) = cpu.fetch8_spec(bus);
            let offset = byte as i8;
            let f = c1.sp_plus_flags(offset);
            &&& op == 0xE8 ==> cpu.execute_spec(bus, op) == (Cpu { sp: c1.sp_plus(offset), ..c1.with_f(f) }, bus, Some(16u8))
            &&& op == 0xF8 ==> cpu.execute_spec(bus, op) == (c1.with_f(f).with_pair(2, c1.sp_plus(offset)), bus, Some(12u8))
        }),
{
    lemma_decode_high_a(cpu, bus, op);
}

/// ADD SP,e (0xE8, 16 T-cycles) and LD HL,SP+e (0xF8, 12) add the signed
/// byte e at PC to SP, wrapping at 16 bits; the first puts the sum in SP,
/// the second in HL. Z and N are cleared, H says whether the low nibbles of
/// SP and the byte carry and C whether their low bytes do. A, BC and DE stay.
#[verifier::spinoff_prover]
pub proof fn law_stack_pointer_offsets(cpu: Cpu, bus: BusModel, op: u8)
    requires
        op == 0xE8 || op == 0xF8,
    ensures
        ({
            let (c, b, n) = cpu.execute_spec(bus, op);
            let byte = bus.read_spec(cpu.pc) as int;
            let e: int = if byte >= 128 { byte - 256 } else { byte };
            let sum = (cpu.sp + e + 65536) % 65536;
            let f = c.regs.f;
            &&& b == bus
            &&& c.pc as int == (cpu.pc + 1) % 65536
            &&& f & FLAG_Z != FLAG_Z && f & FLAG_N != FLAG_N && f & 0x0F == 0
            &&& (f & FLAG_H == FLAG_H) == (cpu.sp % 16 + byte % 16 > 15)
            &&& (f & FLAG_C == FLAG_C) == (cpu.sp % 256 + byte > 255)
            &&& c.regs.a == cpu.regs.a && pair_value(c, 0) == pair_value(cpu, 0) && pair_value(c, 1) == pair_value(cpu, 1)
            &&& op == 0xE8 ==> n == Some(16u8) && c.sp as int == sum && pair_value(c, 2) == pair_value(cpu, 2)
            &&& op == 0xF8 ==> n == Some(12u8) && c.sp == cpu.sp && pair_value(c, 2) == sum
        }),
{
    lemma_sp_offset_effect(cpu, bus, op);
    let (byte, c1) = cpu.fetch8_spec(bus);
    lemma_signed_offset(byte, cpu.pc);
    let offset = byte as i8;
    let value = ((offset + 65536) % 65536) as u16;
    assert(value % 16 == byte % 16 && value % 256 == byte as int);
    let r = c1.regs;
    assert(c1.pc as int == (cpu.pc + 1) % 65536);
    lemma_word_value(r.h, r.l, c1.sp_plus(offset));
    crate::cpu::lemma_flags_byte(false, false, cpu.sp % 16 + value % 16 > 15, cpu.sp % 256 + value % 256 > 255);
}

} // verus!
