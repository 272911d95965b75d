use vstd::prelude::*;
use crate::bus::{Bus, BusModel};
use crate::cpu::{Cpu, FLAG_C, FLAG_H, FLAG_N, FLAG_Z};

verus! {

/// A byte with bit `b` cleared.
pub open spec fn res_bit(v: u8, b: u8) -> u8 {
    v & !((1u8 << b) as u8)
}

/// A byte with bit `b` set.
pub open spec fn set_bit(v: u8, b: u8) -> u8 {
    v | ((1u8 << b) as u8)
}

impl Cpu {
    /// A CB-prefixed instruction: bits 7..3 pick the operation (the eight
    /// shifts and rotates, then BIT, RES and SET for each bit), bits 2..0 the
    /// operand.
    pub open spec fn execute_cb_spec(self, bus: BusModel, cb: u8) -> (Cpu, BusModel, u8) {
        let op = cb / 8;
        let r = cb % 8;
        let v = self.operand(bus, r);
        let mem = r == 6;
        if op < 8 {
            let (c, b) = self.with_f(self.shift_flags(op, v)).store_operand(bus, r, self.shift_result(op, v));
            (c, b, if mem { 16 } else { 8 })
        } else if op < 16 {
            (self.with_f(self.bit8_flags((op - 8) as u8, v)), bus, if mem { 12 } else { 8 })
        } else if op < 24 {
            let (c, b) = self.store_operand(bus, r, res_bit(v, (op - 16) as u8));
            (c, b, if mem { 16 } else { 8 })
        } else {
            let (c, b) = self.store_operand(bus, r, set_bit(v, (op - 24) as u8));
            (c, b, if mem { 16 } else { 8 })
        }
    }
}


impl Cpu {
    fn shift_op(&mut self, op: u8, v: u8) -> (r: u8)
        requires
            op < 8,
        ensures
            r == old(self).shift_result(op, v),
            *final(self) == old(self).with_f(old(self).shift_flags(op, v)),
    {
        if op == 0 {
            self.rlc8(v)
        } else if op == 1 {
            self.rrc8(v)
        } else if op == 2 {
            self.rl8(v)
        } else if op == 3 {
            self.rr8(v)
        } else if op == 4 {
            self.sla8(v)
        } else if op == 5 {
            self.sra8(v)
        } else if op == 6 {
            self.swap8(v)
        } else {
            self.srl8(v)
        }
    }

    /// Runs a CB-prefixed instruction (the byte after 0xCB) and returns its T-cycles.
    pub fn execute_cb(&mut self, cb_opcode: u8, bus: &mut Bus) -> (r: u8)
        requires
            old(bus).wf(),
        ensures
            4 <= r <= 24 && r % 4 == 0,
            (*final(self), final(bus)@, r) == old(self).execute_cb_spec(old(bus)@, cb_opcode),
            final(bus).wf(),
    {
        let op = cb_opcode / 8;
        let r = cb_opcode % 8;
        let v = self.read_operand(bus, r);
        let mem = r == 6;
        if op < 8 {
            let result = self.shift_op(op, v);
            self.write_operand(bus, r, result);
            if mem { 16 } else { 8 }
        } else if op < 16 {
            self.bit8(op - 8, v);
            if mem { 12 } else { 8 }
        } else if op < 24 {
            let b = op - 16;
            self.write_operand(bus, r, v & !(1u8 << b));
            if mem { 16 } else { 8 }
        } else {
            let b = op - 24;
            self.write_operand(bus, r, v | (1u8 << b));
            if mem { 16 } else { 8 }
        }
    }
}

/// Every CB-prefixed instruction takes 8 T-cycles on a register, 12 for BIT on
/// (HL) and 16 for the others on (HL); it leaves SP, PC and every register but
/// its operand and F alone. RES clears bit n of the operand and SET sets it,
/// both leaving F alone; BIT changes F only. With (HL) in plain RAM, the
/// operand reads back as the instruction left it.
pub proof fn law_cb_instructions(cpu: Cpu, bus: BusModel, cb: u8)
    requires
        bus.wf(),
        cb % 8 == 6 ==> crate::bus::is_plain_ram(cpu.regs.hl_spec()),
    ensures
        ({
            let (c, b, cycles) = cpu.execute_cb_spec(bus, cb);
            let r = cb % 8;
            let n = (cb / 8) % 8;
            let before = cpu.operand(bus, r);
            let after = c.operand(b, r);
            &&& cycles == if r != 6 { 8u8 } else if 0x40 <= cb < 0x80 { 12u8 } else { 16u8 }
            &&& c.sp == cpu.sp && c.pc == cpu.pc
            &&& c.ime == cpu.ime && c.ime_pending == cpu.ime_pending && c.halted == cpu.halted
            &&& forall|j: u8| j < 8 && j != 6 && j != r ==> #[trigger] c.reg8(j) == cpu.reg8(j)
            &&& 0x40 <= cb < 0x80 ==> b == bus && c == cpu.with_f(c.regs.f)
            &&& 0x80 <= cb < 0xC0 ==> after == res_bit(before, n) && c.regs.f == cpu.regs.f
            &&& 0xC0 <= cb ==> after == set_bit(before, n) && c.regs.f == cpu.regs.f
        }),
{
    let r = cb % 8;
    let (c, b, cycles) = cpu.execute_cb_spec(bus, cb);
    if r == 6 && !(0x40 <= cb < 0x80) {
        let v = if cb < 0x40 {
            cpu.shift_result(cb / 8, cpu.operand(bus, r))
        } else if cb < 0xC0 {
            res_bit(cpu.operand(bus, r), (cb / 8 - 16) as u8)
        } else {
            set_bit(cpu.operand(bus, r), (cb / 8 - 24) as u8)
        };
        crate::bus::law_ram_reads_back(bus, cpu.regs.hl_spec(), v);
    }
}

/// The eight CB shifts and rotates (0x00..=0x3F), by what they do to the
/// operand `v` and the carry `cin` they find: RLC rotates left and RRC right
/// through nothing; RL and RR rotate through the carry; SLA shifts left;
/// SRA shifts right keeping bit 7; SWAP exchanges the nibbles; SRL shifts
/// right bringing in 0. C takes the bit shifted out (SWAP clears it), Z says
/// whether the result is 0, and N and H are clear. With (HL) in plain RAM
/// the operand reads back as left.
pub proof fn law_cb_shifts(cpu: Cpu, bus: BusModel, cb: u8)
    requires
        bus.wf(),
        cb < 0x40,
        cb % 8 == 6 ==> crate::bus::is_plain_ram(cpu.regs.hl_spec()),
    ensures
        ({
            let (c, b, _) = cpu.execute_cb_spec(bus, cb);
            let r = cb % 8;
            let v = cpu.operand(bus, r) as int;
            let cin: int = if cpu.regs.f & FLAG_C == FLAG_C { 1 } else { 0 };
            let after = c.operand(b, r) as int;
            let kind = cb / 8;
            let out: bool = if kind == 6 {
                false
            } else if kind == 0 || kind == 2 || kind == 4 {
                v >= 128
            } else {
                v % 2 == 1
            };
            &&& kind == 0 ==> after == (2 * v) % 256 + v / 128
            &&& kind == 1 ==> after == v / 2 + 128 * (v % 2)
            &&& kind == 2 ==> after == (2 * v) % 256 + cin
            &&& kind == 3 ==> after == v / 2 + 128 * cin
            &&& kind == 4 ==> after == (2 * v) % 256
            &&& kind == 5 ==> after == v / 2 + (if v >= 128 { 128int } else { 0 })
            &&& kind == 6 ==> after == 16 * (v % 16) + v / 16
            &&& kind == 7 ==> after == v / 2
            &&& (c.regs.f & FLAG_C == FLAG_C) == out
            &&& (c.regs.f & FLAG_Z == FLAG_Z) == (after == 0)
            &&& c.regs.f & FLAG_N != FLAG_N
            &&& c.regs.f & FLAG_H != FLAG_H
        }),
{
    let r = cb % 8;
    let op = cb / 8;
    let v = cpu.operand(bus, r);
    let result = cpu.shift_result(op, v);
    crate::cpu::lemma_flags_byte(result == 0, false, false, Cpu::shift_carry(op, v));
    if r == 6 {
        crate::bus::law_ram_reads_back(bus, cpu.regs.hl_spec(), result);
    }
}

} // verus!
