use vstd::prelude::*;
use crate::cpu::{Cpu, Registers, FLAG_C, FLAG_H, FLAG_N, FLAG_Z, flags_byte, word, high, low, bit};

verus! {

/// A byte rotated left by one bit.
pub open spec fn rotl(v: u8) -> u8 {
    ((v as int * 2) % 256 + v as int / 128) as u8
}

/// A byte rotated right by one bit.
pub open spec fn rotr(v: u8) -> u8 {
    (v as int / 2 + (v as int % 2) * 128) as u8
}

/// Bit 7 of a byte.
pub open spec fn top(v: u8) -> bool {
    v >= 128
}

/// Bit 0 of a byte.
pub open spec fn bottom(v: u8) -> bool {
    v % 2 == 1
}

pub fn rotate_left8(v: u8) -> (r: u8)
    ensures
        r == rotl(v),
{
    proof {
        lemma_rot(v);
    }
    v << 1 | v >> 7
}

pub fn rotate_right8(v: u8) -> (r: u8)
    ensures
        r == rotr(v),
{
    proof {
        lemma_rot(v);
    }
    v >> 1 | v << 7
}

proof fn lemma_rot(v: u8)
    ensures
        (v << 1 | v >> 7) == (v * 2) % 256 + v / 128,
        (v >> 1 | v << 7) == v / 2 + (v % 2) * 128,
        v << 1 == (v * 2) % 256,
        v >> 1 == v / 2,
        v & 0x80 != 0 <==> v >= 128,
        v & 0x01 != 0 <==> v % 2 == 1,
{
    assert((v << 1 | v >> 7) == (v * 2) % 256 + v / 128 && (v >> 1 | v << 7) == v / 2 + (v % 2) * 128
        && v << 1 == (v * 2) % 256 && v >> 1 == v / 2 && (v & 0x80 != 0 <==> v >= 128)
        && (v & 0x01 != 0 <==> v % 2 == 1)) by (bit_vector);
}

/// The decimal adjustment that DAA adds to (or subtracts from) A.
pub open spec fn daa_adjust(a: u8, f: u8) -> u8 {
    let subtract = f & FLAG_N == FLAG_N;
    let low = if f & FLAG_H == FLAG_H || (!subtract && a % 16 > 9) {
        0x06u8
    } else {
        0u8
    };
    let high = if f & FLAG_C == FLAG_C || (!subtract && a > 0x99) {
        0x60u8
    } else {
        0u8
    };
    (low + high) as u8
}

impl Cpu {
    // ---- 8-bit arithmetic, always targeting A -------------------------------
    pub open spec fn add8_spec(self, value: u8) -> Cpu {
        let a = self.regs.a;
        let result = ((a + value) % 256) as u8;
        self.with_af(
            result,
            flags_byte(result == 0, false, a % 16 + value % 16 > 15, a + value > 255),
        )
    }

    pub open spec fn adc8_spec(self, value: u8) -> Cpu {
        let a = self.regs.a;
        let carry = self.carry_bit();
        let result = ((a + value + carry) % 256) as u8;
        self.with_af(
            result,
            flags_byte(
                result == 0,
                false,
                a % 16 + value % 16 + carry > 15,
                a + value + carry > 255,
            ),
        )
    }

    pub open spec fn sub8_spec(self, value: u8) -> Cpu {
        let a = self.regs.a;
        self.with_af(
            ((a - value + 256) % 256) as u8,
            flags_byte(a == value, true, a % 16 < value % 16, a < value),
        )
    }

    pub open spec fn sbc8_spec(self, value: u8) -> Cpu {
        let a = self.regs.a;
        let carry = self.carry_bit();
        let result = ((a - value - carry + 512) % 256) as u8;
        self.with_af(
            result,
            flags_byte(result == 0, true, a % 16 < value % 16 + carry, a < value + carry),
        )
    }

    pub open spec fn and8_spec(self, value: u8) -> Cpu {
        let r = self.regs.a & value;
        self.with_af(r, flags_byte(r == 0, false, true, false))
    }

    pub open spec fn or8_spec(self, value: u8) -> Cpu {
        let r = self.regs.a | value;
        self.with_af(r, flags_byte(r == 0, false, false, false))
    }

    pub open spec fn xor8_spec(self, value: u8) -> Cpu {
        let r = self.regs.a ^ value;
        self.with_af(r, flags_byte(r == 0, false, false, false))
    }

    /// CP is SUB with A left as it was.
    pub open spec fn cp8_spec(self, value: u8) -> Cpu {
        self.with_f(self.sub8_spec(value).regs.f)
    }

    // ---- 8-bit arithmetic on any register or (HL) ---------------------------
    pub open spec fn inc8_flags(self, value: u8) -> u8 {
        flags_byte(value == 255, false, value % 16 == 15, self.regs.flags_set(FLAG_C))
    }

    pub open spec fn dec8_flags(self, value: u8) -> u8 {
        flags_byte(value == 1, true, value % 16 == 0, self.regs.flags_set(FLAG_C))
    }

    // ---- 16-bit -------------------------------------------------------------
    pub open spec fn add16_spec(self, value: u16) -> Cpu {
        let hl = self.regs.hl_spec();
        let sum = ((hl + value) % 65536) as u16;
        Cpu {
            regs: Registers {
                h: high(sum),
                l: low(sum),
                f: flags_byte(
                    self.regs.flags_set(FLAG_Z),
                    false,
                    hl % 4096 + value % 4096 > 4095,
                    hl + value > 65535,
                ),
                ..self.regs
            },
            ..self
        }
    }

    /// SP plus a signed offset, wrapping at 16 bits.
    pub open spec fn sp_plus(self, offset: i8) -> u16 {
        ((self.sp + offset + 65536) % 65536) as u16
    }

    /// The flags that ADD SP,r8 and LD HL,SP+r8 leave: carries out of the low nibble and byte.
    pub open spec fn sp_plus_flags(self, offset: i8) -> u8 {
        let value = ((offset + 65536) % 65536) as u16;
        flags_byte(false, false, self.sp % 16 + value % 16 > 15, self.sp % 256 + value % 256 > 255)
    }

    // ---- A-register oddments ------------------------------------------------
    pub open spec fn daa_spec(self) -> Cpu {
        let a = self.regs.a;
        let f = self.regs.f;
        let adjust = daa_adjust(a, f);
        let subtract = self.regs.flags_set(FLAG_N);
        let result = if subtract {
            ((a - adjust + 256) % 256) as u8
        } else {
            ((a + adjust) % 256) as u8
        };
        let carry = self.regs.flags_set(FLAG_C) || (!subtract && a > 0x99);
        self.with_af(result, flags_byte(result == 0, subtract, false, carry))
    }

    pub open spec fn cpl_spec(self) -> Cpu {
        self.with_af(
            (255 - self.regs.a) as u8,
            flags_byte(self.regs.flags_set(FLAG_Z), true, true, self.regs.flags_set(FLAG_C)),
        )
    }

    pub open spec fn scf_spec(self) -> Cpu {
        self.with_f(flags_byte(self.regs.flags_set(FLAG_Z), false, false, true))
    }

    pub open spec fn ccf_spec(self) -> Cpu {
        self.with_f(
            flags_byte(self.regs.flags_set(FLAG_Z), false, false, !self.regs.flags_set(FLAG_C)),
        )
    }

    // ---- Rotates on A (not the CB rotates: Z is always cleared) -------------
    pub open spec fn rlca_spec(self) -> Cpu {
        self.with_af(rotl(self.regs.a), flags_byte(false, false, false, top(self.regs.a)))
    }

    pub open spec fn rrca_spec(self) -> Cpu {
        self.with_af(rotr(self.regs.a), flags_byte(false, false, false, bottom(self.regs.a)))
    }

    pub open spec fn rla_spec(self) -> Cpu {
        self.with_af(
            self.rl_result(self.regs.a),
            flags_byte(false, false, false, top(self.regs.a)),
        )
    }

    pub open spec fn rra_spec(self) -> Cpu {
        self.with_af(
            self.rr_result(self.regs.a),
            flags_byte(false, false, false, bottom(self.regs.a)),
        )
    }

    // ---- CB rotates and shifts ----------------------------------------------
    pub open spec fn rl_result(self, v: u8) -> u8 {
        ((v as int * 2) % 256 + self.carry_bit()) as u8
    }

    pub open spec fn rr_result(self, v: u8) -> u8 {
        (v as int / 2 + self.carry_bit() * 128) as u8
    }

    /// Which CB shift or rotate (0 RLC, 1 RRC, 2 RL, 3 RR, 4 SLA, 5 SRA,
    /// 6 SWAP, 7 SRL) turns `v` into what.
    pub open spec fn shift_result(self, op: u8, v: u8) -> u8 {
        if op == 0 {
            rotl(v)
        } else if op == 1 {
            rotr(v)
        } else if op == 2 {
            self.rl_result(v)
        } else if op == 3 {
            self.rr_result(v)
        } else if op == 4 {
            ((v as int * 2) % 256) as u8
        } else if op == 5 {
            (v as int / 2 + (if top(v) { 128int } else { 0 })) as u8
        } else if op == 6 {
            (v as int % 16 * 16 + v as int / 16) as u8
        } else {
            (v as int / 2) as u8
        }
    }

    /// The carry a CB shift or rotate leaves: the bit that falls off.
    pub open spec fn shift_carry(op: u8, v: u8) -> bool {
        if op == 6 {
            false
        } else if op == 0 || op == 2 || op == 4 {
            top(v)
        } else {
            bottom(v)
        }
    }

    pub open spec fn shift_flags(self, op: u8, v: u8) -> u8 {
        flags_byte(self.shift_result(op, v) == 0, false, false, Self::shift_carry(op, v))
    }

    pub open spec fn bit8_flags(self, b: u8, v: u8) -> u8 {
        flags_byte((v >> b) % 2 == 0, false, true, self.regs.flags_set(FLAG_C))
    }

    fn carry(&self) -> (r: u8)
        ensures
            r == self.carry_bit(),
    {
        if self.regs.has_flags(FLAG_C) {
            1
        } else {
            0
        }
    }

    pub fn add8(&mut self, value: u8)
        ensures
            *final(self) == old(self).add8_spec(value),
    {
        let a = self.regs.a;
        let result = a.wrapping_add(value);
        proof { lemma_nibble(a, value, 0) }
        self.regs.set_flags(
            result == 0,
            false,
            (a & 0xF) + (value & 0xF) > 0xF,
            a as u16 + value as u16 > 0xFF,
        );
        self.regs.a = result;
    }

    pub fn adc8(&mut self, value: u8)
        ensures
            *final(self) == old(self).adc8_spec(value),
    {
        let a = self.regs.a;
        let carry = self.carry();
        let result = a.wrapping_add(value).wrapping_add(carry);
        proof { lemma_nibble(a, value, carry) }
        self.regs.set_flags(
            result == 0,
            false,
            (a & 0xF) + (value & 0xF) + carry > 0xF,
            a as u16 + value as u16 + carry as u16 > 0xFF,
        );
        self.regs.a = result;
    }

    pub fn sub8(&mut self, value: u8)
        ensures
            *final(self) == old(self).sub8_spec(value),
    {
        let a = self.regs.a;
        proof { lemma_nibble(a, value, 0) }
        self.regs.set_flags(a == value, true, (a & 0xF) < (value & 0xF), a < value);
        self.regs.a = a.wrapping_sub(value);
    }

    pub fn sbc8(&mut self, value: u8)
        ensures
            *final(self) == old(self).sbc8_spec(value),
    {
        let a = self.regs.a;
        let carry = self.carry();
        let result = a.wrapping_sub(value).wrapping_sub(carry);
        proof { lemma_nibble(a, value, carry) }
        self.regs.set_flags(
            result == 0,
            true,
            (a & 0xF) < (value & 0xF) + carry,
            (a as u16) < value as u16 + carry as u16,
        );
        self.regs.a = result;
    }

    pub fn and8(&mut self, value: u8)
        ensures
            *final(self) == old(self).and8_spec(value),
    {
        self.regs.a = self.regs.a & value;
        let zero = self.regs.a == 0;
        self.regs.set_flags(zero, false, true, false);
    }

    pub fn or8(&mut self, value: u8)
        ensures
            *final(self) == old(self).or8_spec(value),
    {
        self.regs.a = self.regs.a | value;
        let zero = self.regs.a == 0;
        self.regs.set_flags(zero, false, false, false);
    }

    pub fn xor8(&mut self, value: u8)
        ensures
            *final(self) == old(self).xor8_spec(value),
    {
        self.regs.a = self.regs.a ^ value;
        let zero = self.regs.a == 0;
        self.regs.set_flags(zero, false, false, false);
    }

    pub fn cp8(&mut self, value: u8)
        ensures
            *final(self) == old(self).cp8_spec(value),
    {
        let a = self.regs.a;
        self.sub8(value);
        self.regs.a = a;
    }

    pub fn inc8(&mut self, value: u8) -> (r: u8)
        ensures
            r == (value + 1) % 256,
            *final(self) == old(self).with_f(old(self).inc8_flags(value)),
    {
        let result = value.wrapping_add(1);
        let carry = self.regs.has_flags(FLAG_C);
        proof { lemma_nibble(value, 0, 0) }
        self.regs.set_flags(result == 0, false, (value & 0xF) == 0xF, carry);
        result
    }

    pub fn dec8(&mut self, value: u8) -> (r: u8)
        ensures
            r == (value - 1 + 256) % 256,
            *final(self) == old(self).with_f(old(self).dec8_flags(value)),
    {
        let result = value.wrapping_sub(1);
        let carry = self.regs.has_flags(FLAG_C);
        proof { lemma_nibble(value, 0, 0) }
        self.regs.set_flags(result == 0, true, (value & 0xF) == 0, carry);
        result
    }

    pub fn add16(&mut self, value: u16)
        ensures
            *final(self) == old(self).add16_spec(value),
    {
        let hl = self.regs.hl();
        let zero = self.regs.has_flags(FLAG_Z);
        proof { lemma_nibble16(hl, value) }
        self.regs.set_flags(
            zero,
            false,
            (hl & 0x0FFF) + (value & 0x0FFF) > 0x0FFF,
            hl as u32 + value as u32 > 0xFFFF,
        );
        self.regs.set_hl(hl.wrapping_add(value));
    }

    /// SP plus a signed offset; sets the flags and leaves SP itself alone.
    pub fn add_sp_i8(&mut self, offset: i8) -> (r: u16)
        ensures
            r == old(self).sp_plus(offset),
            *final(self) == old(self).with_f(old(self).sp_plus_flags(offset)),
    {
        let sp = self.sp;
        let value = offset as u16;
        proof {
            lemma_nibble16(sp, value);
            assert(value == (offset + 65536) % 65536) by (bit_vector)
                requires value == offset as u16;
        }
        self.regs.set_flags(
            false,
            false,
            (sp & 0xF) + (value & 0xF) > 0xF,
            (sp & 0xFF) + (value & 0xFF) > 0xFF,
        );
        sp.wrapping_add(value)
    }

    pub fn daa(&mut self)
        ensures
            *final(self) == old(self).daa_spec(),
    {
        let a = self.regs.a;
        let subtract = self.regs.has_flags(FLAG_N);
        let mut adjust: u8 = 0;
        let mut carry = self.regs.has_flags(FLAG_C);
        proof { lemma_nibble(a, 0, 0) }
        if self.regs.has_flags(FLAG_H) || (!subtract && a & 0x0F > 0x09) {
            adjust = adjust | 0x06;
        }
        if carry || (!subtract && a > 0x99) {
            adjust = adjust | 0x60;
            carry = true;
        }
        proof {
            assert(0u8 | 0x06u8 == 0x06u8 && 0u8 | 0x60u8 == 0x60u8 && 0x06u8 | 0x60u8 == 0x66u8) by (bit_vector);
        }
        let result = if subtract {
            a.wrapping_sub(adjust)
        } else {
            a.wrapping_add(adjust)
        };
        self.regs.set_flags(result == 0, subtract, false, carry);
        self.regs.a = result;
    }

    pub fn cpl(&mut self)
        ensures
            *final(self) == old(self).cpl_spec(),
    {
        let zero = self.regs.has_flags(FLAG_Z);
        let carry = self.regs.has_flags(FLAG_C);
        let a = self.regs.a;
        proof {
            assert(!a == 255 - a) by (bit_vector);
        }
        self.regs.a = !a;
        self.regs.set_flags(zero, true, true, carry);
    }

    pub fn scf(&mut self)
        ensures
            *final(self) == old(self).scf_spec(),
    {
        let zero = self.regs.has_flags(FLAG_Z);
        self.regs.set_flags(zero, false, false, true);
    }

    pub fn ccf(&mut self)
        ensures
            *final(self) == old(self).ccf_spec(),
    {
        let zero = self.regs.has_flags(FLAG_Z);
        let carry = self.regs.has_flags(FLAG_C);
        self.regs.set_flags(zero, false, false, !carry);
    }

    pub fn rlca(&mut self)
        ensures
            *final(self) == old(self).rlca_spec(),
    {
        let value = self.regs.a;
        proof { lemma_rot(value) }
        self.regs.a = rotate_left8(value);
        self.regs.set_flags(false, false, false, value & 0x80 != 0);
    }

    pub fn rrca(&mut self)
        ensures
            *final(self) == old(self).rrca_spec(),
    {
        let value = self.regs.a;
        proof { lemma_rot(value) }
        self.regs.a = rotate_right8(value);
        self.regs.set_flags(false, false, false, value & 0x01 != 0);
    }

    pub fn rla(&mut self)
        ensures
            *final(self) == old(self).rla_spec(),
    {
        let value = self.regs.a;
        let carry = self.carry();
        proof { lemma_rot(value); lemma_shift_in(value, carry) }
        self.regs.a = value << 1 | carry;
        self.regs.set_flags(false, false, false, value & 0x80 != 0);
    }

    pub fn rra(&mut self)
        ensures
            *final(self) == old(self).rra_spec(),
    {
        let value = self.regs.a;
        let carry = self.carry();
        proof { lemma_rot(value); lemma_shift_in(value, carry) }
        self.regs.a = value >> 1 | carry << 7;
        self.regs.set_flags(false, false, false, value & 0x01 != 0);
    }

    pub fn rlc8(&mut self, value: u8) -> (r: u8)
        ensures
            r == old(self).shift_result(0, value),
            *final(self) == old(self).with_f(old(self).shift_flags(0, value)),
    {
        proof { lemma_rot(value) }
        let result = rotate_left8(value);
        self.regs.set_flags(result == 0, false, false, value & 0x80 != 0);
        result
    }

    pub fn rrc8(&mut self, value: u8) -> (r: u8)
        ensures
            r == old(self).shift_result(1, value),
            *final(self) == old(self).with_f(old(self).shift_flags(1, value)),
    {
        proof { lemma_rot(value) }
        let result = rotate_right8(value);
        self.regs.set_flags(result == 0, false, false, value & 0x01 != 0);
        result
    }

    pub fn rl8(&mut self, value: u8) -> (r: u8)
        ensures
            r == old(self).shift_result(2, value),
            *final(self) == old(self).with_f(old(self).shift_flags(2, value)),
    {
        let carry = self.carry();
        proof { lemma_rot(value); lemma_shift_in(value, carry) }
        let result = value << 1 | carry;
        self.regs.set_flags(result == 0, false, false, value & 0x80 != 0);
        result
    }

    pub fn rr8(&mut self, value: u8) -> (r: u8)
        ensures
            r == old(self).shift_result(3, value),
            *final(self) == old(self).with_f(old(self).shift_flags(3, value)),
    {
        let carry = self.carry();
        proof { lemma_rot(value); lemma_shift_in(value, carry) }
        let result = value >> 1 | carry << 7;
        self.regs.set_flags(result == 0, false, false, value & 0x01 != 0);
        result
    }

    pub fn sla8(&mut self, value: u8) -> (r: u8)
        ensures
            r == old(self).shift_result(4, value),
            *final(self) == old(self).with_f(old(self).shift_flags(4, value)),
    {
        proof { lemma_rot(value) }
        let result = value << 1;
        self.regs.set_flags(result == 0, false, false, value & 0x80 != 0);
        result
    }

    pub fn sra8(&mut self, value: u8) -> (r: u8)
        ensures
            r == old(self).shift_result(5, value),
            *final(self) == old(self).with_f(old(self).shift_flags(5, value)),
    {
        proof { lemma_rot(value); lemma_sra(value) }
        let result = value >> 1 | value & 0x80;
        self.regs.set_flags(result == 0, false, false, value & 0x01 != 0);
        result
    }

    pub fn srl8(&mut self, value: u8) -> (r: u8)
        ensures
            r == old(self).shift_result(7, value),
            *final(self) == old(self).with_f(old(self).shift_flags(7, value)),
    {
        proof { lemma_rot(value) }
        let result = value >> 1;
        self.regs.set_flags(result == 0, false, false, value & 0x01 != 0);
        result
    }

    pub fn swap8(&mut self, value: u8) -> (r: u8)
        ensures
            r == old(self).shift_result(6, value),
            *final(self) == old(self).with_f(old(self).shift_flags(6, value)),
    {
        proof { lemma_swap(value) }
        let result = value << 4 | value >> 4;
        self.regs.set_flags(result == 0, false, false, false);
        result
    }

    pub fn bit8(&mut self, bit: u8, value: u8)
        requires
            bit < 8,
        ensures
            *final(self) == old(self).with_f(old(self).bit8_flags(bit, value)),
    {
        let carry = self.regs.has_flags(FLAG_C);
        proof { lemma_bit_test(value, bit) }
        self.regs.set_flags(value & (1u8 << bit) == 0, false, true, carry);
    }
}

proof fn lemma_nibble(a: u8, v: u8, c: u8)
    by (bit_vector)
    ensures
        a & 0xF == a % 16,
        v & 0xF == v % 16,
        c & 0xF == c % 16,
{
}

proof fn lemma_nibble16(a: u16, v: u16)
    by (bit_vector)
    ensures
        a & 0xF == a % 16,
        v & 0xF == v % 16,
        a & 0xFF == a % 256,
        v & 0xFF == v % 256,
        a & 0x0FFF == a % 4096,
        v & 0x0FFF == v % 4096,
{
}

proof fn lemma_shift_in(v: u8, c: u8)
    requires
        c <= 1,
    ensures
        (v << 1 | c) == (v as int * 2) % 256 + c,
        (v >> 1 | c << 7) == v as int / 2 + c * 128,
{
    assert(c <= 1 ==> (v << 1 | c) == (v * 2) % 256 + c && (v >> 1 | c << 7) == v / 2 + c * 128) by (bit_vector);
}

proof fn lemma_sra(v: u8)
    by (bit_vector)
    ensures
        (v >> 1 | v & 0x80) == v / 2 + (v & 0x80),
        v >= 128 ==> v & 0x80 == 128,
        v < 128 ==> v & 0x80 == 0,
{
}

proof fn lemma_swap(v: u8)
    by (bit_vector)
    ensures
        (v << 4 | v >> 4) == v % 16 * 16 + v / 16,
{
}

proof fn lemma_bit_test(v: u8, b: u8)
    requires
        b < 8,
    ensures
        (v & (1u8 << b) == 0) == ((v >> b) % 2 == 0),
{
    assert(b < 8 ==> (v & (1u8 << b) == 0) == ((v >> b) % 2 == 0)) by (bit_vector);
}

/// The packed-BCD byte of a number below 100.
pub open spec fn bcd(v: int) -> int {
    (v / 10) * 16 + v % 10
}

/// The value of a packed-BCD byte.
pub open spec fn bcd_value(a: u8) -> int {
    (a / 16) * 10 + a % 16
}

/// Whether both nibbles of a byte are decimal digits.
pub open spec fn is_bcd(a: u8) -> bool {
    a / 16 <= 9 && a % 16 <= 9
}

/// The decimal-adjust arithmetic for every pair of BCD bytes `a` and `b`
/// (widened to 16 bits), after an addition and after a subtraction: `x` and
/// `y` are their values, `lo` and `hi` the adjustments DAA makes.
proof fn lemma_daa_arith(
    a: u16,
    b: u16,
    s: u16,
    r: u16,
    lo: u16,
    hi: u16,
    v: u16,
    rs: u16,
    los: u16,
    his: u16,
    w: u16,
)
    by (bit_vector)
    requires
        a / 16 <= 9 && a % 16 <= 9,
        b / 16 <= 9 && b % 16 <= 9,
        s == (a + b) as u16,
        r == s % 256,
        lo == if (a % 16) + (b % 16) > 15 || r % 16 > 9 { 6u16 } else { 0u16 },
        hi == if s > 255 || r > 0x99 { 0x60u16 } else { 0u16 },
        v == ((a / 16) * 10 + (a % 16) + (b / 16) * 10 + (b % 16)) as u16,
        rs == (a + 256 - b) as u16 % 256,
        los == if a % 16 < b % 16 { 6u16 } else { 0u16 },
        his == if a < b { 0x60u16 } else { 0u16 },
        w == ((a / 16) * 10 + (a % 16) + 100 - (b / 16) * 10 - (b % 16)) as u16,
    ensures
        (r + lo + hi) as u16 % 256 == ((v % 100) / 10) * 16 + (v % 100) % 10,
        (hi != 0) == (v >= 100),
        (rs + 256 - los - his) as u16 % 256 == ((w % 100) / 10) * 16 + (w % 100) % 10,
        (his != 0) == (w < 100),
{
}

/// DAA after an addition of two BCD bytes gives the BCD of their decimal sum
/// modulo 100, with C set exactly when the sum reached 100; Z follows A, and
/// N, H and the low nibble of F are clear.
pub proof fn law_daa_after_add(cpu: Cpu, b: u8)
    requires
        is_bcd(cpu.regs.a),
        is_bcd(b),
    ensures
        ({
            let d = cpu.add8_spec(b).daa_spec();
            let sum = bcd_value(cpu.regs.a) + bcd_value(b);
            &&& d.regs.a == bcd(sum % 100)
            &&& d.regs.flags_set(FLAG_C) == (sum >= 100)
            &&& d.regs.flags_set(FLAG_Z) == (d.regs.a == 0)
            &&& !d.regs.flags_set(FLAG_H)
            &&& !d.regs.flags_set(FLAG_N)
            &&& d.regs.f & 0x0F == 0
        }),
{
    let a = cpu.regs.a;
    let a1 = ((a + b) % 256) as u8;
    let h = a % 16 + b % 16 > 15;
    let c = a + b > 255;
    crate::cpu::lemma_flags_byte(a1 == 0, false, h, c);
    lemma_daa_digits(a, b);
    let d = cpu.add8_spec(b).daa_spec();
    let carry = c || a1 > 0x99;
    crate::cpu::lemma_flags_byte(d.regs.a == 0, false, false, carry);
}

/// DAA after a subtraction of two BCD bytes gives the BCD of their decimal
/// difference modulo 100, with C set exactly when it borrowed; Z follows A,
/// N stays set, and H and the low nibble of F are clear.
pub proof fn law_daa_after_sub(cpu: Cpu, b: u8)
    requires
        is_bcd(cpu.regs.a),
        is_bcd(b),
    ensures
        ({
            let d = cpu.sub8_spec(b).daa_spec();
            let x = bcd_value(cpu.regs.a);
            let y = bcd_value(b);
            &&& d.regs.a == bcd((x - y + 100) % 100)
            &&& d.regs.flags_set(FLAG_C) == (x < y)
            &&& d.regs.flags_set(FLAG_Z) == (d.regs.a == 0)
            &&& !d.regs.flags_set(FLAG_H)
            &&& d.regs.flags_set(FLAG_N)
            &&& d.regs.f & 0x0F == 0
        }),
{
    let a = cpu.regs.a;
    crate::cpu::lemma_flags_byte(a == b, true, a % 16 < b % 16, a < b);
    lemma_daa_digits(a, b);
    let d = cpu.sub8_spec(b).daa_spec();
    crate::cpu::lemma_flags_byte(d.regs.a == 0, true, false, a < b);
}

/// The digit arithmetic of both laws, in the widened form the lemma proves.
proof fn lemma_daa_digits(a: u8, b: u8)
    requires
        is_bcd(a),
        is_bcd(b),
    ensures
        ({
            let r = (a + b) % 256;
            let lo: int = if a % 16 + b % 16 > 15 || r % 16 > 9 { 6 } else { 0 };
            let hi: int = if a + b > 255 || r > 0x99 { 0x60 } else { 0 };
            let x = bcd_value(a);
            let y = bcd_value(b);
            let rs = (a - b + 256) % 256;
            let los: int = if a % 16 < b % 16 { 6 } else { 0 };
            let his: int = if a < b { 0x60 } else { 0 };
            &&& (r + lo + hi) % 256 == bcd((x + y) % 100)
            &&& (hi != 0) == (x + y >= 100)
            &&& (rs - (los + his) + 256) % 256 == bcd((x - y + 100) % 100)
            &&& (his != 0) == (x < y)
        }),
{
    let a16 = a as u16;
    let b16 = b as u16;
    let s = (a16 + b16) as u16;
    let r = s % 256;
    let lo: u16 = if (a16 % 16) + (b16 % 16) > 15 || r % 16 > 9 { 6 } else { 0 };
    let hi: u16 = if s > 255 || r > 0x99 { 0x60 } else { 0 };
    let v = ((a16 / 16) * 10 + (a16 % 16) + (b16 / 16) * 10 + (b16 % 16)) as u16;
    let rs = (a16 + 256 - b16) as u16 % 256;
    let los: u16 = if a16 % 16 < b16 % 16 { 6 } else { 0 };
    let his: u16 = if a16 < b16 { 0x60 } else { 0 };
    let w = ((a16 / 16) * 10 + (a16 % 16) + 100 - (b16 / 16) * 10 - (b16 % 16)) as u16;
    lemma_daa_arith(a16, b16, s, r, lo, hi, v, rs, los, his, w);
}

} // verus!
