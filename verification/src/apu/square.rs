use vstd::prelude::*;
use vstd::arithmetic::power2::{pow2, lemma2_to64};
use crate::apu::envelope::Envelope;
use crate::apu::length::Length;

verus! {

pub const MAX_PERIOD: u16 = 2047;

/// The duty waveforms: 12.5%, 25%, 50% and 75% high.
pub open spec fn duty_bit(duty: u8, step: u8) -> u8 {
    if duty == 0 {
        if step == 7 { 1 } else { 0 }
    } else if duty == 1 {
        if step == 0 || step == 7 { 1 } else { 0 }
    } else if duty == 2 {
        if step == 0 || step >= 5 { 1 } else { 0 }
    } else {
        if step == 0 || step == 7 { 0 } else { 1 }
    }
}

fn duty_bit_exec(duty: u8, step: u8) -> (r: u8)
    ensures
        r == duty_bit(duty, step),
{
    if duty == 0 {
        if step == 7 { 1 } else { 0 }
    } else if duty == 1 {
        if step == 0 || step == 7 { 1 } else { 0 }
    } else if duty == 2 {
        if step == 0 || step >= 5 { 1 } else { 0 }
    } else {
        if step == 0 || step == 7 { 0 } else { 1 }
    }
}

/// A square channel (1 and 2); channel 1 also has a frequency sweep.
pub struct Square {
    pub has_sweep: bool,
    pub active: bool,
    pub duty: u8,
    pub duty_step: u8,
    pub period: u16,
    pub timer: u16,
    pub length: Length,
    pub envelope: Envelope,
    pub sweep_period: u8,
    pub sweep_negate: bool,
    pub sweep_shift: u8,
    pub sweep_timer: u8,
    pub sweep_enabled: bool,
    pub sweep_shadow: u16,
    pub sweep_negate_used: bool,
}

proof fn lemma_period_bits(period: u16, value: u8)
    by (bit_vector)
    requires
        period <= 2047,
    ensures
        (period & 0x0700 | value as u16) <= 2047,
        (period & 0x00FF | (value as u16 & 0x07) << 8) <= 2047,
        value <= 7 ==> period >> value == period >> (value as u16),
{
}

impl Square {
    pub open spec fn fresh(has_sweep: bool) -> Square {
        Square {
            has_sweep,
            active: false,
            duty: 0,
            duty_step: 0,
            period: 0,
            timer: 0,
            length: Length { maximum: 64, counter: 0, enabled: false },
            envelope: Envelope { initial: 0, increasing: false, period: 0, volume: 0, timer: 0 },
            sweep_period: 0,
            sweep_negate: false,
            sweep_shift: 0,
            sweep_timer: 0,
            sweep_enabled: false,
            sweep_shadow: 0,
            sweep_negate_used: false,
        }
    }

    pub open spec fn wf(self) -> bool {
        &&& self.length.wf()
        &&& self.length.maximum == 64
        &&& self.envelope.wf()
        &&& self.duty <= 3
        &&& self.duty_step < 8
        &&& self.period <= MAX_PERIOD
        &&& self.timer <= 8192
        &&& self.sweep_period <= 7
        &&& self.sweep_shift <= 7
        &&& self.sweep_timer <= 8
        &&& self.sweep_shadow <= MAX_PERIOD
    }

    /// The number of T-cycles one duty step lasts, four per unit of (2048 - period).
    pub open spec fn step_cycles(self) -> u16 {
        ((2048 - self.period) * 4) as u16
    }

    pub open spec fn tick_spec(self) -> Square {
        let timer = if self.timer > 0 { (self.timer - 1) as u16 } else { 0u16 };
        if timer == 0 {
            Square { timer: self.step_cycles(), duty_step: ((self.duty_step + 1) % 8) as u8, ..self }
        } else {
            Square { timer, ..self }
        }
    }

    pub open spec fn clock_length_spec(self) -> Square {
        let (length, emptied) = self.length.clock_spec();
        Square { length, active: self.active && !emptied, ..self }
    }

    /// The period the sweep would set next, and the channel after computing it
    /// (a subtraction is remembered).
    pub open spec fn next_sweep_spec(self) -> (u16, Square) {
        let delta = self.sweep_shadow >> self.sweep_shift;
        if self.sweep_negate {
            ((self.sweep_shadow - delta) as u16, Square { sweep_negate_used: true, ..self })
        } else {
            ((self.sweep_shadow + delta) as u16, self)
        }
    }

    pub open spec fn clock_sweep_spec(self) -> Square {
        if !self.has_sweep {
            self
        } else {
            let timer = if self.sweep_timer > 0 { (self.sweep_timer - 1) as u8 } else { 0u8 };
            if timer != 0 {
                Square { sweep_timer: timer, ..self }
            } else {
                let s1 = Square {
                    sweep_timer: if self.sweep_period == 0 { 8 } else { self.sweep_period },
                    ..self
                };
                if !s1.sweep_enabled || s1.sweep_period == 0 {
                    s1
                } else {
                    let (next, s2) = s1.next_sweep_spec();
                    if next <= MAX_PERIOD && s2.sweep_shift > 0 {
                        let s3 = Square { sweep_shadow: next, period: next, ..s2 };
                        let (again, s4) = s3.next_sweep_spec();
                        if again > MAX_PERIOD {
                            Square { active: false, ..s4 }
                        } else {
                            s4
                        }
                    } else if next > MAX_PERIOD {
                        Square { active: false, ..s2 }
                    } else {
                        s2
                    }
                }
            }
        }
    }

    /// What the channel feeds its DAC: nothing when it is off or its DAC is,
    /// else the duty bit times the envelope volume (0..=15).
    pub open spec fn level_spec(self) -> Option<u8> {
        if !self.active || !self.envelope.dac_on() {
            None
        } else {
            Some((duty_bit(self.duty, self.duty_step) * self.envelope.volume) as u8)
        }
    }

    pub open spec fn read_spec(self, register: u16) -> u8 {
        if register == 0 {
            (self.sweep_period * 16 + (if self.sweep_negate { 8int } else { 0 }) + self.sweep_shift
                + 0x80) as u8
        } else if register == 1 {
            (self.duty * 64 + 0x3F) as u8
        } else if register == 2 {
            self.envelope.read_spec()
        } else if register == 4 {
            (if self.length.enabled { 0xFFint } else { 0xBF }) as u8
        } else {
            0xFF
        }
    }

    pub open spec fn trigger_spec(self, next_clocks: bool) -> Square {
        let s = Square {
            active: self.envelope.dac_on(),
            length: self.length.trigger_spec(next_clocks),
            timer: self.step_cycles(),
            envelope: self.envelope.trigger_spec(),
            ..self
        };
        if !s.has_sweep {
            s
        } else {
            let s2 = Square {
                sweep_negate_used: false,
                sweep_shadow: s.period,
                sweep_timer: if s.sweep_period == 0 { 8 } else { s.sweep_period },
                sweep_enabled: s.sweep_period > 0 || s.sweep_shift > 0,
                ..s
            };
            if s2.sweep_shift > 0 {
                let (next, s3) = s2.next_sweep_spec();
                if next > MAX_PERIOD {
                    Square { active: false, ..s3 }
                } else {
                    s3
                }
            } else {
                s2
            }
        }
    }

    pub open spec fn write_spec(self, register: u16, value: u8, next_clocks: bool) -> Square {
        if register == 0 {
            let leaving_negate = self.sweep_negate && value & 0x08 == 0;
            let s = Square {
                sweep_period: (value / 16) % 8,
                sweep_negate: value & 0x08 != 0,
                sweep_shift: value % 8,
                ..self
            };
            if leaving_negate && self.sweep_negate_used {
                Square { active: false, ..s }
            } else {
                s
            }
        } else if register == 1 {
            Square {
                duty: value / 64,
                length: Length { counter: (64 - value % 64) as u16, ..self.length },
                ..self
            }
        } else if register == 2 {
            let envelope = self.envelope.write_spec(value);
            Square { envelope, active: self.active && envelope.dac_on(), ..self }
        } else if register == 3 {
            Square { period: self.period & 0x0700 | value as u16, ..self }
        } else if register == 4 {
            let period = self.period & 0x00FF | (value as u16 & 0x07) << 8;
            let trigger = value & 0x80 != 0;
            let (length, silenced) = self.length.write_control_spec(
                value & 0x40 != 0,
                trigger,
                next_clocks,
            );
            let s = Square { period, length, active: self.active && !silenced, ..self };
            if trigger {
                s.trigger_spec(next_clocks)
            } else {
                s
            }
        } else {
            self
        }
    }

    pub fn new(has_sweep: bool) -> (s: Self)
        ensures
            s == Square::fresh(has_sweep),
            s.wf(),
    {
        Square {
            has_sweep,
            active: false,
            duty: 0,
            duty_step: 0,
            period: 0,
            timer: 0,
            length: Length::new(64),
            envelope: Envelope::new(),
            sweep_period: 0,
            sweep_negate: false,
            sweep_shift: 0,
            sweep_timer: 0,
            sweep_enabled: false,
            sweep_shadow: 0,
            sweep_negate_used: false,
        }
    }

    pub fn tick(&mut self)
        requires
            old(self).wf(),
        ensures
            *final(self) == old(self).tick_spec(),
            final(self).wf(),
    {
        if self.timer > 0 {
            self.timer = self.timer - 1;
        }
        if self.timer == 0 {
            self.timer = (MAX_PERIOD + 1 - self.period) * 4;
            self.duty_step = (self.duty_step + 1) % 8;
        }
    }

    pub fn clock_length(&mut self)
        requires
            old(self).wf(),
        ensures
            *final(self) == old(self).clock_length_spec(),
            final(self).wf(),
    {
        if self.length.clock() {
            self.active = false;
        }
    }

    pub fn clock_envelope(&mut self)
        requires
            old(self).wf(),
        ensures
            *final(self) == (Square { envelope: old(self).envelope.clock_spec(), ..*old(self) }),
            final(self).wf(),
    {
        self.envelope.clock();
    }

    fn next_sweep_period(&mut self) -> (r: u16)
        requires
            old(self).wf(),
        ensures
            (r, *final(self)) == old(self).next_sweep_spec(),
            final(self).wf(),
            r <= 2 * MAX_PERIOD,
    {
        let delta = self.sweep_shadow >> self.sweep_shift;
        proof {
            let shadow = self.sweep_shadow;
            let shift = self.sweep_shift;
            assert(shadow >> shift <= shadow) by (bit_vector);
        }
        if self.sweep_negate {
            self.sweep_negate_used = true;
            self.sweep_shadow - delta
        } else {
            self.sweep_shadow + delta
        }
    }

    pub fn clock_sweep(&mut self)
        requires
            old(self).wf(),
        ensures
            *final(self) == old(self).clock_sweep_spec(),
            final(self).wf(),
    {
        if !self.has_sweep {
            return;
        }
        if self.sweep_timer > 0 {
            self.sweep_timer = self.sweep_timer - 1;
        }
        if self.sweep_timer != 0 {
            return;
        }
        self.sweep_timer = if self.sweep_period == 0 { 8 } else { self.sweep_period };
        if !self.sweep_enabled || self.sweep_period == 0 {
            return;
        }
        let next = self.next_sweep_period();
        if next <= MAX_PERIOD && self.sweep_shift > 0 {
            self.sweep_shadow = next;
            self.period = next;
            if self.next_sweep_period() > MAX_PERIOD {
                self.active = false;
            }
        } else if next > MAX_PERIOD {
            self.active = false;
        }
    }

    pub fn is_active(&self) -> (r: bool)
        ensures
            r == self.active,
    {
        self.active
    }

    /// The channel's DAC input, see `level_spec`.
    pub fn level(&self) -> (r: Option<u8>)
        requires
            self.wf(),
        ensures
            r == self.level_spec(),
    {
        if !self.active || !self.envelope.dac_enabled() {
            return None;
        }
        let bit = duty_bit_exec(self.duty, self.duty_step);
        Some(bit * self.envelope.volume())
    }

    pub fn read(&self, register: u16) -> (r: u8)
        requires
            self.wf(),
        ensures
            r == self.read_spec(register),
    {
        if register == 0 {
            let negate: u8 = if self.sweep_negate { 8 } else { 0 };
            self.sweep_period * 16 + negate + self.sweep_shift + 0x80
        } else if register == 1 {
            self.duty * 64 + 0x3F
        } else if register == 2 {
            self.envelope.read()
        } else if register == 4 {
            if self.length.enabled() { 0xFF } else { 0xBF }
        } else {
            0xFF
        }
    }

    /// Loads the length counter from NRx1 while the APU is off; the duty is untouched.
    pub fn write_length(&mut self, value: u8)
        requires
            old(self).wf(),
        ensures
            *final(self) == (Square {
                length: Length { counter: (64 - value % 64) as u16, ..old(self).length },
                ..*old(self)
            }),
            final(self).wf(),
    {
        proof {
            crate::bits::lemma_u8_bits(value);
        }
        self.length.set(value & 0x3F);
    }

    /// Powering the APU off clears every register, but the DMG keeps the length counter.
    pub fn power_off(&mut self)
        requires
            old(self).wf(),
        ensures
            *final(self) == (Square {
                length: Length { counter: old(self).length.counter, ..Square::fresh(old(self).has_sweep).length },
                ..Square::fresh(old(self).has_sweep)
            }),
            final(self).wf(),
    {
        let counter = self.length.counter();
        *self = Self::new(self.has_sweep);
        self.length.restore(counter);
    }

    fn trigger(&mut self, next_clocks: bool)
        requires
            old(self).wf(),
        ensures
            *final(self) == old(self).trigger_spec(next_clocks),
            final(self).wf(),
    {
        self.active = self.envelope.dac_enabled();
        self.length.trigger(next_clocks);
        self.timer = (MAX_PERIOD + 1 - self.period) * 4;
        self.envelope.trigger();
        if self.has_sweep {
            self.sweep_negate_used = false;
            self.sweep_shadow = self.period;
            self.sweep_timer = if self.sweep_period == 0 { 8 } else { self.sweep_period };
            self.sweep_enabled = self.sweep_period > 0 || self.sweep_shift > 0;
            if self.sweep_shift > 0 && self.next_sweep_period() > MAX_PERIOD {
                self.active = false;
            }
        }
    }

    /// A write to NRx0..NRx4 (register 0..4) with the APU on.
    pub fn write(&mut self, register: u16, value: u8, next_clocks: bool)
        requires
            old(self).wf(),
        ensures
            *final(self) == old(self).write_spec(register, value, next_clocks),
            final(self).wf(),
    {
        proof {
            crate::bits::lemma_u8_bits(value);
            lemma_period_bits(self.period, value);
        }
        if register == 0 {
            let leaving_negate = self.sweep_negate && value & 0x08 == 0;
            self.sweep_period = value >> 4 & 0x07;
            self.sweep_negate = value & 0x08 != 0;
            self.sweep_shift = value & 0x07;
            if leaving_negate && self.sweep_negate_used {
                self.active = false;
            }
        } else if register == 1 {
            self.duty = value >> 6;
            self.length.set(value & 0x3F);
        } else if register == 2 {
            self.envelope.write(value);
            if !self.envelope.dac_enabled() {
                self.active = false;
            }
        } else if register == 3 {
            self.period = self.period & 0x0700 | value as u16;
        } else if register == 4 {
            self.period = self.period & 0x00FF | (value as u16 & 0x07) << 8;
            let trigger = value & 0x80 != 0;
            if self.length.write_control(value & 0x40 != 0, trigger, next_clocks) {
                self.active = false;
            }
            if trigger {
                self.trigger(next_clocks);
            }
        }
    }
}

/// Triggering with a dead DAC (initial volume 0, decreasing) never starts the channel.
pub proof fn law_dead_dac_trigger_stays_silent(s: Square, next_clocks: bool)
    requires
        s.wf(),
        !s.envelope.dac_on(),
    ensures
        !s.trigger_spec(next_clocks).active,
{
}

/// A sweep that has subtracted since the trigger stops the channel when the
/// game leaves negate mode.
pub proof fn law_leaving_negate_after_use_stops(s: Square, value: u8, next_clocks: bool)
    requires
        s.sweep_negate,
        s.sweep_negate_used,
        value & 0x08 == 0,
    ensures
        !s.write_spec(0, value, next_clocks).active,
{
}

/// Bit `step` of the byte that spells out waveform `duty`.
proof fn lemma_duty_pattern_bit(duty: u8, step: u8, pattern: int)
    requires
        duty <= 3,
        step < 8,
        pattern == if duty == 0 {
            0x80int
        } else if duty == 1 {
            0x81
        } else if duty == 2 {
            0xE1
        } else {
            0x7E
        },
    ensures
        ((pattern / (pow2(step as nat) as int)) % 2 == 1) == (duty_bit(duty, step) == 1),
{
    lemma2_to64();
    let p = pow2(step as nat) as int;
    if duty == 0 {
        assert(pattern == 0x80);
    } else if duty == 1 {
        assert(pattern == 0x81);
    } else if duty == 2 {
        assert(pattern == 0xE1);
    } else {
        assert(pattern == 0x7E);
    }
    if step == 0 {
        assert(p == 1);
        assert((0x80int / 1) % 2 == 0 && (0x81int / 1) % 2 == 1 && (0xE1int / 1) % 2 == 1 && (0x7Eint / 1) % 2 == 0);
    } else if step == 1 {
        assert(p == 2);
        assert((0x80int / 2) % 2 == 0 && (0x81int / 2) % 2 == 0 && (0xE1int / 2) % 2 == 0 && (0x7Eint / 2) % 2 == 1);
    } else if step == 2 {
        assert(p == 4);
        assert((0x80int / 4) % 2 == 0 && (0x81int / 4) % 2 == 0 && (0xE1int / 4) % 2 == 0 && (0x7Eint / 4) % 2 == 1);
    } else if step == 3 {
        assert(p == 8);
        assert((0x80int / 8) % 2 == 0 && (0x81int / 8) % 2 == 0 && (0xE1int / 8) % 2 == 0 && (0x7Eint / 8) % 2 == 1);
    } else if step == 4 {
        assert(p == 16);
        assert((0x80int / 16) % 2 == 0 && (0x81int / 16) % 2 == 0 && (0xE1int / 16) % 2 == 0 && (0x7Eint / 16) % 2 == 1);
    } else if step == 5 {
        assert(p == 32);
        assert((0x80int / 32) % 2 == 0 && (0x81int / 32) % 2 == 0 && (0xE1int / 32) % 2 == 1 && (0x7Eint / 32) % 2 == 1);
    } else if step == 6 {
        assert(p == 64);
        assert((0x80int / 64) % 2 == 0 && (0x81int / 64) % 2 == 0 && (0xE1int / 64) % 2 == 1 && (0x7Eint / 64) % 2 == 1);
    } else {
        assert(p == 128);
        assert((0x80int / 128) % 2 == 1 && (0x81int / 128) % 2 == 1 && (0xE1int / 128) % 2 == 1 && (0x7Eint / 128) % 2 == 0);
    }
}

/// The four duty waveforms, read from step 0 at the low bit: 0x80, 0x81,
/// 0xE1 and 0x7E, high for 12.5%, 25%, 50% and 75% of the period. A playing
/// channel feeds its DAC the envelope volume on a high step and 0 on a low one.
pub proof fn law_duty_waveforms(s: Square)
    requires
        s.wf(),
        s.active,
        s.envelope.dac_on(),
    ensures
        ({
            let pattern: int = if s.duty == 0 {
                0x80
            } else if s.duty == 1 {
                0x81
            } else if s.duty == 2 {
                0xE1
            } else {
                0x7E
            };
            let high = (pattern / (pow2(s.duty_step as nat) as int)) % 2 == 1;
            s.level_spec() == Some(if high { s.envelope.volume } else { 0u8 })
        }),
{
    let pattern: int = if s.duty == 0 {
        0x80
    } else if s.duty == 1 {
        0x81
    } else if s.duty == 2 {
        0xE1
    } else {
        0x7E
    };
    lemma_duty_pattern_bit(s.duty, s.duty_step, pattern);
    let bit = duty_bit(s.duty, s.duty_step);
    let v = s.envelope.volume;
    assert(bit == 0 || bit == 1);
    assert(bit * v == if bit == 1 { v as int } else { 0 });
}

/// A sweep step computes the shadow period plus, or in negate mode minus,
/// the shadow shifted right by the sweep shift.
pub proof fn law_sweep_step(s: Square)
    requires
        s.wf(),
    ensures
        ({
            let delta = s.sweep_shadow as int / (pow2(s.sweep_shift as nat) as int);
            let (next, _) = s.next_sweep_spec();
            next as int == if s.sweep_negate { s.sweep_shadow - delta } else { s.sweep_shadow + delta }
        }),
{
    lemma_period_bits(s.sweep_shadow, s.sweep_shift);
    vstd::bits::lemma_u16_shr_is_div(s.sweep_shadow, s.sweep_shift as u16);
    vstd::arithmetic::power2::lemma_pow2_pos(s.sweep_shift as nat);
    let x = s.sweep_shadow as int;
    let d = pow2(s.sweep_shift as nat) as int;
    assert(0 <= x / d <= x) by (nonlinear_arith)
        requires
            d >= 1,
            x >= 0;
}

} // verus!
