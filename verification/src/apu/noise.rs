use vstd::prelude::*;
use crate::apu::envelope::Envelope;
use crate::apu::length::Length;

verus! {

/// The base divisor for each NR43 divisor code.
pub open spec fn divisor_spec(code: u8) -> u16 {
    if code == 0 {
        8
    } else {
        (code as int * 16) as u16
    }
}

fn divisor(code: u8) -> (r: u16)
    requires
        code <= 7,
    ensures
        r == divisor_spec(code),
{
    if code == 0 {
        8
    } else {
        code as u16 * 16
    }
}

/// The noise channel: a 15-bit (or 7-bit) linear-feedback shift register
/// clocked at a divided rate.
pub struct Noise {
    pub active: bool,
    pub timer: u16,
    pub lfsr: u16,
    pub shift: u8,
    pub short_width: bool,
    pub divisor: u8,
    pub length: Length,
    pub envelope: Envelope,
}

impl Noise {
    pub open spec fn fresh() -> Noise {
        Noise {
            active: false,
            timer: 0,
            lfsr: 0x7FFF,
            shift: 0,
            short_width: false,
            divisor: 0,
            length: Length { maximum: 64, counter: 0, enabled: false },
            envelope: Envelope { initial: 0, increasing: false, period: 0, volume: 0, timer: 0 },
        }
    }

    pub open spec fn wf(self) -> bool {
        &&& self.length.wf()
        &&& self.length.maximum == 64
        &&& self.envelope.wf()
        &&& self.shift <= 15
        &&& self.divisor <= 7
    }

    /// T-cycles between shifts: the divisor shifted left by the clock shift, in 16 bits.
    pub open spec fn reload(self) -> u16 {
        divisor_spec(self.divisor) << self.shift
    }

    /// The register after one shift: bit 0 xor bit 1 feeds bit 14, and bit 6 too in 7-bit mode.
    pub open spec fn shifted(lfsr: u16, short_width: bool) -> u16 {
        let feedback = (lfsr ^ lfsr >> 1) & 1;
        let wide = lfsr >> 1 | feedback << 14;
        if short_width {
            wide & !0x40u16 | feedback << 6
        } else {
            wide
        }
    }

    pub open spec fn tick_spec(self) -> Noise {
        let timer = if self.timer > 0 { (self.timer - 1) as u16 } else { 0u16 };
        if timer != 0 {
            Noise { timer, ..self }
        } else {
            Noise { timer: self.reload(), lfsr: Self::shifted(self.lfsr, self.short_width), ..self }
        }
    }

    pub open spec fn clock_length_spec(self) -> Noise {
        let (length, emptied) = self.length.clock_spec();
        Noise { length, active: self.active && !emptied, ..self }
    }

    /// The DAC input: nothing when off, else the inverted low bit times the volume.
    pub open spec fn level_spec(self) -> Option<u8> {
        if !self.active || !self.envelope.dac_on() {
            None
        } else {
            Some((if self.lfsr % 2 == 0 { self.envelope.volume } else { 0 }) as u8)
        }
    }

    pub open spec fn read_spec(self, register: u16) -> u8 {
        if register == 2 {
            self.envelope.read_spec()
        } else if register == 3 {
            (self.shift * 16 + (if self.short_width { 8int } else { 0 }) + self.divisor) as u8
        } else if register == 4 {
            (if self.length.enabled { 0xFFint } else { 0xBF }) as u8
        } else {
            0xFF
        }
    }

    pub open spec fn trigger_spec(self, next_clocks: bool) -> Noise {
        Noise {
            active: self.envelope.dac_on(),
            length: self.length.trigger_spec(next_clocks),
            timer: self.reload(),
            lfsr: 0x7FFF,
            envelope: self.envelope.trigger_spec(),
            ..self
        }
    }

    pub open spec fn write_spec(self, register: u16, value: u8, next_clocks: bool) -> Noise {
        if register == 1 {
            Noise { length: Length { counter: (64 - value % 64) as u16, ..self.length }, ..self }
        } else if register == 2 {
            let envelope = self.envelope.write_spec(value);
            Noise { envelope, active: self.active && envelope.dac_on(), ..self }
        } else if register == 3 {
            Noise {
                shift: value / 16,
                short_width: value & 0x08 != 0,
                divisor: value % 8,
                ..self
            }
        } else if register == 4 {
            let trigger = value & 0x80 != 0;
            let (length, silenced) = self.length.write_control_spec(
                value & 0x40 != 0,
                trigger,
                next_clocks,
            );
            let s = Noise { length, active: self.active && !silenced, ..self };
            if trigger {
                s.trigger_spec(next_clocks)
            } else {
                s
            }
        } else {
            self
        }
    }

    pub fn new() -> (n: Self)
        ensures
            n == Noise::fresh(),
            n.wf(),
    {
        Noise {
            active: false,
            timer: 0,
            lfsr: 0x7FFF,
            shift: 0,
            short_width: false,
            divisor: 0,
            length: Length::new(64),
            envelope: Envelope::new(),
        }
    }

    fn reload_value(&self) -> (r: u16)
        requires
            self.wf(),
        ensures
            r == self.reload(),
    {
        divisor(self.divisor) << self.shift
    }

    pub fn tick(&mut self)
        requires
            old(self).wf(),
        ensures
            *final(self) == old(self).tick_spec(),
            final(self).wf(),
    {
        if self.timer > 0 {
            self.timer = self.timer - 1;
        }
        if self.timer != 0 {
            return;
        }
        self.timer = self.reload_value();
        let feedback = (self.lfsr ^ self.lfsr >> 1) & 1;
        self.lfsr = self.lfsr >> 1 | feedback << 14;
        if self.short_width {
            self.lfsr = self.lfsr & !0x40u16 | feedback << 6;
        }
    }

    pub fn clock_length(&mut self)
        requires
            old(self).wf(),
        ensures
            *final(self) == old(self).clock_length_spec(),
            final(self).wf(),
    {
        if self.length.clock() {
            self.active = false;
        }
    }

    pub fn clock_envelope(&mut self)
        requires
            old(self).wf(),
        ensures
            *final(self) == (Noise { envelope: old(self).envelope.clock_spec(), ..*old(self) }),
            final(self).wf(),
    {
        self.envelope.clock();
    }

    pub fn is_active(&self) -> (r: bool)
        ensures
            r == self.active,
    {
        self.active
    }

    /// The channel's DAC input, see `level_spec`.
    pub fn level(&self) -> (r: Option<u8>)
        requires
            self.wf(),
        ensures
            r == self.level_spec(),
    {
        if !self.active || !self.envelope.dac_enabled() {
            return None;
        }
        proof {
            let l = self.lfsr;
            assert(l & 1 == l % 2) by (bit_vector);
        }
        if self.lfsr & 1 == 0 {
            Some(self.envelope.volume())
        } else {
            Some(0)
        }
    }

    pub fn read(&self, register: u16) -> (r: u8)
        requires
            self.wf(),
        ensures
            r == self.read_spec(register),
    {
        if register == 2 {
            self.envelope.read()
        } else if register == 3 {
            let width: u8 = if self.short_width { 8 } else { 0 };
            self.shift * 16 + width + self.divisor
        } else if register == 4 {
            if self.length.enabled() { 0xFF } else { 0xBF }
        } else {
            0xFF
        }
    }

    /// Loads the length counter from NR41 while the APU is off.
    pub fn write_length(&mut self, value: u8)
        requires
            old(self).wf(),
        ensures
            *final(self) == (Noise {
                length: Length { counter: (64 - value % 64) as u16, ..old(self).length },
                ..*old(self)
            }),
            final(self).wf(),
    {
        proof {
            crate::bits::lemma_u8_bits(value);
        }
        self.length.set(value & 0x3F);
    }

    /// Powering the APU off clears every register but the length counter.
    pub fn power_off(&mut self)
        requires
            old(self).wf(),
        ensures
            *final(self) == (Noise {
                length: Length { counter: old(self).length.counter, ..Noise::fresh().length },
                ..Noise::fresh()
            }),
            final(self).wf(),
    {
        let counter = self.length.counter();
        *self = Self::new();
        self.length.restore(counter);
    }

    fn trigger(&mut self, next_clocks: bool)
        requires
            old(self).wf(),
        ensures
            *final(self) == old(self).trigger_spec(next_clocks),
            final(self).wf(),
    {
        self.active = self.envelope.dac_enabled();
        self.length.trigger(next_clocks);
        self.timer = self.reload_value();
        self.lfsr = 0x7FFF;
        self.envelope.trigger();
    }

    /// A write to NR41..NR44 (register 1..4) with the APU on.
    pub fn write(&mut self, register: u16, value: u8, next_clocks: bool)
        requires
            old(self).wf(),
        ensures
            *final(self) == old(self).write_spec(register, value, next_clocks),
            final(self).wf(),
    {
        proof {
            crate::bits::lemma_u8_bits(value);
        }
        if register == 1 {
            self.length.set(value & 0x3F);
        } else if register == 2 {
            self.envelope.write(value);
            if !self.envelope.dac_enabled() {
                self.active = false;
            }
        } else if register == 3 {
            self.shift = value >> 4;
            self.short_width = value & 0x08 != 0;
            self.divisor = value & 0x07;
        } else if register == 4 {
            let trigger = value & 0x80 != 0;
            if self.length.write_control(value & 0x40 != 0, trigger, next_clocks) {
                self.active = false;
            }
            if trigger {
                self.trigger(next_clocks);
            }
        }
    }
}

/// A trigger always reseeds the shift register with all ones.
pub proof fn law_trigger_reseeds(n: Noise, next_clocks: bool)
    ensures
        n.trigger_spec(next_clocks).lfsr == 0x7FFF,
{
}

} // verus!
