use vstd::prelude::*;
use crate::apu::length::Length;

verus! {

pub const RAM_BYTES: usize = 16;
pub const SAMPLES: u8 = 32;
pub const MAX_PERIOD: u16 = 2047;

/// The first fetch after a trigger runs 6 T-cycles late; every later fetch is
/// period-spaced.
pub const TRIGGER_DELAY: u16 = 6;

/// The wave channel: plays 32 4-bit samples from its 16 bytes of wave RAM.
pub struct Wave {
    pub cgb: bool,
    pub active: bool,
    pub dac_enabled: bool,
    pub volume: u8,
    pub period: u16,
    pub timer: u16,
    pub position: u8,
    pub fetch_age: u32,
    pub length: Length,
    pub ram: [u8; 16],
}

/// The wave channel as values.
pub struct WaveModel {
    pub cgb: bool,
    pub active: bool,
    pub dac_enabled: bool,
    pub volume: u8,
    pub period: u16,
    pub timer: u16,
    pub position: u8,
    pub fetch_age: u32,
    pub length: Length,
    pub ram: Seq<u8>,
}

impl View for Wave {
    type V = WaveModel;

    open spec fn view(&self) -> WaveModel {
        WaveModel {
            cgb: self.cgb,
            active: self.active,
            dac_enabled: self.dac_enabled,
            volume: self.volume,
            period: self.period,
            timer: self.timer,
            position: self.position,
            fetch_age: self.fetch_age,
            length: self.length,
            ram: self.ram@,
        }
    }
}

impl WaveModel {
    pub open spec fn fresh(cgb: bool, ram: Seq<u8>, counter: u16) -> WaveModel {
        WaveModel {
            cgb,
            active: false,
            dac_enabled: false,
            volume: 0,
            period: 0,
            timer: 0,
            position: 0,
            fetch_age: u32::MAX,
            length: Length { maximum: 256, counter, enabled: false },
            ram,
        }
    }

    pub open spec fn wf(self) -> bool {
        &&& self.length.wf()
        &&& self.length.maximum == 256
        &&& self.volume <= 3
        &&& self.period <= MAX_PERIOD
        &&& self.timer <= 4102
        &&& self.position < 32
        &&& self.ram.len() == 16
    }

    pub open spec fn step_cycles(self) -> u16 {
        ((2048 - self.period) * 2) as u16
    }

    pub open spec fn tick_spec(self) -> WaveModel {
        if !self.active {
            self
        } else {
            let age = if self.fetch_age == u32::MAX { u32::MAX } else { (self.fetch_age + 1) as u32 };
            let timer = if self.timer > 0 { (self.timer - 1) as u16 } else { 0u16 };
            if timer == 0 {
                WaveModel {
                    timer: self.step_cycles(),
                    position: ((self.position + 1) % 32) as u8,
                    fetch_age: 0,
                    ..self
                }
            } else {
                WaveModel { timer, fetch_age: age, ..self }
            }
        }
    }

    pub open spec fn clock_length_spec(self) -> WaveModel {
        let (length, emptied) = self.length.clock_spec();
        WaveModel { length, active: self.active && !emptied, ..self }
    }

    /// The 4-bit sample at the play position: high nibble first.
    pub open spec fn nibble(self) -> u8 {
        let byte = self.ram[(self.position / 2) as int];
        if self.position % 2 == 0 {
            byte / 16
        } else {
            byte % 16
        }
    }

    /// The DAC input: nothing when off, else the sample shifted right by the volume code less one.
    pub open spec fn level_spec(self) -> Option<u8> {
        if !self.active || !self.dac_enabled {
            None
        } else if self.volume == 0 {
            Some(0)
        } else {
            Some(self.nibble() >> ((self.volume - 1) as u8))
        }
    }

    pub open spec fn read_spec(self, register: u16) -> u8 {
        if register == 0 {
            (if self.dac_enabled { 0xFFint } else { 0x7F }) as u8
        } else if register == 2 {
            (self.volume * 32 + 0x9F) as u8
        } else if register == 4 {
            (if self.length.enabled { 0xFFint } else { 0xBF }) as u8
        } else {
            0xFF
        }
    }

    /// The DMG bug: a trigger 2 T-cycles before a fetch corrupts wave RAM with
    /// the byte about to be read: byte 0 alone if it is among the first four,
    /// the whole aligned block of four otherwise.
    pub open spec fn corrupted(self) -> Seq<u8> {
        let next = ((self.position + 1) % 32) / 2;
        if next < 4 {
            self.ram.update(0, self.ram[next as int])
        } else {
            let start = next - next % 4;
            Seq::new(16, |i: int| if i < 4 { self.ram[start as int + i] } else { self.ram[i] })
        }
    }

    pub open spec fn trigger_spec(self, next_clocks: bool) -> WaveModel {
        let ram = if !self.cgb && self.active && self.timer == 2 { self.corrupted() } else { self.ram };
        WaveModel {
            ram,
            active: self.dac_enabled,
            length: self.length.trigger_spec(next_clocks),
            timer: (self.step_cycles() + TRIGGER_DELAY) as u16,
            position: 0,
            ..self
        }
    }

    pub open spec fn write_spec(self, register: u16, value: u8, next_clocks: bool) -> WaveModel {
        if register == 0 {
            let on = value & 0x80 != 0;
            WaveModel { dac_enabled: on, active: self.active && on, ..self }
        } else if register == 1 {
            WaveModel { length: Length { counter: (256 - value) as u16, ..self.length }, ..self }
        } else if register == 2 {
            WaveModel { volume: (value / 32) % 4, ..self }
        } else if register == 3 {
            WaveModel { period: self.period & 0x0700 | value as u16, ..self }
        } else if register == 4 {
            let period = self.period & 0x00FF | (value as u16 & 0x07) << 8;
            let trigger = value & 0x80 != 0;
            let (length, silenced) = self.length.write_control_spec(
                value & 0x40 != 0,
                trigger,
                next_clocks,
            );
            let s = WaveModel { period, length, active: self.active && !silenced, ..self };
            if trigger {
                s.trigger_spec(next_clocks)
            } else {
                s
            }
        } else {
            self
        }
    }

    /// The DMG exposes wave RAM only on the 2 T-cycles of the channel's own
    /// fetch; the CGB always does.
    pub open spec fn window_open(self) -> bool {
        self.cgb || self.fetch_age <= 1
    }

    /// A read of wave RAM: while the channel plays, the access lands on the byte
    /// being fetched, not the one addressed, and outside the window reads 0xFF.
    pub open spec fn read_ram_spec(self, offset: u16) -> u8 {
        if self.active {
            if self.window_open() {
                self.ram[(self.position / 2) as int]
            } else {
                0xFF
            }
        } else {
            self.ram[offset as int]
        }
    }

    pub open spec fn write_ram_spec(self, offset: u16, value: u8) -> WaveModel {
        if self.active {
            if self.window_open() {
                WaveModel { ram: self.ram.update((self.position / 2) as int, value), ..self }
            } else {
                self
            }
        } else {
            WaveModel { ram: self.ram.update(offset as int, value), ..self }
        }
    }
}

proof fn lemma_period_bits(period: u16, value: u8)
    by (bit_vector)
    requires
        period <= 2047,
    ensures
        (period & 0x0700 | value as u16) <= 2047,
        (period & 0x00FF | (value as u16 & 0x07) << 8) <= 2047,
{
}

impl Wave {
    pub open spec fn wf(&self) -> bool {
        self@.wf()
    }

    pub fn new(cgb: bool) -> (w: Self)
        ensures
            w@ == WaveModel::fresh(cgb, Seq::new(16, |i: int| 0u8), 0),
            w.wf(),
    {
        let w = Wave {
            cgb,
            active: false,
            dac_enabled: false,
            volume: 0,
            period: 0,
            timer: 0,
            position: 0,
            fetch_age: u32::MAX,
            length: Length::new(256),
            ram: [0u8; 16],
        };
        assert(w@.ram =~= Seq::new(16, |i: int| 0u8));
        w
    }

    pub fn tick(&mut self)
        requires
            old(self).wf(),
        ensures
            final(self)@ == old(self)@.tick_spec(),
            final(self).wf(),
    {
        if !self.active {
            return;
        }
        self.fetch_age = self.fetch_age.saturating_add(1);
        if self.timer > 0 {
            self.timer = self.timer - 1;
        }
        if self.timer == 0 {
            self.timer = (MAX_PERIOD + 1 - self.period) * 2;
            self.position = (self.position + 1) % SAMPLES;
            self.fetch_age = 0;
        }
    }

    pub fn clock_length(&mut self)
        requires
            old(self).wf(),
        ensures
            final(self)@ == old(self)@.clock_length_spec(),
            final(self).wf(),
    {
        if self.length.clock() {
            self.active = false;
        }
    }

    pub fn is_active(&self) -> (r: bool)
        ensures
            r == self.active,
    {
        self.active
    }

    /// The channel's DAC input, see `level_spec`.
    pub fn level(&self) -> (r: Option<u8>)
        requires
            self.wf(),
        ensures
            r == self@.level_spec(),
    {
        if !self.active || !self.dac_enabled {
            return None;
        }
        let byte = self.ram[(self.position / 2) as usize];
        let nibble = if self.position % 2 == 0 { byte >> 4 } else { byte & 0x0F };
        proof {
            crate::bits::lemma_u8_bits(byte);
        }
        if self.volume == 0 {
            Some(0)
        } else {
            Some(nibble >> (self.volume - 1))
        }
    }

    /// Loads the length counter from NR31 while the APU is off.
    pub fn write_length(&mut self, value: u8)
        requires
            old(self).wf(),
        ensures
            final(self)@ == (WaveModel {
                length: Length { counter: (256 - value) as u16, ..old(self)@.length },
                ..old(self)@
            }),
            final(self).wf(),
    {
        self.length.set(value);
    }

    /// Powering the APU off clears the registers; wave RAM and the length counter stay.
    pub fn power_off(&mut self)
        requires
            old(self).wf(),
        ensures
            final(self)@ == WaveModel::fresh(old(self).cgb, old(self)@.ram, old(self).length.counter),
            final(self).wf(),
    {
        let ram = self.ram;
        let counter = self.length.counter();
        *self = Self::new(self.cgb);
        self.ram = ram;
        self.length.restore(counter);
    }

    pub fn read(&self, register: u16) -> (r: u8)
        requires
            self.wf(),
        ensures
            r == self@.read_spec(register),
    {
        if register == 0 {
            if self.dac_enabled { 0xFF } else { 0x7F }
        } else if register == 2 {
            self.volume * 32 + 0x9F
        } else if register == 4 {
            if self.length.enabled() { 0xFF } else { 0xBF }
        } else {
            0xFF
        }
    }

    fn corrupt_ram(&mut self)
        requires
            old(self).wf(),
        ensures
            final(self)@ == (WaveModel { ram: old(self)@.corrupted(), ..old(self)@ }),
            final(self).wf(),
    {
        let next = ((self.position + 1) % SAMPLES / 2) as usize;
        if next < 4 {
            self.ram[0] = self.ram[next];
        } else {
            let start = next - next % 4;
            let b0 = self.ram[start];
            let b1 = self.ram[start + 1];
            let b2 = self.ram[start + 2];
            let b3 = self.ram[start + 3];
            self.ram[0] = b0;
            self.ram[1] = b1;
            self.ram[2] = b2;
            self.ram[3] = b3;
        }
        assert(self@.ram =~= old(self)@.corrupted());
    }

    fn trigger(&mut self, next_clocks: bool)
        requires
            old(self).wf(),
        ensures
            final(self)@ == old(self)@.trigger_spec(next_clocks),
            final(self).wf(),
    {
        // The corruption is a DMG bug; the CGB retriggers cleanly.
        if !self.cgb && self.active && self.timer == 2 {
            self.corrupt_ram();
        }
        self.active = self.dac_enabled;
        self.length.trigger(next_clocks);
        self.timer = (MAX_PERIOD + 1 - self.period) * 2 + TRIGGER_DELAY;
        self.position = 0;
    }

    /// A write to NR30..NR34 (register 0..4) with the APU on.
    pub fn write(&mut self, register: u16, value: u8, next_clocks: bool)
        requires
            old(self).wf(),
        ensures
            final(self)@ == old(self)@.write_spec(register, value, next_clocks),
            final(self).wf(),
    {
        proof {
            crate::bits::lemma_u8_bits(value);
            lemma_period_bits(self.period, value);
        }
        if register == 0 {
            self.dac_enabled = value & 0x80 != 0;
            if !self.dac_enabled {
                self.active = false;
            }
        } else if register == 1 {
            self.length.set(value);
        } else if register == 2 {
            self.volume = value >> 5 & 0x03;
        } else if register == 3 {
            self.period = self.period & 0x0700 | value as u16;
        } else if register == 4 {
            self.period = self.period & 0x00FF | (value as u16 & 0x07) << 8;
            let trigger = value & 0x80 != 0;
            if self.length.write_control(value & 0x40 != 0, trigger, next_clocks) {
                self.active = false;
            }
            if trigger {
                self.trigger(next_clocks);
            }
        }
    }

    fn access_window_open(&self) -> (r: bool)
        ensures
            r == self@.window_open(),
    {
        self.cgb || self.fetch_age <= 1
    }

    pub fn read_ram(&self, offset: u16) -> (r: u8)
        requires
            self.wf(),
            offset < 16,
        ensures
            r == self@.read_ram_spec(offset),
    {
        if self.active {
            if self.access_window_open() {
                return self.ram[(self.position / 2) as usize];
            }
            return 0xFF;
        }
        self.ram[offset as usize]
    }

    pub fn write_ram(&mut self, offset: u16, value: u8)
        requires
            old(self).wf(),
            offset < 16,
        ensures
            final(self)@ == old(self)@.write_ram_spec(offset, value),
            final(self).wf(),
    {
        if self.active {
            if self.access_window_open() {
                self.ram[(self.position / 2) as usize] = value;
            }
            return;
        }
        self.ram[offset as usize] = value;
    }
}

/// With the channel stopped, wave RAM reads back exactly what was written, at the
/// address written.
pub proof fn law_idle_wave_ram_round_trip(w: WaveModel, offset: u16, other: u16, value: u8)
    requires
        w.wf(),
        !w.active,
        offset < 16,
        other < 16,
    ensures
        w.write_ram_spec(offset, value).read_ram_spec(offset) == value,
        other != offset ==> w.write_ram_spec(offset, value).read_ram_spec(other) == w.read_ram_spec(other),
{
}

/// Retriggering never touches wave RAM on the CGB; on the DMG it does only
/// when the channel runs and a fetch is 2 T-cycles away.
pub proof fn law_retrigger_corrupts_only_on_the_dmg(w: WaveModel, next_clocks: bool)
    ensures
        w.cgb ==> w.trigger_spec(next_clocks).ram == w.ram,
        !(w.active && w.timer == 2) ==> w.trigger_spec(next_clocks).ram == w.ram,
{
}

/// What the channel hands its DAC: nothing while it is off or its DAC is off;
/// else the sample at the play position, taken from wave RAM byte
/// `position / 2`, high nibble at even positions and low nibble at odd ones,
/// played at full volume (code 1), halved (code 2), quartered (code 3) or
/// muted (code 0).
pub proof fn law_wave_level(w: WaveModel)
    requires
        w.wf(),
    ensures
        !w.active || !w.dac_enabled ==> w.level_spec() is None,
        w.active && w.dac_enabled ==> w.level_spec() == Some(({
            let byte: u8 = w.ram[(w.position / 2) as int];
            let sample: u8 = if w.position % 2 == 0 { byte >> 4 } else { byte & 0x0F };
            if w.volume == 0 {
                0u8
            } else if w.volume == 1 {
                sample
            } else if w.volume == 2 {
                sample / 2
            } else {
                sample / 4
            }
        })),
{
    let byte: u8 = w.ram[(w.position / 2) as int];
    crate::bits::lemma_u8_bits(byte);
    crate::bits::lemma_u8_bits(w.nibble());
}

} // verus!
