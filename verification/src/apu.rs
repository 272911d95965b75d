pub mod envelope;
pub mod length;
pub mod square;
pub mod noise;
pub mod wave;

use vstd::prelude::*;
use crate::apu::noise::Noise;
use crate::apu::square::Square;
use crate::apu::wave::{Wave, WaveModel};
use crate::apu::length::Length;

verus! {

pub const SAMPLE_RATE: u32 = 48_000;
pub const CYCLES_PER_SECOND: u32 = 4_194_304;
pub const CYCLES_PER_FRAME_STEP: u32 = 8192;
pub const FRAME_STEPS: u8 = 8;

pub const NR10: u16 = 0xFF10;
pub const NR11: u16 = 0xFF11;
pub const NR14: u16 = 0xFF14;
pub const NR21: u16 = 0xFF16;
pub const NR24: u16 = 0xFF19;
pub const NR30: u16 = 0xFF1A;
pub const NR31: u16 = 0xFF1B;
pub const NR34: u16 = 0xFF1E;
pub const NR41: u16 = 0xFF20;
pub const NR44: u16 = 0xFF23;
pub const NR50: u16 = 0xFF24;
pub const NR51: u16 = 0xFF25;
pub const NR52: u16 = 0xFF26;
pub const WAVE_START: u16 = 0xFF30;
pub const WAVE_END: u16 = 0xFF3F;

pub const NR52_ENABLED: u8 = 0x80;

/// One output sample before mixing: what each channel feeds its DAC (`None`
/// for a silent channel, else 0..=15), with the panning (NR51) and master
/// volumes (NR50) in force. A powered-off APU outputs silence.
#[derive(Clone, Copy, PartialEq, Eq, Debug)]
pub struct SampleFrame {
    pub enabled: bool,
    pub square1: Option<u8>,
    pub square2: Option<u8>,
    pub wave: Option<u8>,
    pub noise: Option<u8>,
    pub panning: u8,
    pub volumes: u8,
}

/// The audio processing unit: four channels, the frame sequencer that clocks
/// their length counters, sweep and envelopes, and the sample clock.
pub struct Apu {
    pub enabled: bool,
    pub square1: Square,
    pub square2: Square,
    pub wave: Wave,
    pub noise: Noise,
    pub volumes: u8,
    pub panning: u8,
    pub frame_step: u8,
    pub frame_counter: u32,
    pub sample_counter: u32,
    pub samples: Vec<SampleFrame>,
}

/// The APU as values.
pub struct ApuModel {
    pub enabled: bool,
    pub square1: Square,
    pub square2: Square,
    pub wave: WaveModel,
    pub noise: Noise,
    pub volumes: u8,
    pub panning: u8,
    pub frame_step: u8,
    pub frame_counter: u32,
    pub sample_counter: u32,
    pub samples: Seq<SampleFrame>,
}

impl View for Apu {
    type V = ApuModel;

    open spec fn view(&self) -> ApuModel {
        ApuModel {
            enabled: self.enabled,
            square1: self.square1,
            square2: self.square2,
            wave: self.wave@,
            noise: self.noise,
            volumes: self.volumes,
            panning: self.panning,
            frame_step: self.frame_step,
            frame_counter: self.frame_counter,
            sample_counter: self.sample_counter,
            samples: self.samples@,
        }
    }
}

impl ApuModel {
    /// The APU at power-on: switched off, every channel fresh, wave RAM zero,
    /// the sequencer and the sample clock at their start, no samples queued.
    pub open spec fn initial(cgb: bool) -> ApuModel {
        ApuModel {
            enabled: false,
            square1: Square::fresh(true),
            square2: Square::fresh(false),
            wave: WaveModel::fresh(cgb, Seq::new(16, |i: int| 0u8), 0),
            noise: Noise::fresh(),
            volumes: 0,
            panning: 0,
            frame_step: 0,
            frame_counter: 0,
            sample_counter: 0,
            samples: Seq::empty(),
        }
    }

    pub open spec fn wf(self) -> bool {
        &&& self.square1.wf()
        &&& self.square1.has_sweep
        &&& self.square2.wf()
        &&& !self.square2.has_sweep
        &&& self.wave.wf()
        &&& self.noise.wf()
        &&& self.frame_step < FRAME_STEPS
        &&& self.frame_counter < CYCLES_PER_FRAME_STEP
        &&& self.sample_counter < CYCLES_PER_SECOND
    }

    /// The sequencer holds the step it will run next; the even steps clock length.
    pub open spec fn next_clocks_length(self) -> bool {
        self.frame_step % 2 == 0
    }

    pub open spec fn advance_frame_sequencer_spec(self) -> ApuModel {
        let step = self.frame_step;
        let lengths = if step % 2 == 0 {
            ApuModel {
                square1: self.square1.clock_length_spec(),
                square2: self.square2.clock_length_spec(),
                wave: self.wave.clock_length_spec(),
                noise: self.noise.clock_length_spec(),
                ..self
            }
        } else {
            self
        };
        let swept = if step == 2 || step == 6 {
            ApuModel { square1: lengths.square1.clock_sweep_spec(), ..lengths }
        } else {
            lengths
        };
        let enveloped = if step == 7 {
            ApuModel {
                square1: Square { envelope: swept.square1.envelope.clock_spec(), ..swept.square1 },
                square2: Square { envelope: swept.square2.envelope.clock_spec(), ..swept.square2 },
                noise: Noise { envelope: swept.noise.envelope.clock_spec(), ..swept.noise },
                ..swept
            }
        } else {
            swept
        };
        ApuModel { frame_step: ((step + 1) % 8) as u8, ..enveloped }
    }

    pub open spec fn mix_spec(self) -> SampleFrame {
        SampleFrame {
            enabled: self.enabled,
            square1: if self.enabled { self.square1.level_spec() } else { None },
            square2: if self.enabled { self.square2.level_spec() } else { None },
            wave: if self.enabled { self.wave.level_spec() } else { None },
            noise: if self.enabled { self.noise.level_spec() } else { None },
            panning: self.panning,
            volumes: self.volumes,
        }
    }

    /// One T-cycle: the frame sequencer, the four channel timers, and a sample
    /// every 4194304 / 48000 cycles on average.
    pub open spec fn tick1(self) -> ApuModel {
        let counted = (self.frame_counter + 1) as u32;
        let sequenced = if counted >= CYCLES_PER_FRAME_STEP {
            ApuModel { frame_counter: 0, ..self }.advance_frame_sequencer_spec()
        } else {
            ApuModel { frame_counter: counted, ..self }
        };
        let ticked = ApuModel {
            square1: sequenced.square1.tick_spec(),
            square2: sequenced.square2.tick_spec(),
            wave: sequenced.wave.tick_spec(),
            noise: sequenced.noise.tick_spec(),
            ..sequenced
        };
        let due = ticked.sample_counter + SAMPLE_RATE;
        if due >= CYCLES_PER_SECOND {
            ApuModel {
                sample_counter: (due - CYCLES_PER_SECOND) as u32,
                samples: ticked.samples.push(ticked.mix_spec()),
                ..ticked
            }
        } else {
            ApuModel { sample_counter: due as u32, ..ticked }
        }
    }

    pub open spec fn tick_n(self, n: nat) -> ApuModel
        decreases n,
    {
        if n == 0 {
            self
        } else {
            self.tick_n((n - 1) as nat).tick1()
        }
    }

    pub open spec fn status(self) -> u8 {
        (0x70 + (if self.enabled { 0x80int } else { 0 }) + (if self.square1.active { 1int } else {
            0
        }) + (if self.square2.active { 2int } else { 0 }) + (if self.wave.active { 4int } else {
            0
        }) + (if self.noise.active { 8int } else { 0 })) as u8
    }

    pub open spec fn read_spec(self, address: u16) -> u8 {
        if NR10 <= address <= NR14 {
            self.square1.read_spec((address - NR10) as u16)
        } else if NR21 <= address <= NR24 {
            self.square2.read_spec((address - NR21 + 1) as u16)
        } else if NR30 <= address <= NR34 {
            self.wave.read_spec((address - NR30) as u16)
        } else if NR41 <= address <= NR44 {
            self.noise.read_spec((address - NR41 + 1) as u16)
        } else if address == NR50 {
            self.volumes
        } else if address == NR51 {
            self.panning
        } else if address == NR52 {
            self.status()
        } else if WAVE_START <= address <= WAVE_END {
            self.wave.read_ram_spec((address - WAVE_START) as u16)
        } else {
            0xFF
        }
    }

    pub open spec fn set_enabled_spec(self, enabled: bool) -> ApuModel {
        let off = if self.enabled && !enabled {
            ApuModel {
                square1: Square {
                    length: Length { counter: self.square1.length.counter, ..Square::fresh(true).length },
                    ..Square::fresh(true)
                },
                square2: Square {
                    length: Length { counter: self.square2.length.counter, ..Square::fresh(false).length },
                    ..Square::fresh(false)
                },
                wave: WaveModel::fresh(self.wave.cgb, self.wave.ram, self.wave.length.counter),
                noise: Noise {
                    length: Length { counter: self.noise.length.counter, ..Noise::fresh().length },
                    ..Noise::fresh()
                },
                volumes: 0,
                panning: 0,
                ..self
            }
        } else {
            self
        };
        let restarted = if !self.enabled && enabled {
            ApuModel { frame_step: 0, ..off }
        } else {
            off
        };
        ApuModel { enabled, ..restarted }
    }

    pub open spec fn write_spec(self, address: u16, value: u8) -> ApuModel {
        let next = self.next_clocks_length();
        if address == NR52 {
            self.set_enabled_spec(value & NR52_ENABLED != 0)
        } else if !self.enabled {
            // Wave RAM is always reachable, and the DMG keeps its length counters
            // loadable with the APU off; the rest is inert.
            if address == NR11 {
                ApuModel { square1: Square { length: Length { counter: (64 - value % 64) as u16, ..self.square1.length }, ..self.square1 }, ..self }
            } else if address == NR21 {
                ApuModel { square2: Square { length: Length { counter: (64 - value % 64) as u16, ..self.square2.length }, ..self.square2 }, ..self }
            } else if address == NR31 {
                ApuModel { wave: WaveModel { length: Length { counter: (256 - value) as u16, ..self.wave.length }, ..self.wave }, ..self }
            } else if address == NR41 {
                ApuModel { noise: Noise { length: Length { counter: (64 - value % 64) as u16, ..self.noise.length }, ..self.noise }, ..self }
            } else if WAVE_START <= address <= WAVE_END {
                ApuModel { wave: self.wave.write_ram_spec((address - WAVE_START) as u16, value), ..self }
            } else {
                self
            }
        } else if NR10 <= address <= NR14 {
            ApuModel { square1: self.square1.write_spec((address - NR10) as u16, value, next), ..self }
        } else if NR21 <= address <= NR24 {
            ApuModel { square2: self.square2.write_spec((address - NR21 + 1) as u16, value, next), ..self }
        } else if NR30 <= address <= NR34 {
            ApuModel { wave: self.wave.write_spec((address - NR30) as u16, value, next), ..self }
        } else if NR41 <= address <= NR44 {
            ApuModel { noise: self.noise.write_spec((address - NR41 + 1) as u16, value, next), ..self }
        } else if address == NR50 {
            ApuModel { volumes: value, ..self }
        } else if address == NR51 {
            ApuModel { panning: value, ..self }
        } else if WAVE_START <= address <= WAVE_END {
            ApuModel { wave: self.wave.write_ram_spec((address - WAVE_START) as u16, value), ..self }
        } else {
            self
        }
    }
}

impl Apu {
    pub open spec fn wf(&self) -> bool {
        self@.wf()
    }

    pub fn new(cgb: bool) -> (a: Self)
        ensures
            a.wf(),
            a@ == ApuModel::initial(cgb),
    {
        let a = Apu {
            enabled: false,
            square1: Square::new(true),
            square2: Square::new(false),
            wave: Wave::new(cgb),
            noise: Noise::new(),
            volumes: 0,
            panning: 0,
            frame_step: 0,
            frame_counter: 0,
            sample_counter: 0,
            samples: Vec::new(),
        };
        assert(a@.samples =~= Seq::empty());
        a
    }

    fn advance_frame_sequencer(&mut self)
        requires
            old(self).wf(),
        ensures
            final(self)@ == old(self)@.advance_frame_sequencer_spec(),
            final(self).wf(),
    {
        if self.frame_step % 2 == 0 {
            self.square1.clock_length();
            self.square2.clock_length();
            self.wave.clock_length();
            self.noise.clock_length();
        }
        if self.frame_step == 2 || self.frame_step == 6 {
            self.square1.clock_sweep();
        }
        if self.frame_step == 7 {
            self.square1.clock_envelope();
            self.square2.clock_envelope();
            self.noise.clock_envelope();
        }
        self.frame_step = (self.frame_step + 1) % FRAME_STEPS;
    }

    fn mix(&self) -> (r: SampleFrame)
        requires
            self.wf(),
        ensures
            r == self@.mix_spec(),
    {
        if !self.enabled {
            return SampleFrame {
                enabled: false,
                square1: None,
                square2: None,
                wave: None,
                noise: None,
                panning: self.panning,
                volumes: self.volumes,
            };
        }
        SampleFrame {
            enabled: true,
            square1: self.square1.level(),
            square2: self.square2.level(),
            wave: self.wave.level(),
            noise: self.noise.level(),
            panning: self.panning,
            volumes: self.volumes,
        }
    }

    fn tick1(&mut self)
        requires
            old(self).wf(),
        ensures
            final(self)@ == old(self)@.tick1(),
            final(self).wf(),
    {
        self.frame_counter = self.frame_counter + 1;
        if self.frame_counter >= CYCLES_PER_FRAME_STEP {
            self.frame_counter = 0;
            self.advance_frame_sequencer();
        }
        self.square1.tick();
        self.square2.tick();
        self.wave.tick();
        self.noise.tick();
        self.sample_counter = self.sample_counter + SAMPLE_RATE;
        if self.sample_counter >= CYCLES_PER_SECOND {
            self.sample_counter = self.sample_counter - CYCLES_PER_SECOND;
            let sample = self.mix();
            self.samples.push(sample);
        }
    }

    /// Runs the APU for `t_cycles` T-cycles. It raises no interrupt.
    pub fn tick(&mut self, t_cycles: u8) -> (r: u8)
        requires
            old(self).wf(),
        ensures
            r == 0,
            final(self)@ == old(self)@.tick_n(t_cycles as nat),
            final(self).wf(),
    {
        let mut i: u8 = 0;
        while i < t_cycles
            invariant
                i <= t_cycles,
                self.wf(),
                self@ == old(self)@.tick_n(i as nat),
            decreases t_cycles - i,
        {
            self.tick1();
            i = i + 1;
        }
        0
    }

    /// The samples made since the last call, oldest first.
    pub fn take_samples(&mut self) -> (r: Vec<SampleFrame>)
        requires
            old(self).wf(),
        ensures
            r@ == old(self)@.samples,
            final(self)@ == (ApuModel { samples: Seq::empty(), ..old(self)@ }),
            final(self).wf(),
    {
        let mut taken: Vec<SampleFrame> = Vec::new();
        std::mem::swap(&mut taken, &mut self.samples);
        taken
    }

    fn status(&self) -> (r: u8)
        requires
            self.wf(),
        ensures
            r == self@.status(),
    {
        let mut status: u8 = 0x70;
        if self.enabled {
            status = status + 0x80;
        }
        if self.square1.is_active() {
            status = status + 1;
        }
        if self.square2.is_active() {
            status = status + 2;
        }
        if self.wave.is_active() {
            status = status + 4;
        }
        if self.noise.is_active() {
            status = status + 8;
        }
        status
    }

    pub fn read(&self, address: u16) -> (r: u8)
        requires
            self.wf(),
        ensures
            r == self@.read_spec(address),
    {
        if NR10 <= address && address <= NR14 {
            self.square1.read(address - NR10)
        } else if NR21 <= address && address <= NR24 {
            self.square2.read(address - NR21 + 1)
        } else if NR30 <= address && address <= NR34 {
            self.wave.read(address - NR30)
        } else if NR41 <= address && address <= NR44 {
            self.noise.read(address - NR41 + 1)
        } else if address == NR50 {
            self.volumes
        } else if address == NR51 {
            self.panning
        } else if address == NR52 {
            self.status()
        } else if WAVE_START <= address && address <= WAVE_END {
            self.wave.read_ram(address - WAVE_START)
        } else {
            0xFF
        }
    }

    fn set_enabled(&mut self, enabled: bool)
        requires
            old(self).wf(),
        ensures
            final(self)@ == old(self)@.set_enabled_spec(enabled),
            final(self).wf(),
    {
        if self.enabled && !enabled {
            self.square1.power_off();
            self.square2.power_off();
            self.wave.power_off();
            self.noise.power_off();
            self.volumes = 0;
            self.panning = 0;
        }
        if !self.enabled && enabled {
            self.frame_step = 0;
        }
        self.enabled = enabled;
    }

    pub fn write(&mut self, address: u16, value: u8)
        requires
            old(self).wf(),
        ensures
            final(self)@ == old(self)@.write_spec(address, value),
            final(self).wf(),
    {
        if address == NR52 {
            self.set_enabled(value & NR52_ENABLED != 0);
            return;
        }
        if !self.enabled {
            if address == NR11 {
                self.square1.write_length(value);
            } else if address == NR21 {
                self.square2.write_length(value);
            } else if address == NR31 {
                self.wave.write_length(value);
            } else if address == NR41 {
                self.noise.write_length(value);
            } else if WAVE_START <= address && address <= WAVE_END {
                self.wave.write_ram(address - WAVE_START, value);
            }
            return;
        }
        let next_clocks = self.frame_step % 2 == 0;
        if NR10 <= address && address <= NR14 {
            self.square1.write(address - NR10, value, next_clocks);
        } else if NR21 <= address && address <= NR24 {
            self.square2.write(address - NR21 + 1, value, next_clocks);
        } else if NR30 <= address && address <= NR34 {
            self.wave.write(address - NR30, value, next_clocks);
        } else if NR41 <= address && address <= NR44 {
            self.noise.write(address - NR41 + 1, value, next_clocks);
        } else if address == NR50 {
            self.volumes = value;
        } else if address == NR51 {
            self.panning = value;
        } else if WAVE_START <= address && address <= WAVE_END {
            self.wave.write_ram(address - WAVE_START, value);
        }
    }
}

/// With the APU powered off, writes to the mixer registers do nothing.
pub proof fn law_powered_off_ignores_mixer_writes(a: ApuModel, address: u16, value: u8)
    requires
        !a.enabled,
        address == NR50 || address == NR51,
    ensures
        a.write_spec(address, value) == a,
{
}

/// Powering off clears NR50 and NR51 and leaves wave RAM alone.
pub proof fn law_power_off_clears_mixer_keeps_wave_ram(a: ApuModel, value: u8)
    requires
        a.enabled,
        value & NR52_ENABLED == 0,
    ensures
        a.write_spec(NR52, value).read_spec(NR50) == 0,
        a.write_spec(NR52, value).read_spec(NR51) == 0,
        a.write_spec(NR52, value).wave.ram == a.wave.ram,
        !a.write_spec(NR52, value).wave.active,
{
}

/// Powering off keeps every channel's length counter: only the DMG's power
/// switch leaves them, so a counter loaded before survives a power cycle.
pub proof fn law_power_off_keeps_length_counters(a: ApuModel, value: u8)
    requires
        a.enabled,
        value & NR52_ENABLED == 0,
    ensures
        a.write_spec(NR52, value).square1.length.counter == a.square1.length.counter,
        a.write_spec(NR52, value).square2.length.counter == a.square2.length.counter,
        a.write_spec(NR52, value).wave.length.counter == a.wave.length.counter,
        a.write_spec(NR52, value).noise.length.counter == a.noise.length.counter,
{
}

/// NR52 reads the power bit, the four channel-active bits and 0x70 for the unused bits.
pub proof fn law_nr52_reads_status(a: ApuModel)
    ensures
        a.read_spec(NR52) & 0x70 == 0x70,
        (a.read_spec(NR52) & 0x80 != 0) == a.enabled,
        (a.read_spec(NR52) & 0x01 != 0) == a.square1.active,
{
    let s = a.read_spec(NR52);
    let e: u8 = if a.enabled { 1 } else { 0 };
    let c1: u8 = if a.square1.active { 1 } else { 0 };
    let c2: u8 = if a.square2.active { 1 } else { 0 };
    let c3: u8 = if a.wave.active { 1 } else { 0 };
    let c4: u8 = if a.noise.active { 1 } else { 0 };
    assert(s == 0x70 + 0x80 * e + c1 + 2 * c2 + 4 * c3 + 8 * c4);
    assert(e <= 1 && c1 <= 1 && c2 <= 1 && c3 <= 1 && c4 <= 1 && s == 0x70 + 0x80 * e + c1 + 2
        * c2 + 4 * c3 + 8 * c4 ==> s & 0x70 == 0x70 && (s & 0x80 != 0) == (e == 1) && (s & 0x01
        != 0) == (c1 == 1)) by (bit_vector);
}

/// Ticking only appends samples: every sample already queued stays, in order.
pub proof fn law_ticks_only_append_samples(a: ApuModel, n: nat)
    ensures
        a.samples.is_prefix_of(a.tick_n(n).samples),
    decreases n,
{
    if n > 0 {
        law_ticks_only_append_samples(a, (n - 1) as nat);
        let before = a.tick_n((n - 1) as nat);
        assert(before.samples.is_prefix_of(before.tick1().samples));
    }
}

/// Samples come at the sample rate: n T-cycles add one sample each time the
/// sample clock passes 4194304, which from a fresh clock is 48000 a second.
pub proof fn law_samples_at_the_sample_rate(a: ApuModel, n: nat)
    requires
        a.sample_counter < CYCLES_PER_SECOND,
    ensures
        a.tick_n(n).samples.len() == a.samples.len() + (a.sample_counter + n * SAMPLE_RATE) / (
        CYCLES_PER_SECOND as int),
        a.tick_n(n).sample_counter == (a.sample_counter + n * SAMPLE_RATE) % (CYCLES_PER_SECOND as int),
    decreases n,
{
    if n > 0 {
        law_samples_at_the_sample_rate(a, (n - 1) as nat);
        let x = a.sample_counter + (n - 1) * SAMPLE_RATE;
        assert(x + SAMPLE_RATE == a.sample_counter + n * SAMPLE_RATE) by (nonlinear_arith)
            requires
                x == a.sample_counter + (n - 1) * SAMPLE_RATE,
                n > 0;
        assert(x >= 0) by (nonlinear_arith)
            requires
                x == a.sample_counter + (n - 1) * SAMPLE_RATE,
                n > 0;
        let q = x / 4194304;
        let r = x % 4194304;
        assert(x == q * 4194304 + r && 0 <= r < 4194304);
        if r + 48000 >= 4194304 {
            assert((x + 48000) / 4194304 == q + 1 && (x + 48000) % 4194304 == r + 48000 - 4194304);
        } else {
            assert((x + 48000) / 4194304 == q && (x + 48000) % 4194304 == r + 48000);
        }
    }
}

} // verus!
