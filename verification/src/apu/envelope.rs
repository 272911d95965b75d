use vstd::prelude::*;

verus! {

/// A volume envelope: a starting volume, a direction, and a period in
/// sequencer steps between volume changes.
pub struct Envelope {
    pub initial: u8,
    pub increasing: bool,
    pub period: u8,
    pub volume: u8,
    pub timer: u8,
}

impl Envelope {
    pub open spec fn wf(self) -> bool {
        self.initial <= 15 && self.period <= 7 && self.volume <= 15 && self.timer <= 8
    }

    pub open spec fn dac_on(self) -> bool {
        self.initial > 0 || self.increasing
    }

    pub open spec fn read_spec(self) -> u8 {
        (self.initial * 16 + (if self.increasing { 8int } else { 0 }) + self.period) as u8
    }

    pub open spec fn write_spec(self, value: u8) -> Envelope {
        Envelope {
            initial: value / 16,
            increasing: value & 0x08 != 0,
            period: value % 8,
            ..self
        }
    }

    pub open spec fn trigger_spec(self) -> Envelope {
        Envelope { volume: self.initial, timer: if self.period == 0 { 8 } else { self.period }, ..self }
    }

    /// One envelope step of the frame sequencer.
    pub open spec fn clock_spec(self) -> Envelope {
        if self.period == 0 {
            self
        } else {
            let timer = if self.timer > 0 { (self.timer - 1) as u8 } else { 0u8 };
            if timer != 0 {
                Envelope { timer, ..self }
            } else {
                let volume = if self.increasing && self.volume < 15 {
                    (self.volume + 1) as u8
                } else if !self.increasing && self.volume > 0 {
                    (self.volume - 1) as u8
                } else {
                    self.volume
                };
                Envelope { timer: self.period, volume, ..self }
            }
        }
    }

    pub fn new() -> (e: Self)
        ensures
            e == (Envelope { initial: 0, increasing: false, period: 0, volume: 0, timer: 0 }),
            e.wf(),
    {
        Envelope { initial: 0, increasing: false, period: 0, volume: 0, timer: 0 }
    }

    /// The DAC is powered when the envelope starts above zero or counts upwards.
    pub fn dac_enabled(&self) -> (r: bool)
        ensures
            r == self.dac_on(),
    {
        self.initial > 0 || self.increasing
    }

    pub fn volume(&self) -> (r: u8)
        ensures
            r == self.volume,
    {
        self.volume
    }

    pub fn read(&self) -> (r: u8)
        requires
            self.wf(),
        ensures
            r == self.read_spec(),
    {
        let inc: u8 = if self.increasing { 8 } else { 0 };
        self.initial * 16 + inc + self.period
    }

    pub fn write(&mut self, value: u8)
        requires
            old(self).wf(),
        ensures
            *final(self) == old(self).write_spec(value),
            final(self).wf(),
    {
        proof {
            crate::bits::lemma_u8_bits(value);
        }
        self.initial = value >> 4;
        self.increasing = value & 0x08 != 0;
        self.period = value & 0x07;
    }

    pub fn trigger(&mut self)
        requires
            old(self).wf(),
        ensures
            *final(self) == old(self).trigger_spec(),
            final(self).wf(),
    {
        self.volume = self.initial;
        self.timer = if self.period == 0 { 8 } else { self.period };
    }

    pub fn clock(&mut self)
        requires
            old(self).wf(),
        ensures
            *final(self) == old(self).clock_spec(),
            final(self).wf(),
    {
        if self.period == 0 {
            return;
        }
        if self.timer > 0 {
            self.timer = self.timer - 1;
        }
        if self.timer != 0 {
            return;
        }
        self.timer = self.period;
        if self.increasing && self.volume < 15 {
            self.volume = self.volume + 1;
        } else if !self.increasing && self.volume > 0 {
            self.volume = self.volume - 1;
        }
    }
}

/// An envelope's volume stays within 0..=15 and moves by at most one step per clock,
/// in its own direction.
pub proof fn law_envelope_volume_moves_one_step(e: Envelope)
    requires
        e.wf(),
    ensures
        e.clock_spec().wf(),
        e.increasing ==> e.volume <= e.clock_spec().volume <= e.volume + 1,
        !e.increasing ==> e.volume - 1 <= e.clock_spec().volume <= e.volume,
{
}

/// The register reads back what was written.
pub proof fn law_envelope_register_round_trip(e: Envelope, value: u8)
    requires
        e.wf(),
    ensures
        e.write_spec(value).read_spec() == value,
{
    assert(value / 16 * 16 + (if value & 0x08 != 0 { 8u8 } else { 0u8 }) + value % 8 == value)
        by (bit_vector);
}

} // verus!
