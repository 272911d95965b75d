use vstd::prelude::*;

verus! {

/// A length counter: counts sequencer steps down to zero and silences its
/// channel when it gets there, if enabled.
pub struct Length {
    pub maximum: u16,
    pub counter: u16,
    pub enabled: bool,
}

impl Length {
    pub open spec fn wf(self) -> bool {
        self.counter <= self.maximum && self.maximum > 0
    }

    pub open spec fn write_control_spec(self, enabled: bool, trigger: bool, next_clocks: bool) -> (Length, bool) {
        let steals_a_clock = !next_clocks && !self.enabled && enabled && self.counter > 0;
        if !steals_a_clock {
            (Length { enabled, ..self }, false)
        } else {
            let counter = (self.counter - 1) as u16;
            (Length { enabled, counter, ..self }, counter == 0 && !trigger)
        }
    }

    pub open spec fn trigger_spec(self, next_clocks: bool) -> Length {
        if self.counter != 0 {
            self
        } else if self.enabled && !next_clocks {
            Length { counter: (self.maximum - 1) as u16, ..self }
        } else {
            Length { counter: self.maximum, ..self }
        }
    }

    pub open spec fn clock_spec(self) -> (Length, bool) {
        if !self.enabled || self.counter == 0 {
            (self, false)
        } else {
            let counter = (self.counter - 1) as u16;
            (Length { counter, ..self }, counter == 0)
        }
    }

    pub fn new(maximum: u16) -> (l: Self)
        requires
            maximum > 0,
        ensures
            l == (Length { maximum, counter: 0, enabled: false }),
            l.wf(),
    {
        Length { maximum, counter: 0, enabled: false }
    }

    /// Loads the counter: it will count `maximum - value` steps.
    pub fn set(&mut self, value: u8)
        requires
            old(self).wf(),
            value <= old(self).maximum,
        ensures
            *final(self) == (Length { counter: (old(self).maximum - value) as u16, ..*old(self) }),
            final(self).wf(),
    {
        self.counter = self.maximum - value as u16;
    }

    pub fn enabled(&self) -> (r: bool)
        ensures
            r == self.enabled,
    {
        self.enabled
    }

    pub fn counter(&self) -> (r: u16)
        ensures
            r == self.counter,
    {
        self.counter
    }

    pub fn restore(&mut self, counter: u16)
        ensures
            *final(self) == (Length { counter, ..*old(self) }),
    {
        self.counter = counter;
    }

    /// Enabling the counter while the sequencer's next step is not a length
    /// step steals one extra clock. Answers whether that emptied the counter
    /// with no trigger in the same write to refill it, which silences the channel.
    pub fn write_control(&mut self, enabled: bool, trigger: bool, next_clocks: bool) -> (r: bool)
        requires
            old(self).wf(),
        ensures
            (*final(self), r) == old(self).write_control_spec(enabled, trigger, next_clocks),
            final(self).wf(),
    {
        let steals_a_clock = !next_clocks && !self.enabled && enabled && self.counter > 0;
        self.enabled = enabled;
        if !steals_a_clock {
            return false;
        }
        self.counter = self.counter - 1;
        self.counter == 0 && !trigger
    }

    /// A trigger refills an empty counter, one short if enabled between length steps.
    pub fn trigger(&mut self, next_clocks: bool)
        requires
            old(self).wf(),
        ensures
            *final(self) == old(self).trigger_spec(next_clocks),
            final(self).wf(),
    {
        if self.counter != 0 {
            return;
        }
        self.counter = self.maximum;
        if self.enabled && !next_clocks {
            self.counter = self.counter - 1;
        }
    }

    /// One length step; answers whether it emptied the counter.
    pub fn clock(&mut self) -> (r: bool)
        requires
            old(self).wf(),
        ensures
            (*final(self), r) == old(self).clock_spec(),
            final(self).wf(),
    {
        if !self.enabled || self.counter == 0 {
            return false;
        }
        self.counter = self.counter - 1;
        self.counter == 0
    }
}

/// An enabled, non-empty counter loses one per length step, and reports that
/// it emptied on the step that takes it from 1 to 0 and on no other.
pub proof fn law_length_counts_down(l: Length)
    requires
        l.wf(),
        l.enabled,
        l.counter > 0,
    ensures
        l.clock_spec().1 == (l.counter == 1),
        l.clock_spec().0.counter == l.counter - 1,
{
}

/// A disabled counter never silences its channel.
pub proof fn law_disabled_length_holds(l: Length)
    requires
        !l.enabled,
    ensures
        l.clock_spec() == (l, false),
{
}

} // verus!
