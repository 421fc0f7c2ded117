use vstd::prelude::*;
use crate::clock_divider::ClockDivider;

verus! {

/// Envelope generator: either a constant volume, or a 15-down counter
/// decremented once per period, looping or stopping at zero.
pub struct EnvelopeGenerator {
    pub is_enabled: bool,
    pub is_reset: bool,
    pub is_looping: bool,
    pub counter: u8,
    pub period: u8,
    pub clock_divider: ClockDivider,
}

impl EnvelopeGenerator {
    pub open spec fn wf(&self) -> bool {
        &&& 1 <= self.period <= 16
        &&& self.counter <= 15
        &&& self.clock_divider.ratio == 1
        &&& self.clock_divider.ticks_until_triggered <= 16
    }

    /// The volume it outputs: the constant one (period - 1) when the
    /// envelope is off, the counter otherwise.
    pub open spec fn volume(&self) -> u8 {
        if !self.is_enabled {
            (self.period - 1) as u8
        } else {
            self.counter
        }
    }

    pub fn new() -> (r: Self)
        ensures
            r.wf(),
            !r.is_enabled,
            !r.is_reset,
            !r.is_looping,
            r.counter == 0,
            r.period == 1,
    {
        EnvelopeGenerator {
            is_enabled: false,
            is_reset: false,
            is_looping: false,
            counter: 0,
            period: 1,
            clock_divider: ClockDivider::new(1),
        }
    }

    pub fn get_volume(&self) -> (r: u8)
        requires
            self.wf(),
        ensures
            r == self.volume(),
            r <= 15,
    {
        if !self.is_enabled {
            self.period - 1
        } else {
            self.counter
        }
    }

    pub fn set_enabled(&mut self, value: bool)
        ensures
            *final(self) == (EnvelopeGenerator { is_enabled: value, ..*old(self) }),
    {
        self.is_enabled = value;
    }

    pub fn set_loop(&mut self, value: bool)
        ensures
            *final(self) == (EnvelopeGenerator { is_looping: value, ..*old(self) }),
    {
        self.is_looping = value;
    }

    pub fn set_period(&mut self, value: u8)
        requires
            value <= 15,
        ensures
            *final(self) == (EnvelopeGenerator { period: (value + 1) as u8, ..*old(self) }),
    {
        self.period = value + 1;
    }

    /// Asks for a restart on the next clock.
    pub fn reset(&mut self)
        ensures
            *final(self) == (EnvelopeGenerator { is_reset: true, ..*old(self) }),
    {
        self.is_reset = true;
    }

    /// An envelope clock.
    pub fn tick(&mut self)
        requires
            old(self).wf(),
        ensures
            final(self).wf(),
            final(self).is_enabled == old(self).is_enabled,
            final(self).is_looping == old(self).is_looping,
            final(self).period == old(self).period,
            !final(self).is_reset,
            old(self).is_reset ==> final(self).counter == 15,
            !old(self).is_reset && old(self).clock_divider.ticks_until_triggered > 1
                ==> final(self).counter == old(self).counter,
            !old(self).is_reset && old(self).clock_divider.ticks_until_triggered <= 1
                ==> final(self).counter == if old(self).is_looping && old(self).counter == 0 {
                15
            } else if old(self).counter > 0 {
                (old(self).counter - 1) as u8
            } else {
                0
            },
    {
        if self.is_reset {
            self.is_reset = false;
            self.counter = 15;
            self.clock_divider.reset();
            self.clock_divider.delay_ticks(self.period as u64);
        } else {
            self.clock_divider.tick();
            if self.clock_divider.is_triggered() {
                if self.is_looping && self.counter == 0 {
                    self.counter = 15;
                } else if self.counter > 0 {
                    self.counter -= 1;
                }
                self.clock_divider.delay_ticks(self.period as u64);
            }
        }
    }
}

} // verus!
