use vstd::prelude::*;
use crate::clock_divider::ClockDivider;
use crate::envelope_generator::EnvelopeGenerator;
use crate::length_counter::LengthCounter;

verus! {

/// Output bit of step `idx` (0..8) of duty cycle `duty` (0..4).
pub open spec fn duty_bit(duty: u8, idx: u8) -> bool {
    match duty {
        0 => idx == 1,
        1 => idx == 1 || idx == 2,
        2 => 1 <= idx <= 4,
        _ => idx != 1 && idx != 2,
    }
}

/// A pulse (square wave) channel.
pub struct ChannelPulse {
    pub is_enabled: bool,
    pub envelope_generator: EnvelopeGenerator,
    pub length_counter: LengthCounter,
    pub timer_clock_divider: ClockDivider,
    pub timer_period: u16,
    pub duty: u8,
    pub seq_index: u8,
    pub reg_0: u8,
    pub reg_1: u8,
    pub reg_2: u8,
    pub reg_3: u8,
}

impl ChannelPulse {
    pub open spec fn wf(&self) -> bool {
        &&& self.envelope_generator.wf()
        &&& self.timer_clock_divider.ratio == 2
        &&& self.timer_clock_divider.ticks_until_triggered <= 4096
        &&& 1 <= self.timer_period <= 2048
        &&& self.duty < 4
        &&& self.seq_index < 8
    }

    /// The 11-bit timer period (plus one) of registers 2 and 3.
    pub open spec fn period_of(reg_2: u8, reg_3: u8) -> u16 {
        ((reg_3 % 8) as int * 256 + reg_2 as int + 1) as u16
    }

    /// The channel's current output level.
    pub open spec fn volume(&self) -> u8 {
        if duty_bit(self.duty, self.seq_index) && self.length_counter.value != 0 {
            self.envelope_generator.volume()
        } else {
            0
        }
    }

    pub fn new() -> (r: Self)
        ensures
            r.wf(),
            !r.is_enabled,
            r.duty == 0 && r.seq_index == 0 && r.timer_period == 1,
            r.length_counter.value == 0,
            r.reg_0 == 0 && r.reg_1 == 0 && r.reg_2 == 0 && r.reg_3 == 0,
    {
        ChannelPulse {
            is_enabled: false,
            envelope_generator: EnvelopeGenerator::new(),
            length_counter: LengthCounter::new(),
            timer_clock_divider: ClockDivider::new(2),
            timer_period: 1,
            duty: 0,
            seq_index: 0,
            reg_0: 0,
            reg_1: 0,
            reg_2: 0,
            reg_3: 0,
        }
    }

    pub fn read_reg_0(&self) -> (r: u8)
        ensures
            r == self.reg_0,
    {
        self.reg_0
    }

    /// Duty (bits 6-7), length halt / envelope loop (bit 5), envelope on
    /// (bit 4), constant volume or envelope period (bits 0-3).
    pub fn write_reg_0(&mut self, value: u8)
        requires
            old(self).wf(),
        ensures
            final(self).wf(),
            final(self).reg_0 == value,
            final(self).duty == value / 64,
            final(self).length_counter.halt == (value / 32 % 2 == 1),
            final(self).length_counter.value == old(self).length_counter.value,
            final(self).envelope_generator.is_looping == (value / 32 % 2 == 1),
            final(self).envelope_generator.is_enabled == (value & 0x10 != 0),
            final(self).envelope_generator.period == value % 16 + 1,
            final(self).envelope_generator.counter == old(self).envelope_generator.counter,
            final(self).seq_index == old(self).seq_index,
            final(self).is_enabled == old(self).is_enabled,
    {
        self.reg_0 = value;
        self.duty = value / 64;
        let flag = value / 32 % 2 == 1;
        self.length_counter.set_halt(flag);
        self.envelope_generator.set_loop(flag);
        self.envelope_generator.set_enabled(value & 0x10 != 0);
        self.envelope_generator.set_period(value % 16);
    }

    pub fn read_reg_1(&self) -> (r: u8)
        ensures
            r == self.reg_1,
    {
        self.reg_1
    }

    /// Sweep unit settings: stored.
    pub fn write_reg_1(&mut self, value: u8)
        ensures
            *final(self) == (ChannelPulse { reg_1: value, ..*old(self) }),
    {
        self.reg_1 = value;
    }

    pub fn read_reg_2(&self) -> (r: u8)
        ensures
            r == self.reg_2,
    {
        self.reg_2
    }

    /// Timer low byte.
    pub fn write_reg_2(&mut self, value: u8)
        requires
            old(self).wf(),
        ensures
            final(self).wf(),
            final(self).reg_2 == value,
            final(self).timer_period == Self::period_of(value, old(self).reg_3),
            final(self).length_counter == old(self).length_counter,
    {
        self.reg_2 = value;
        self.update_timer_period();
    }

    pub fn read_reg_3(&self) -> (r: u8)
        ensures
            r == self.reg_3,
    {
        self.reg_3
    }

    /// Length index (bits 3-7) and timer high bits (0-2); restarts the
    /// envelope and the duty sequence.
    pub fn write_reg_3(&mut self, value: u8)
        requires
            old(self).wf(),
        ensures
            final(self).wf(),
            final(self).reg_3 == value,
            final(self).length_counter.value == crate::length_counter::length_table(value / 8),
            final(self).envelope_generator.is_reset,
            final(self).seq_index == 0,
            final(self).timer_period == Self::period_of(old(self).reg_2, value),
            final(self).reg_0 == old(self).reg_0,
            final(self).reg_1 == old(self).reg_1,
            final(self).reg_2 == old(self).reg_2,
    {
        self.reg_3 = value;
        self.length_counter.set_index(value / 8);
        self.envelope_generator.reset();
        self.seq_index = 0;
        self.update_timer_period();
    }

    fn update_timer_period(&mut self)
        requires
            old(self).wf(),
        ensures
            final(self).wf(),
            *final(self) == (ChannelPulse {
                timer_period: Self::period_of(old(self).reg_2, old(self).reg_3),
                ..*old(self)
            }),
    {
        self.timer_period = (self.reg_3 % 8) as u16 * 256 + self.reg_2 as u16 + 1;
    }

    pub fn get_volume(&self) -> (r: u8)
        requires
            self.wf(),
        ensures
            r == self.volume(),
            r <= 15,
    {
        let bit = match self.duty {
            0 => self.seq_index == 1,
            1 => self.seq_index == 1 || self.seq_index == 2,
            2 => 1 <= self.seq_index && self.seq_index <= 4,
            _ => self.seq_index != 1 && self.seq_index != 2,
        };
        if bit && !self.length_counter.value_is_zero() {
            self.envelope_generator.get_volume()
        } else {
            0
        }
    }

    /// Enables or disables the channel; disabling clears its length counter.
    pub fn set_enabled(&mut self, value: bool)
        requires
            old(self).wf(),
        ensures
            final(self).wf(),
            final(self).is_enabled == value,
            !value ==> final(self).length_counter.value == 0,
            value ==> final(self).length_counter == old(self).length_counter,
    {
        self.is_enabled = value;
        if !value {
            self.length_counter.clear();
        }
    }

    /// A CPU cycle of the timer: every `2 * timer_period` cycles the duty
    /// sequence advances.
    pub fn tick_timer(&mut self)
        requires
            old(self).wf(),
        ensures
            final(self).wf(),
            final(self).length_counter == old(self).length_counter,
            final(self).envelope_generator == old(self).envelope_generator,
            final(self).duty == old(self).duty,
            old(self).timer_clock_divider.ticks_until_triggered == 1 ==> final(self).seq_index == (
            old(self).seq_index + 1) % 8,
            old(self).timer_clock_divider.ticks_until_triggered != 1 ==> final(self).seq_index
                == old(self).seq_index,
    {
        self.timer_clock_divider.tick();
        if self.timer_clock_divider.is_triggered() {
            self.seq_index = (self.seq_index + 1) % 8;
            self.timer_clock_divider.delay(self.timer_period as u64);
        }
    }

    pub fn tick_length_counter(&mut self)
        requires
            old(self).wf(),
        ensures
            final(self).wf(),
            final(self).envelope_generator == old(self).envelope_generator,
            final(self).seq_index == old(self).seq_index,
            final(self).duty == old(self).duty,
            final(self).length_counter.halt == old(self).length_counter.halt,
            final(self).length_counter.value == if !old(self).length_counter.halt
                && old(self).length_counter.value > 0 {
                (old(self).length_counter.value - 1) as u8
            } else {
                old(self).length_counter.value
            },
    {
        self.length_counter.tick();
    }

    pub fn tick_envelope_generator(&mut self)
        requires
            old(self).wf(),
        ensures
            final(self).wf(),
            final(self).length_counter == old(self).length_counter,
            final(self).seq_index == old(self).seq_index,
            final(self).duty == old(self).duty,
            !final(self).envelope_generator.is_reset,
    {
        self.envelope_generator.tick();
    }
}

} // verus!
