use vstd::prelude::*;
use crate::clock_divider::ClockDivider;

verus! {

#[derive(Clone, Copy, PartialEq, Eq, Debug, Structural)]
pub enum FrameSequencerMode {
    FourStep,
    FiveStep,
}

/// Clocks the envelopes, length counters and frame interrupt of the APU on
/// a fixed schedule of CPU cycles.
pub struct FrameSequencer {
    pub mode: FrameSequencerMode,
    pub disable_irq: bool,
    pub step: u8,
    pub step_x: ClockDivider,
}

#[derive(Clone, Copy, Debug)]
pub struct FrameSequencerTriggers {
    pub envelopes: bool,
    pub length_counters: bool,
    pub frame_interrupt: bool,
}

/// Number of steps of a mode's sequence.
pub open spec fn steps_of(mode: FrameSequencerMode) -> u8 {
    match mode {
        FrameSequencerMode::FourStep => 4,
        FrameSequencerMode::FiveStep => 5,
    }
}

/// What a step emits (envelope clock, length clock, frame interrupt) and the
/// cycles until the next step. Four-step mode raises the interrupt on its
/// last step; five-step mode never does.
pub open spec fn schedule(mode: FrameSequencerMode, step: u8) -> (bool, bool, bool, u64) {
    match mode {
        FrameSequencerMode::FourStep => match step {
            0 => (true, false, false, 7456),
            1 => (true, true, false, 7458),
            2 => (true, false, false, 7457),
            _ => (true, true, true, 7457),
        },
        FrameSequencerMode::FiveStep => match step {
            0 => (true, false, false, 7456),
            1 => (true, true, false, 7458),
            2 => (true, false, false, 7458),
            3 => (false, false, false, 7452),
            _ => (true, true, false, 7457),
        },
    }
}

impl FrameSequencer {
    pub open spec fn wf(&self) -> bool {
        &&& self.step < steps_of(self.mode)
        &&& self.step_x.ratio == 1
        &&& self.step_x.ticks_until_triggered <= 7458
    }

    pub fn new() -> (r: Self)
        ensures
            r.wf(),
            r.mode == FrameSequencerMode::FourStep,
            !r.disable_irq,
            r.step == 0,
            r.step_x.ticks_until_triggered == 7457,
    {
        let mut step_x = ClockDivider::new(1);
        step_x.delay_ticks(7457);
        FrameSequencer { mode: FrameSequencerMode::FourStep, disable_irq: false, step: 0, step_x }
    }

    fn step_schedule(&self) -> (r: (bool, bool, bool, u64))
        ensures
            r == schedule(self.mode, self.step),
    {
        match self.mode {
            FrameSequencerMode::FourStep => match self.step {
                0 => (true, false, false, 7456),
                1 => (true, true, false, 7458),
                2 => (true, false, false, 7457),
                _ => (true, true, true, 7457),
            },
            FrameSequencerMode::FiveStep => match self.step {
                0 => (true, false, false, 7456),
                1 => (true, true, false, 7458),
                2 => (true, false, false, 7458),
                3 => (false, false, false, 7452),
                _ => (true, true, false, 7457),
            },
        }
    }

    /// One CPU cycle. When the step counter runs out the current step's
    /// clocks are emitted (the interrupt only if not disabled) and the next
    /// step is scheduled.
    pub fn tick(&mut self) -> (r: FrameSequencerTriggers)
        requires
            old(self).wf(),
        ensures
            final(self).wf(),
            final(self).mode == old(self).mode,
            final(self).disable_irq == old(self).disable_irq,
            old(self).step_x.ticks_until_triggered > 1 ==> {
                &&& final(self).step == old(self).step
                &&& final(self).step_x.ticks_until_triggered == old(self).step_x.ticks_until_triggered - 1
                &&& !r.envelopes && !r.length_counters && !r.frame_interrupt
            },
            old(self).step_x.ticks_until_triggered <= 1 ==> {
                let (env, len, irq, delay) = schedule(old(self).mode, old(self).step);
                &&& r.envelopes == env
                &&& r.length_counters == len
                &&& r.frame_interrupt == (irq && !old(self).disable_irq)
                &&& final(self).step == (old(self).step + 1) % steps_of(old(self).mode) as int
                &&& final(self).step_x.ticks_until_triggered == delay
            },
    {
        self.step_x.tick();
        if self.step_x.is_triggered() {
            let (env, len, irq, delay) = self.step_schedule();
            self.step_x.delay_ticks(delay);
            let n: u8 = match self.mode {
                FrameSequencerMode::FourStep => 4,
                FrameSequencerMode::FiveStep => 5,
            };
            self.step = (self.step + 1) % n;
            FrameSequencerTriggers {
                envelopes: env,
                length_counters: len,
                frame_interrupt: irq && !self.disable_irq,
            }
        } else {
            FrameSequencerTriggers { envelopes: false, length_counters: false, frame_interrupt: false }
        }
    }

    /// Restarts the sequence in `mode` (a write to $4017).
    pub fn reset(&mut self, mode: FrameSequencerMode, disable_irq: bool)
        ensures
            final(self).wf(),
            final(self).mode == mode,
            final(self).disable_irq == disable_irq,
            final(self).step == 0,
            final(self).step_x.ticks_until_triggered == 7457,
    {
        self.mode = mode;
        self.step = 0;
        self.disable_irq = disable_irq;
        self.step_x = ClockDivider::new(1);
        self.step_x.delay_ticks(7457);
    }
}

} // verus!
