use vstd::prelude::*;
use crate::ch_pulse::ChannelPulse;
use crate::clock_divider::ClockDivider;
use crate::frame_sequencer::{schedule, steps_of, FrameSequencer, FrameSequencerMode};
use crate::length_counter::LengthCounter;

verus! {

/// A bounded queue of audio samples handed to the host. When full, a new
/// sample replaces the oldest one and the drop is counted.
pub struct AudioBuffer {
    pub buffer: Vec<u8>,
    pub capacity: usize,
    pub dropped: u64,
}

impl AudioBuffer {
    pub open spec fn wf(&self) -> bool {
        &&& self.capacity > 0
        &&& self.buffer.len() <= self.capacity
    }

    /// The samples waiting, oldest first.
    pub open spec fn contents(&self) -> Seq<u8> {
        self.buffer@
    }

    pub fn new(size: usize) -> (r: Self)
        requires
            size > 0,
        ensures
            r.wf(),
            r.capacity == size,
            r.contents() == Seq::<u8>::empty(),
            r.dropped == 0,
    {
        AudioBuffer { buffer: Vec::new(), capacity: size, dropped: 0 }
    }

    /// Appends a sample; a full queue loses its oldest sample.
    pub fn push(&mut self, value: u8)
        requires
            old(self).wf(),
        ensures
            final(self).wf(),
            final(self).capacity == old(self).capacity,
            old(self).contents().len() < old(self).capacity ==> final(self).contents() == old(self).contents().push(value) && final(self).dropped == old(self).dropped,
            old(self).contents().len() == old(self).capacity ==> final(self).contents() == old(self).contents().drop_first().push(value) && final(self).dropped == if old(self).dropped
                < u64::MAX {
                (old(self).dropped + 1) as u64
            } else {
                old(self).dropped
            },
    {
        if self.buffer.len() == self.capacity {
            self.buffer.remove(0);
            if self.dropped < u64::MAX {
                self.dropped = self.dropped + 1;
            }
        }
        self.buffer.push(value);
    }

    /// Takes the oldest sample, if any.
    pub fn pop(&mut self) -> (r: Option<u8>)
        requires
            old(self).wf(),
        ensures
            final(self).wf(),
            final(self).capacity == old(self).capacity,
            final(self).dropped == old(self).dropped,
            old(self).contents().len() == 0 ==> r == None::<u8> && final(self).contents() == old(self).contents(),
            old(self).contents().len() > 0 ==> r == Some(old(self).contents()[0]) && final(self).contents() == old(self).contents().drop_first(),
    {
        if self.buffer.len() == 0 {
            None
        } else {
            Some(self.buffer.remove(0))
        }
    }
}

/// The queue after `push(v)`.
pub open spec fn pushed(b: AudioBuffer, v: u8) -> Seq<u8> {
    if b.contents().len() < b.capacity {
        b.contents().push(v)
    } else {
        b.contents().drop_first().push(v)
    }
}

/// A length counter's value after a length clock.
pub open spec fn length_clocked(l: LengthCounter) -> u8 {
    if !l.halt && l.value > 0 {
        (l.value - 1) as u8
    } else {
        l.value
    }
}

/// CPU cycles per emitted audio sample (about 48 kHz).
pub const CYCLES_PER_SAMPLE: u64 = 37;

/// Samples the ring holds before the oldest are dropped.
pub const AUDIO_BUFFER_SIZE: usize = 4096;

/// The audio processing unit: the two pulse channels, the enable flags of the
/// others, the frame sequencer and sample emission.
pub struct APU {
    pub audio_buffer: AudioBuffer,
    pub audio_clock_divider: ClockDivider,
    pub frame_sequencer: FrameSequencer,
    pub channel_pulse1: ChannelPulse,
    pub channel_pulse2: ChannelPulse,
    pub is_channel_triangle_enabled: bool,
    pub is_channel_noise_enabled: bool,
    pub is_channel_dmc_enabled: bool,
    pub frame_interrupt: bool,
    pub reg_triangle_0: u8,
    pub reg_dummy_x09: u8,
    pub reg_triangle_1: u8,
    pub reg_triangle_2: u8,
    pub reg_noise_0: u8,
    pub reg_dummy_x0d: u8,
    pub reg_noise_1: u8,
    pub reg_noise_2: u8,
    pub reg_dmc_0: u8,
    pub reg_dmc_1: u8,
    pub reg_dmc_2: u8,
    pub reg_dmc_3: u8,
    pub reg_dummy_x14: u8,
    pub reg_dummy_x16: u8,
    pub reg_dummy_x18: u8,
    pub reg_dummy_x19: u8,
    pub reg_dummy_x1a: u8,
    pub reg_dummy_x1b: u8,
    pub reg_dummy_x1c: u8,
    pub reg_dummy_x1d: u8,
    pub reg_dummy_x1e: u8,
    pub reg_dummy_x1f: u8,
    pub reg_status: u8,
    pub reg_frame_counter: u8,
}

impl APU {
    pub open spec fn wf(&self) -> bool {
        &&& self.audio_buffer.wf()
        &&& self.audio_clock_divider.ratio == CYCLES_PER_SAMPLE
        &&& self.audio_clock_divider.ticks_until_triggered <= CYCLES_PER_SAMPLE
        &&& self.frame_sequencer.wf()
        &&& self.channel_pulse1.wf()
        &&& self.channel_pulse2.wf()
    }

    pub fn new() -> (r: Self)
        ensures
            r.wf(),
            r.audio_buffer.contents() == Seq::<u8>::empty(),
            !r.frame_interrupt,
    {
        APU {
            audio_buffer: AudioBuffer::new(AUDIO_BUFFER_SIZE),
            audio_clock_divider: ClockDivider::new(CYCLES_PER_SAMPLE),
            frame_sequencer: FrameSequencer::new(),
            channel_pulse1: ChannelPulse::new(),
            channel_pulse2: ChannelPulse::new(),
            is_channel_triangle_enabled: false,
            is_channel_noise_enabled: false,
            is_channel_dmc_enabled: false,
            frame_interrupt: false,
            reg_triangle_0: 0,
            reg_dummy_x09: 0,
            reg_triangle_1: 0,
            reg_triangle_2: 0,
            reg_noise_0: 0,
            reg_dummy_x0d: 0,
            reg_noise_1: 0,
            reg_noise_2: 0,
            reg_dmc_0: 0,
            reg_dmc_1: 0,
            reg_dmc_2: 0,
            reg_dmc_3: 0,
            reg_dummy_x14: 0,
            reg_dummy_x16: 0,
            reg_dummy_x18: 0,
            reg_dummy_x19: 0,
            reg_dummy_x1a: 0,
            reg_dummy_x1b: 0,
            reg_dummy_x1c: 0,
            reg_dummy_x1d: 0,
            reg_dummy_x1e: 0,
            reg_dummy_x1f: 0,
            reg_status: 0,
            reg_frame_counter: 0,
        }
    }

    /// The sample of the current output: the sum of the pulse channels.
    pub open spec fn mix(&self) -> u8 {
        (self.channel_pulse1.volume() + self.channel_pulse2.volume()) as u8
    }

    /// One CPU cycle: frame sequencer clocks, channel timers, and a sample
    /// every `CYCLES_PER_SAMPLE` cycles.
    pub fn tick(&mut self)
        requires
            old(self).wf(),
        ensures
            final(self).wf(),
            ({
                let fs = old(self).frame_sequencer;
                let fires = fs.step_x.ticks_until_triggered <= 1;
                let (env, len, irq, delay) = schedule(fs.mode, fs.step);
                &&& final(self).frame_sequencer.mode == fs.mode
                &&& final(self).frame_sequencer.step == if fires {
                    ((fs.step + 1) % steps_of(fs.mode) as int) as u8
                } else {
                    fs.step
                }
                &&& final(self).frame_interrupt == (old(self).frame_interrupt || (fires && irq
                    && !fs.disable_irq))
                &&& final(self).channel_pulse1.length_counter.value == if fires && len {
                    length_clocked(old(self).channel_pulse1.length_counter)
                } else {
                    old(self).channel_pulse1.length_counter.value
                }
                &&& final(self).channel_pulse2.length_counter.value == if fires && len {
                    length_clocked(old(self).channel_pulse2.length_counter)
                } else {
                    old(self).channel_pulse2.length_counter.value
                }
                &&& !(fires && env) ==> final(self).channel_pulse1.envelope_generator == old(
                    self).channel_pulse1.envelope_generator && final(self).channel_pulse2.envelope_generator
                    == old(self).channel_pulse2.envelope_generator
                &&& fires && env ==> !final(self).channel_pulse1.envelope_generator.is_reset
                    && !final(self).channel_pulse2.envelope_generator.is_reset
            }),
            old(self).audio_clock_divider.ticks_until_triggered == 1 ==> final(self).audio_buffer.contents()
                == pushed(old(self).audio_buffer, final(self).mix()),
            old(self).audio_clock_divider.ticks_until_triggered != 1 ==> final(self).audio_buffer
                == old(self).audio_buffer,
    {
        let triggers = self.frame_sequencer.tick();
        if triggers.frame_interrupt {
            self.frame_interrupt = true;
        }
        if triggers.length_counters {
            self.channel_pulse1.tick_length_counter();
            self.channel_pulse2.tick_length_counter();
        }
        if triggers.envelopes {
            self.channel_pulse1.tick_envelope_generator();
            self.channel_pulse2.tick_envelope_generator();
        }
        self.channel_pulse1.tick_timer();
        self.channel_pulse2.tick_timer();
        self.audio_clock_divider.tick();
        if self.audio_clock_divider.is_triggered() {
            let sample = self.channel_pulse1.get_volume() + self.channel_pulse2.get_volume();
            self.audio_buffer.push(sample);
        }
    }

    /// Whether the frame sequencer has raised its interrupt.
    pub fn irq_pending(&self) -> (r: bool)
        ensures
            r == self.frame_interrupt,
    {
        self.frame_interrupt
    }

    pub fn read_pulse1_0(&self) -> (r: u8)
        ensures
            r == self.channel_pulse1.reg_0,
    {
        self.channel_pulse1.read_reg_0()
    }

    pub fn write_pulse1_0(&mut self, value: u8)
        requires
            old(self).wf(),
        ensures
            final(self).wf(),
            final(self).channel_pulse1.reg_0 == value,
    {
        self.channel_pulse1.write_reg_0(value);
    }

    pub fn read_pulse1_1(&self) -> (r: u8)
        ensures
            r == self.channel_pulse1.reg_1,
    {
        self.channel_pulse1.read_reg_1()
    }

    pub fn write_pulse1_1(&mut self, value: u8)
        requires
            old(self).wf(),
        ensures
            final(self).wf(),
            final(self).channel_pulse1.reg_1 == value,
    {
        self.channel_pulse1.write_reg_1(value);
    }

    pub fn read_pulse1_2(&self) -> (r: u8)
        ensures
            r == self.channel_pulse1.reg_2,
    {
        self.channel_pulse1.read_reg_2()
    }

    pub fn write_pulse1_2(&mut self, value: u8)
        requires
            old(self).wf(),
        ensures
            final(self).wf(),
            final(self).channel_pulse1.reg_2 == value,
    {
        self.channel_pulse1.write_reg_2(value);
    }

    pub fn read_pulse1_3(&self) -> (r: u8)
        ensures
            r == self.channel_pulse1.reg_3,
    {
        self.channel_pulse1.read_reg_3()
    }

    pub fn write_pulse1_3(&mut self, value: u8)
        requires
            old(self).wf(),
        ensures
            final(self).wf(),
            final(self).channel_pulse1.reg_3 == value,
    {
        self.channel_pulse1.write_reg_3(value);
    }

    pub fn read_pulse2_0(&self) -> (r: u8)
        ensures
            r == self.channel_pulse2.reg_0,
    {
        self.channel_pulse2.read_reg_0()
    }

    pub fn write_pulse2_0(&mut self, value: u8)
        requires
            old(self).wf(),
        ensures
            final(self).wf(),
            final(self).channel_pulse2.reg_0 == value,
    {
        self.channel_pulse2.write_reg_0(value);
    }

    pub fn read_pulse2_1(&self) -> (r: u8)
        ensures
            r == self.channel_pulse2.reg_1,
    {
        self.channel_pulse2.read_reg_1()
    }

    pub fn write_pulse2_1(&mut self, value: u8)
        requires
            old(self).wf(),
        ensures
            final(self).wf(),
            final(self).channel_pulse2.reg_1 == value,
    {
        self.channel_pulse2.write_reg_1(value);
    }

    pub fn read_pulse2_2(&self) -> (r: u8)
        ensures
            r == self.channel_pulse2.reg_2,
    {
        self.channel_pulse2.read_reg_2()
    }

    pub fn write_pulse2_2(&mut self, value: u8)
        requires
            old(self).wf(),
        ensures
            final(self).wf(),
            final(self).channel_pulse2.reg_2 == value,
    {
        self.channel_pulse2.write_reg_2(value);
    }

    pub fn read_pulse2_3(&self) -> (r: u8)
        ensures
            r == self.channel_pulse2.reg_3,
    {
        self.channel_pulse2.read_reg_3()
    }

    pub fn write_pulse2_3(&mut self, value: u8)
        requires
            old(self).wf(),
        ensures
            final(self).wf(),
            final(self).channel_pulse2.reg_3 == value,
    {
        self.channel_pulse2.write_reg_3(value);
    }

    pub fn read_triangle_0(&self) -> (r: u8)
        ensures
            r == self.reg_triangle_0,
    {
        self.reg_triangle_0
    }

    pub fn write_triangle_0(&mut self, value: u8)
        ensures
            final(self).reg_triangle_0 == value,
            final(self).wf() == old(self).wf(),
    {
        self.reg_triangle_0 = value;
    }

    pub fn read_dummy_x09(&self) -> (r: u8)
        ensures
            r == self.reg_dummy_x09,
    {
        self.reg_dummy_x09
    }

    pub fn write_dummy_x09(&mut self, value: u8)
        ensures
            final(self).reg_dummy_x09 == value,
            final(self).wf() == old(self).wf(),
    {
        self.reg_dummy_x09 = value;
    }

    pub fn read_triangle_1(&self) -> (r: u8)
        ensures
            r == self.reg_triangle_1,
    {
        self.reg_triangle_1
    }

    pub fn write_triangle_1(&mut self, value: u8)
        ensures
            final(self).reg_triangle_1 == value,
            final(self).wf() == old(self).wf(),
    {
        self.reg_triangle_1 = value;
    }

    pub fn read_triangle_2(&self) -> (r: u8)
        ensures
            r == self.reg_triangle_2,
    {
        self.reg_triangle_2
    }

    pub fn write_triangle_2(&mut self, value: u8)
        ensures
            final(self).reg_triangle_2 == value,
            final(self).wf() == old(self).wf(),
    {
        self.reg_triangle_2 = value;
    }

    pub fn read_noise_0(&self) -> (r: u8)
        ensures
            r == self.reg_noise_0,
    {
        self.reg_noise_0
    }

    pub fn write_noise_0(&mut self, value: u8)
        ensures
            final(self).reg_noise_0 == value,
            final(self).wf() == old(self).wf(),
    {
        self.reg_noise_0 = value;
    }

    pub fn read_dummy_x0d(&self) -> (r: u8)
        ensures
            r == self.reg_dummy_x0d,
    {
        self.reg_dummy_x0d
    }

    pub fn write_dummy_x0d(&mut self, value: u8)
        ensures
            final(self).reg_dummy_x0d == value,
            final(self).wf() == old(self).wf(),
    {
        self.reg_dummy_x0d = value;
    }

    pub fn read_noise_1(&self) -> (r: u8)
        ensures
            r == self.reg_noise_1,
    {
        self.reg_noise_1
    }

    pub fn write_noise_1(&mut self, value: u8)
        ensures
            final(self).reg_noise_1 == value,
            final(self).wf() == old(self).wf(),
    {
        self.reg_noise_1 = value;
    }

    pub fn read_noise_2(&self) -> (r: u8)
        ensures
            r == self.reg_noise_2,
    {
        self.reg_noise_2
    }

    pub fn write_noise_2(&mut self, value: u8)
        ensures
            final(self).reg_noise_2 == value,
            final(self).wf() == old(self).wf(),
    {
        self.reg_noise_2 = value;
    }

    pub fn read_dmc_0(&self) -> (r: u8)
        ensures
            r == self.reg_dmc_0,
    {
        self.reg_dmc_0
    }

    pub fn write_dmc_0(&mut self, value: u8)
        ensures
            final(self).reg_dmc_0 == value,
            final(self).wf() == old(self).wf(),
    {
        self.reg_dmc_0 = value;
    }

    pub fn read_dmc_1(&self) -> (r: u8)
        ensures
            r == self.reg_dmc_1,
    {
        self.reg_dmc_1
    }

    pub fn write_dmc_1(&mut self, value: u8)
        ensures
            final(self).reg_dmc_1 == value,
            final(self).wf() == old(self).wf(),
    {
        self.reg_dmc_1 = value;
    }

    pub fn read_dmc_2(&self) -> (r: u8)
        ensures
            r == self.reg_dmc_2,
    {
        self.reg_dmc_2
    }

    pub fn write_dmc_2(&mut self, value: u8)
        ensures
            final(self).reg_dmc_2 == value,
            final(self).wf() == old(self).wf(),
    {
        self.reg_dmc_2 = value;
    }

    pub fn read_dmc_3(&self) -> (r: u8)
        ensures
            r == self.reg_dmc_3,
    {
        self.reg_dmc_3
    }

    pub fn write_dmc_3(&mut self, value: u8)
        ensures
            final(self).reg_dmc_3 == value,
            final(self).wf() == old(self).wf(),
    {
        self.reg_dmc_3 = value;
    }

    pub fn read_dummy_x14(&self) -> (r: u8)
        ensures
            r == self.reg_dummy_x14,
    {
        self.reg_dummy_x14
    }

    pub fn write_dummy_x14(&mut self, value: u8)
        ensures
            final(self).reg_dummy_x14 == value,
            final(self).wf() == old(self).wf(),
    {
        self.reg_dummy_x14 = value;
    }

    pub fn read_dummy_x16(&self) -> (r: u8)
        ensures
            r == self.reg_dummy_x16,
    {
        self.reg_dummy_x16
    }

    pub fn write_dummy_x16(&mut self, value: u8)
        ensures
            final(self).reg_dummy_x16 == value,
            final(self).wf() == old(self).wf(),
    {
        self.reg_dummy_x16 = value;
    }

    pub fn read_dummy_x18(&self) -> (r: u8)
        ensures
            r == self.reg_dummy_x18,
    {
        self.reg_dummy_x18
    }

    pub fn write_dummy_x18(&mut self, value: u8)
        ensures
            final(self).reg_dummy_x18 == value,
            final(self).wf() == old(self).wf(),
    {
        self.reg_dummy_x18 = value;
    }

    pub fn read_dummy_x19(&self) -> (r: u8)
        ensures
            r == self.reg_dummy_x19,
    {
        self.reg_dummy_x19
    }

    pub fn write_dummy_x19(&mut self, value: u8)
        ensures
            final(self).reg_dummy_x19 == value,
            final(self).wf() == old(self).wf(),
    {
        self.reg_dummy_x19 = value;
    }

    pub fn read_dummy_x1a(&self) -> (r: u8)
        ensures
            r == self.reg_dummy_x1a,
    {
        self.reg_dummy_x1a
    }

    pub fn write_dummy_x1a(&mut self, value: u8)
        ensures
            final(self).reg_dummy_x1a == value,
            final(self).wf() == old(self).wf(),
    {
        self.reg_dummy_x1a = value;
    }

    pub fn read_dummy_x1b(&self) -> (r: u8)
        ensures
            r == self.reg_dummy_x1b,
    {
        self.reg_dummy_x1b
    }

    pub fn write_dummy_x1b(&mut self, value: u8)
        ensures
            final(self).reg_dummy_x1b == value,
            final(self).wf() == old(self).wf(),
    {
        self.reg_dummy_x1b = value;
    }

    pub fn read_dummy_x1c(&self) -> (r: u8)
        ensures
            r == self.reg_dummy_x1c,
    {
        self.reg_dummy_x1c
    }

    pub fn write_dummy_x1c(&mut self, value: u8)
        ensures
            final(self).reg_dummy_x1c == value,
            final(self).wf() == old(self).wf(),
    {
        self.reg_dummy_x1c = value;
    }

    pub fn read_dummy_x1d(&self) -> (r: u8)
        ensures
            r == self.reg_dummy_x1d,
    {
        self.reg_dummy_x1d
    }

    pub fn write_dummy_x1d(&mut self, value: u8)
        ensures
            final(self).reg_dummy_x1d == value,
            final(self).wf() == old(self).wf(),
    {
        self.reg_dummy_x1d = value;
    }

    pub fn read_dummy_x1e(&self) -> (r: u8)
        ensures
            r == self.reg_dummy_x1e,
    {
        self.reg_dummy_x1e
    }

    pub fn write_dummy_x1e(&mut self, value: u8)
        ensures
            final(self).reg_dummy_x1e == value,
            final(self).wf() == old(self).wf(),
    {
        self.reg_dummy_x1e = value;
    }

    pub fn read_dummy_x1f(&self) -> (r: u8)
        ensures
            r == self.reg_dummy_x1f,
    {
        self.reg_dummy_x1f
    }

    pub fn write_dummy_x1f(&mut self, value: u8)
        ensures
            final(self).reg_dummy_x1f == value,
            final(self).wf() == old(self).wf(),
    {
        self.reg_dummy_x1f = value;
    }

    /// $4015 read: pulse length counters running (bits 0-1) and the frame
    /// interrupt (bit 6), which the read clears.
    pub fn read_status(&mut self) -> (r: u8)
        ensures
            *final(self) == (APU { frame_interrupt: false, ..*old(self) }),
            r == (if old(self).channel_pulse1.length_counter.value != 0 { 1int } else { 0 }) + (if old(self).channel_pulse2.length_counter.value != 0 { 2int } else { 0 }) + (if old(self).frame_interrupt {
                0x40int
            } else {
                0
            }),
            !final(self).frame_interrupt,
            final(self).wf() == old(self).wf(),
    {
        let mut r: u8 = 0;
        if self.channel_pulse1.length_counter.value != 0 {
            r = r + 1;
        }
        if self.channel_pulse2.length_counter.value != 0 {
            r = r + 2;
        }
        if self.frame_interrupt {
            r = r + 0x40;
        }
        self.frame_interrupt = false;
        r
    }

    /// $4015 write: channel enables; a disabled channel's length counter is cleared.
    pub fn write_status(&mut self, value: u8)
        requires
            old(self).wf(),
        ensures
            final(self).wf(),
            final(self).reg_status == value,
            final(self).channel_pulse1.is_enabled == (value % 2 == 1),
            final(self).channel_pulse2.is_enabled == (value / 2 % 2 == 1),
            value % 2 == 0 ==> final(self).channel_pulse1.length_counter.value == 0,
            value / 2 % 2 == 0 ==> final(self).channel_pulse2.length_counter.value == 0,
            final(self).is_channel_triangle_enabled == (value / 4 % 2 == 1),
            final(self).is_channel_noise_enabled == (value / 8 % 2 == 1),
            final(self).is_channel_dmc_enabled == (value / 16 % 2 == 1),
    {
        self.reg_status = value;
        self.channel_pulse1.set_enabled(value % 2 == 1);
        self.channel_pulse2.set_enabled(value / 2 % 2 == 1);
        self.is_channel_triangle_enabled = value / 4 % 2 == 1;
        self.is_channel_noise_enabled = value / 8 % 2 == 1;
        self.is_channel_dmc_enabled = value / 16 % 2 == 1;
    }

    pub fn read_frame_counter(&self) -> (r: u8)
        ensures
            r == self.reg_frame_counter,
    {
        self.reg_frame_counter
    }

    /// $4017 write: sequencer mode (bit 7) and interrupt inhibit (bit 6). The
    /// sequence restarts; in five-step mode envelopes and length counters are
    /// clocked at once. Inhibiting clears a pending frame interrupt.
    pub fn write_frame_counter(&mut self, value: u8)
        requires
            old(self).wf(),
        ensures
            final(self).wf(),
            final(self).reg_frame_counter == value,
            final(self).frame_sequencer.mode == if value >= 0x80 {
                FrameSequencerMode::FiveStep
            } else {
                FrameSequencerMode::FourStep
            },
            final(self).frame_sequencer.disable_irq == (value / 64 % 2 == 1),
            final(self).frame_sequencer.step == 0,
            value / 64 % 2 == 1 ==> !final(self).frame_interrupt,
            value < 0x80 ==> final(self).channel_pulse1.length_counter == old(self).channel_pulse1.length_counter,
            value < 0x80 ==> final(self).channel_pulse2.length_counter == old(self).channel_pulse2.length_counter,
            value >= 0x80 ==> final(self).channel_pulse1.length_counter.value == length_clocked(
                old(self).channel_pulse1.length_counter,
            ),
            value >= 0x80 ==> final(self).channel_pulse2.length_counter.value == length_clocked(
                old(self).channel_pulse2.length_counter,
            ),
            value >= 0x80 ==> !final(self).channel_pulse1.envelope_generator.is_reset
                && !final(self).channel_pulse2.envelope_generator.is_reset,
    {
        self.reg_frame_counter = value;
        let mode = if value >= 0x80 {
            FrameSequencerMode::FiveStep
        } else {
            FrameSequencerMode::FourStep
        };
        let disable_irq = value / 64 % 2 == 1;
        self.frame_sequencer.reset(mode, disable_irq);
        if disable_irq {
            self.frame_interrupt = false;
        }
        if value >= 0x80 {
            self.channel_pulse1.tick_envelope_generator();
            self.channel_pulse2.tick_envelope_generator();
            self.channel_pulse1.tick_length_counter();
            self.channel_pulse2.tick_length_counter();
        }
    }
}

impl APU {
    /// What a CPU read of register $4000 + `idx` returns ($4015 is the status).
    pub open spec fn register_peek(&self, idx: u8) -> u8 {
        match idx {
            0x00 => self.channel_pulse1.reg_0,
            0x01 => self.channel_pulse1.reg_1,
            0x02 => self.channel_pulse1.reg_2,
            0x03 => self.channel_pulse1.reg_3,
            0x04 => self.channel_pulse2.reg_0,
            0x05 => self.channel_pulse2.reg_1,
            0x06 => self.channel_pulse2.reg_2,
            0x07 => self.channel_pulse2.reg_3,
            0x08 => self.reg_triangle_0,
            0x09 => self.reg_dummy_x09,
            0x0a => self.reg_triangle_1,
            0x0b => self.reg_triangle_2,
            0x0c => self.reg_noise_0,
            0x0d => self.reg_dummy_x0d,
            0x0e => self.reg_noise_1,
            0x0f => self.reg_noise_2,
            0x10 => self.reg_dmc_0,
            0x11 => self.reg_dmc_1,
            0x12 => self.reg_dmc_2,
            0x13 => self.reg_dmc_3,
            0x14 => self.reg_dummy_x14,
            0x15 => ((if self.channel_pulse1.length_counter.value != 0 { 1int } else { 0 }) + (if self.channel_pulse2.length_counter.value != 0 { 2int } else { 0 }) + (if self.frame_interrupt { 0x40int } else { 0 })) as u8,
            0x16 => self.reg_dummy_x16,
            0x17 => self.reg_frame_counter,
            0x18 => self.reg_dummy_x18,
            0x19 => self.reg_dummy_x19,
            0x1a => self.reg_dummy_x1a,
            0x1b => self.reg_dummy_x1b,
            0x1c => self.reg_dummy_x1c,
            0x1d => self.reg_dummy_x1d,
            0x1e => self.reg_dummy_x1e,
            _ => self.reg_dummy_x1f,
        }
    }

    /// A CPU read of register $4000 + `idx`.
    pub fn read_register(&mut self, idx: u8) -> (r: u8)
        requires
            old(self).wf(),
            idx < 32,
        ensures
            final(self).wf(),
            r == old(self).register_peek(idx),
            idx == 0x15 ==> *final(self) == (APU { frame_interrupt: false, ..*old(self) }),
            idx != 0x15 ==> *final(self) == *old(self),
    {
        match idx {
            0x00 => self.read_pulse1_0(),
            0x01 => self.read_pulse1_1(),
            0x02 => self.read_pulse1_2(),
            0x03 => self.read_pulse1_3(),
            0x04 => self.read_pulse2_0(),
            0x05 => self.read_pulse2_1(),
            0x06 => self.read_pulse2_2(),
            0x07 => self.read_pulse2_3(),
            0x08 => self.read_triangle_0(),
            0x09 => self.read_dummy_x09(),
            0x0a => self.read_triangle_1(),
            0x0b => self.read_triangle_2(),
            0x0c => self.read_noise_0(),
            0x0d => self.read_dummy_x0d(),
            0x0e => self.read_noise_1(),
            0x0f => self.read_noise_2(),
            0x10 => self.read_dmc_0(),
            0x11 => self.read_dmc_1(),
            0x12 => self.read_dmc_2(),
            0x13 => self.read_dmc_3(),
            0x14 => self.read_dummy_x14(),
            0x15 => self.read_status(),
            0x16 => self.read_dummy_x16(),
            0x17 => self.read_frame_counter(),
            0x18 => self.read_dummy_x18(),
            0x19 => self.read_dummy_x19(),
            0x1a => self.read_dummy_x1a(),
            0x1b => self.read_dummy_x1b(),
            0x1c => self.read_dummy_x1c(),
            0x1d => self.read_dummy_x1d(),
            0x1e => self.read_dummy_x1e(),
            _ => self.read_dummy_x1f(),
        }
    }

    /// A CPU write of register $4000 + `idx`.
    pub fn write_register(&mut self, idx: u8, value: u8)
        requires
            old(self).wf(),
            idx < 32,
        ensures
            final(self).wf(),
            idx != 0x15 ==> final(self).register_peek(idx) == value,
            idx == 0x15 ==> {
                &&& final(self).reg_status == value
                &&& final(self).channel_pulse1.is_enabled == (value % 2 == 1)
                &&& final(self).channel_pulse2.is_enabled == (value / 2 % 2 == 1)
                &&& value % 2 == 0 ==> final(self).channel_pulse1.length_counter.value == 0
                &&& value / 2 % 2 == 0 ==> final(self).channel_pulse2.length_counter.value == 0
                &&& final(self).is_channel_triangle_enabled == (value / 4 % 2 == 1)
                &&& final(self).is_channel_noise_enabled == (value / 8 % 2 == 1)
                &&& final(self).is_channel_dmc_enabled == (value / 16 % 2 == 1)
            },
            idx == 0x17 ==> {
                &&& final(self).frame_sequencer.mode == if value >= 0x80 {
                    FrameSequencerMode::FiveStep
                } else {
                    FrameSequencerMode::FourStep
                }
                &&& final(self).frame_sequencer.disable_irq == (value / 64 % 2 == 1)
                &&& final(self).frame_sequencer.step == 0
            },
    {
        match idx {
            0x00 => self.write_pulse1_0(value),
            0x01 => self.write_pulse1_1(value),
            0x02 => self.write_pulse1_2(value),
            0x03 => self.write_pulse1_3(value),
            0x04 => self.write_pulse2_0(value),
            0x05 => self.write_pulse2_1(value),
            0x06 => self.write_pulse2_2(value),
            0x07 => self.write_pulse2_3(value),
            0x08 => self.write_triangle_0(value),
            0x09 => self.write_dummy_x09(value),
            0x0a => self.write_triangle_1(value),
            0x0b => self.write_triangle_2(value),
            0x0c => self.write_noise_0(value),
            0x0d => self.write_dummy_x0d(value),
            0x0e => self.write_noise_1(value),
            0x0f => self.write_noise_2(value),
            0x10 => self.write_dmc_0(value),
            0x11 => self.write_dmc_1(value),
            0x12 => self.write_dmc_2(value),
            0x13 => self.write_dmc_3(value),
            0x14 => self.write_dummy_x14(value),
            0x15 => self.write_status(value),
            0x16 => self.write_dummy_x16(value),
            0x17 => self.write_frame_counter(value),
            0x18 => self.write_dummy_x18(value),
            0x19 => self.write_dummy_x19(value),
            0x1a => self.write_dummy_x1a(value),
            0x1b => self.write_dummy_x1b(value),
            0x1c => self.write_dummy_x1c(value),
            0x1d => self.write_dummy_x1d(value),
            0x1e => self.write_dummy_x1e(value),
            _ => self.write_dummy_x1f(value),
        }
    }
}

} // verus!
