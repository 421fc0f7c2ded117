use nes_core::apu::{AudioBuffer, APU};
use nes_core::clock_divider::ClockDivider;
use nes_core::envelope_generator::EnvelopeGenerator;
use nes_core::frame_sequencer::{FrameSequencer, FrameSequencerMode};
use nes_core::length_counter::LengthCounter;
use nes_core::palette::ppu_pixel_to_color;
use nes_core::shreg::{ShiftRegister16, ShiftRegister8};

#[test]
fn clock_divider_fires_every_ratio_ticks() {
    let mut d = ClockDivider::new(4);
    assert!(d.is_triggered());
    let mut fired = 0;
    for _ in 0..12 {
        d.tick();
        if d.is_triggered() {
            fired += 1;
        }
    }
    assert_eq!(3, fired);
    d.delay(2);
    assert_eq!(8, d.ticks_until_triggered);
    d.delay_ticks(3);
    assert_eq!(11, d.ticks_until_triggered);
    d.reset();
    assert!(d.is_triggered());
}

#[test]
fn shift_registers() {
    let mut s = ShiftRegister8::new();
    s.load(0x81);
    assert!(s.get_u1());
    s.shift();
    assert!(!s.get_u1());
    assert_eq!(0x02, s.data);
    let mut w = ShiftRegister16::new();
    w.feed(0xab);
    for _ in 0..8 {
        w.shift();
    }
    w.feed(0xcd);
    assert_eq!(0xab, w.hi());
    assert_eq!(0xabcd, w.data);
}

#[test]
fn length_counter_table_and_halt() {
    let mut l = LengthCounter::new();
    l.set_halt(false);
    l.set_index(0x01);
    assert_eq!(0xfe, l.value);
    l.set_index(0x1f);
    assert_eq!(0x1e, l.value);
    l.tick();
    assert_eq!(0x1d, l.value);
    l.set_halt(true);
    l.tick();
    assert_eq!(0x1d, l.value);
    l.clear();
    assert!(l.value_is_zero());
}

#[test]
fn envelope_decays_and_loops() {
    let mut e = EnvelopeGenerator::new();
    e.set_enabled(true);
    e.set_period(0);
    e.reset();
    e.tick();
    assert_eq!(15, e.get_volume());
    for _ in 0..15 {
        e.tick();
    }
    assert_eq!(0, e.get_volume());
    e.tick();
    assert_eq!(0, e.get_volume());
    e.set_loop(true);
    e.tick();
    assert_eq!(15, e.get_volume());
    e.set_enabled(false);
    e.set_period(9);
    assert_eq!(9, e.get_volume());
}

#[test]
fn four_step_sequence_schedule() {
    let mut f = FrameSequencer::new();
    let mut events = vec![];
    for cycle in 1..=29828u32 {
        let t = f.tick();
        if t.envelopes || t.length_counters || t.frame_interrupt {
            events.push((cycle, t.envelopes, t.length_counters, t.frame_interrupt));
        }
    }
    assert_eq!(
        vec![
            (7457, true, false, false),
            (14913, true, true, false),
            (22371, true, false, false),
            (29828, true, true, true),
        ],
        events
    );
}

#[test]
fn five_step_sequence_has_no_irq() {
    let mut f = FrameSequencer::new();
    f.reset(FrameSequencerMode::FiveStep, false);
    let mut irq = false;
    let mut lengths = 0;
    for _ in 0..37281u32 {
        let t = f.tick();
        irq |= t.frame_interrupt;
        if t.length_counters {
            lengths += 1;
        }
    }
    assert!(!irq);
    assert_eq!(2, lengths);
}

#[test]
fn five_step_write_clocks_at_once() {
    let mut apu = APU::new();
    apu.write_status(0x01);
    apu.write_pulse1_0(0x00); // length counter running
    apu.write_pulse1_3(0x08);
    assert_eq!(0xfe, apu.channel_pulse1.length_counter.value);
    apu.write_frame_counter(0x80);
    assert_eq!(0xfd, apu.channel_pulse1.length_counter.value);
    apu.write_frame_counter(0x00);
    assert_eq!(0xfd, apu.channel_pulse1.length_counter.value);
}

#[test]
fn pulse_envelope_bit() {
    let mut apu = APU::new();
    apu.write_pulse1_0(0x10);
    assert!(apu.channel_pulse1.envelope_generator.is_enabled);
    apu.write_pulse1_0(0x07);
    assert!(!apu.channel_pulse1.envelope_generator.is_enabled);
    assert_eq!(8, apu.channel_pulse1.envelope_generator.period);
}

#[test]
fn audio_buffer_drops_oldest() {
    let mut b = AudioBuffer::new(3);
    for v in 1..=5u8 {
        b.push(v);
    }
    assert_eq!(2, b.dropped);
    assert_eq!(Some(3), b.pop());
    assert_eq!(Some(4), b.pop());
    assert_eq!(Some(5), b.pop());
    assert_eq!(None, b.pop());
}

#[test]
fn apu_status_and_frame_counter() {
    let mut apu = APU::new();
    apu.write_status(0x01);
    apu.write_pulse1_3(0x08);
    assert_eq!(0xfe, apu.channel_pulse1.length_counter.value);
    assert_eq!(0x01, apu.read_status());
    apu.write_status(0x00);
    assert_eq!(0, apu.channel_pulse1.length_counter.value);
    apu.write_frame_counter(0x00);
    for _ in 0..29828u32 {
        apu.tick();
    }
    assert!(apu.irq_pending());
    assert_eq!(0x40, apu.read_status() & 0x40);
    assert!(!apu.irq_pending());
    assert!(apu.audio_buffer.buffer.len() > 0);
}

#[test]
fn palette_colors() {
    let c = ppu_pixel_to_color(0x00);
    assert_eq!((84, 84, 84), (c.r, c.g, c.b));
    let d = ppu_pixel_to_color(0x01);
    assert_eq!((0, 30, 116), (d.r, d.g, d.b));
}
