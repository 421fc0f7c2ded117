use vstd::prelude::*;
use crate::apu::APU;
use crate::mappers::{get_mapper, Mapper0};
use crate::memory::Memory;
use crate::ppu::{
    t_after_addr_hi, t_after_addr_lo, t_after_ctrl, t_after_scroll_x, t_after_scroll_y, PPU,
};
use crate::ppu_bus::PpuMemoryMap;
use crate::rom::Mirroring;

verus! {

/// The CPU's bus: 2 KiB RAM mirrored over $0000-$1FFF, the eight PPU
/// registers mirrored over $2000-$3FFF, APU and I/O at $4000-$401F, the
/// cartridge from $4020.
pub struct CpuMemoryMap {
    pub ram: Vec<u8>,
    pub ppu: PPU,
    pub ppu_mmap: PpuMemoryMap,
    pub apu: APU,
    pub mapper: Mapper0,
    /// Buttons of controller 1 as the host set them: bit 0 A, then B,
    /// Select, Start, Up, Down, Left, Right.
    pub controller_buttons: u8,
    pub controller_shift: u8,
    pub controller_strobe: bool,
}

pub const RAM_SIZE: usize = 0x800;

/// What a CPU read of PPU register `idx` (0-7) returns.
pub open spec fn ppu_register_peek(p: PPU, m: PpuMemoryMap, idx: u16) -> u8 {
    if idx == 2 {
        p.status_spec()
    } else if idx == 4 {
        if p.current_scanline < 240 && 1 <= p.current_cycle <= 64 {
            0xff
        } else {
            p.oam_data@[p.oam_addr as int]
        }
    } else if idx == 7 {
        if p.reg_v % 0x4000 < 0x3f00 {
            p.read_buffer
        } else {
            m.peek(p.reg_v)
        }
    } else {
        p.latch
    }
}

/// The bus after a CPU write of `value` to `addr`.
pub open spec fn write_effect(o: CpuMemoryMap, n: CpuMemoryMap, addr: u16, value: u8) -> bool {
    let p = o.ppu;
    let q = n.ppu;
    &&& n.wf()
    &&& n.controller_buttons == o.controller_buttons
    &&& addr >= 0x2000 ==> n.ram == o.ram
    &&& !(0x2000 <= addr < 0x4000 || addr == 0x4014) ==> n.ppu == o.ppu && n.ppu_mmap == o.ppu_mmap
    &&& !(0x4000 <= addr < 0x4020 && addr != 0x4014 && addr != 0x4016) ==> n.apu == o.apu
    &&& addr < 0x4020 ==> n.mapper == o.mapper
    &&& addr < 0x2000 ==> n.ram@ == o.ram@.update(addr as int % 0x800, value)
    &&& 0x2000 <= addr < 0x4000 ==> {
        let idx = addr % 8;
        &&& q.latch == value
        &&& q.current_scanline == p.current_scanline
        &&& q.current_cycle == p.current_cycle
        &&& idx != 7 ==> n.ppu_mmap == o.ppu_mmap
        &&& idx == 0 ==> q.reg_t == t_after_ctrl(p.reg_t, value) && q.generate_nmi_on_vblank == (
        value & 0x80 != 0) && q.vram_incr == (if value & 0x04 == 0 { 1u16 } else { 32u16 })
        &&& idx == 1 ==> q.show_background == (value & 0x08 != 0) && q.show_sprites == (value & 0x10
            != 0) && q.is_greyscale == (value & 0x01 != 0)
        &&& idx == 3 ==> q.oam_addr == value
        &&& idx == 4 ==> q.oam_data@ == p.oam_data@.update(p.oam_addr as int, value) && q.oam_addr
            == (p.oam_addr + 1) % 256
        &&& idx == 5 ==> q.reg_w == !p.reg_w && (!p.reg_w ==> q.reg_t == t_after_scroll_x(
            p.reg_t,
            value,
        ) && q.reg_x == value & 0x07) && (p.reg_w ==> q.reg_t == t_after_scroll_y(p.reg_t, value))
        &&& idx == 6 ==> q.reg_w == !p.reg_w && (!p.reg_w ==> q.reg_t == t_after_addr_hi(
            p.reg_t,
            value,
        )) && (p.reg_w ==> q.reg_t == t_after_addr_lo(p.reg_t, value) && q.reg_v == q.reg_t)
        &&& idx == 7 ==> PpuMemoryMap::write_spec(o.ppu_mmap, n.ppu_mmap, p.reg_v, value) && q.reg_v
            == (p.reg_v + p.vram_incr) % 0x8000
    }
    &&& addr == 0x4014 ==> q.oam_dma_page == Some(value) && q.oam_data == p.oam_data && n.ppu_mmap
        == o.ppu_mmap
    &&& addr == 0x4016 ==> n.controller_strobe == (value % 2 == 1) && (value % 2 == 1
        ==> n.controller_shift == o.controller_buttons)
    &&& 0x4000 <= addr < 0x4020 && addr != 0x4014 && addr != 0x4016 ==> {
        let idx = (addr % 32) as u8;
        &&& idx != 0x15 ==> n.apu.register_peek(idx) == value
        &&& idx == 0x15 ==> n.apu.reg_status == value && n.apu.channel_pulse1.is_enabled == (value
            % 2 == 1) && n.apu.channel_pulse2.is_enabled == (value / 2 % 2 == 1)
    }
    &&& addr >= 0x4020 ==> {
        &&& n.mapper.prg_rom == o.mapper.prg_rom
        &&& 0x6000 <= addr < 0x8000 ==> n.mapper.prg_ram@ == o.mapper.prg_ram@.update(
            addr as int % 0x2000,
            value,
        )
        &&& !(0x6000 <= addr < 0x8000) ==> n.mapper.prg_ram@ == o.mapper.prg_ram@
    }
}

impl CpuMemoryMap {
    pub open spec fn wf(&self) -> bool {
        &&& self.ram.len() == RAM_SIZE
        &&& self.ppu.wf()
        &&& self.ppu_mmap.wf()
        &&& self.apu.wf()
        &&& self.mapper.wf()
    }

    /// The bit a read of $4016 returns.
    pub open spec fn controller_peek(&self) -> u8 {
        if self.controller_strobe {
            self.controller_buttons % 2
        } else {
            self.controller_shift % 2
        }
    }

    /// Builds the bus of an NROM cartridge; `None` for another mapper or
    /// malformed PRG banks.
    pub fn new(mapper: u8, prg_rom: Vec<Vec<u8>>, chr_rom: Vec<Vec<u8>>, mirroring: Mirroring) -> (r: Option<Self>)
        ensures
            r.is_some() ==> r.unwrap().wf(),
            r.is_some() ==> r.unwrap().ppu.current_scanline == 0 && r.unwrap().ppu.current_cycle == 0,
            r.is_some() ==> !r.unwrap().ppu.is_odd_frame && !r.unwrap().ppu.show_background,
            r.is_some() ==> r.unwrap().mapper.prg_rom == prg_rom,
            mapper != 0 ==> r.is_none(),
            mapper == 0 && (prg_rom.len() == 1 || prg_rom.len() == 2) && (forall|i: int|
                0 <= i < prg_rom.len() ==> #[trigger] prg_rom[i].len() == crate::mappers::PRG_BANK_SIZE)
                ==> r.is_some(),
    {
        match get_mapper(mapper, prg_rom) {
            Some(m) => Some(CpuMemoryMap {
                ram: vec![0u8; RAM_SIZE],
                ppu: PPU::new(),
                ppu_mmap: PpuMemoryMap::new(mirroring, chr_rom),
                apu: APU::new(),
                mapper: m,
                controller_buttons: 0,
                controller_shift: 0,
                controller_strobe: false,
            }),
            None => None,
        }
    }
}

impl Memory for CpuMemoryMap {
    open spec fn peek(&self, addr: u16) -> u8 {
        if !self.wf() {
            0
        } else if addr < 0x2000 {
            self.ram@[addr as int % 0x800]
        } else if addr < 0x4000 {
            ppu_register_peek(self.ppu, self.ppu_mmap, addr % 8)
        } else if addr == 0x4014 {
            self.ppu.latch
        } else if addr == 0x4016 {
            self.controller_peek()
        } else if addr < 0x4020 {
            self.apu.register_peek((addr % 32) as u8)
        } else {
            self.mapper.prg_peek(addr)
        }
    }

    /// Register reads have side effects, so this bus is never plain.
    open spec fn plain(&self) -> bool {
        false
    }

    open spec fn inv(&self) -> bool {
        self.wf()
    }

    fn read_u8(&mut self, addr: u16) -> (r: u8)
        ensures
            !old(self).wf() ==> *final(self) == *old(self),
            final(self).ppu.oam_dma_page == old(self).ppu.oam_dma_page,
            final(self).ppu.oam_addr == old(self).ppu.oam_addr,
            final(self).ppu.oam_data == old(self).ppu.oam_data,
            old(self).wf() && (addr < 0x2000 || addr >= 0x4020 || (0x4000 <= addr < 0x4020 && addr
                != 0x4015 && addr != 0x4016)) ==> *final(self) == *old(self),
            old(self).wf() && 0x2000 <= addr < 0x4000 && addr % 8 == 2 ==> !final(self).ppu.is_in_vblank
                && !final(self).ppu.reg_w,
            old(self).wf() && 0x2000 <= addr < 0x4000 && addr % 8 == 7 ==> {
                &&& final(self).ppu.reg_v == (old(self).ppu.reg_v + old(self).ppu.vram_incr) % 0x8000
                &&& final(self).ppu.read_buffer == if old(self).ppu.reg_v % 0x4000 < 0x3f00 {
                    old(self).ppu_mmap.peek(old(self).ppu.reg_v)
                } else {
                    old(self).ppu_mmap.peek((old(self).ppu.reg_v % 0x4000 - 0x1000) as u16)
                }
            },
            old(self).wf() && addr == 0x4015 ==> final(self).apu == (APU {
                frame_interrupt: false,
                ..old(self).apu
            }),
            old(self).wf() && addr == 0x4016 ==> final(self).controller_shift == if old(
                self).controller_strobe {
                old(self).controller_shift
            } else {
                (old(self).controller_shift / 2 + 0x80) as u8
            },
    {
        if !self.is_wf() {
            return 0;
        }
        if addr < 0x2000 {
            self.ram[(addr % 0x800) as usize]
        } else if addr < 0x4000 {
            let idx = addr % 8;
            if idx == 2 {
                self.ppu.read_ppustatus()
            } else if idx == 4 {
                self.ppu.read_oamdata()
            } else if idx == 7 {
                self.ppu.read_ppudata(&self.ppu_mmap)
            } else {
                self.ppu.latch
            }
        } else if addr == 0x4014 {
            self.ppu.read_oamdma()
        } else if addr == 0x4016 {
            let b = if self.controller_strobe {
                self.controller_buttons % 2
            } else {
                self.controller_shift % 2
            };
            if !self.controller_strobe {
                self.controller_shift = self.controller_shift / 2 + 0x80;
            }
            b
        } else if addr < 0x4020 {
            self.apu.read_register((addr % 32) as u8)
        } else {
            self.mapper.prg_get(addr)
        }
    }

    fn write_u8(&mut self, addr: u16, value: u8)
        ensures
            old(self).wf() ==> write_effect(*old(self), *final(self), addr, value),
            !old(self).wf() ==> *final(self) == *old(self),
    {
        if !self.is_wf() {
            return ;
        }
        self.write_checked(addr, value);
    }
}

impl CpuMemoryMap {
    /// Tests `wf` at run time.
    pub fn is_wf(&self) -> (r: bool)
        ensures
            r == self.wf(),
    {
        self.ram.len() == RAM_SIZE && self.ppu.frame_buffer.len() == 61440 && self.ppu.oam_data.len()
            == 256 && self.ppu.oam_secondary.len() == 8 && self.ppu.oam_evaluated.len() == 8
            && self.ppu.current_scanline < 262 && self.ppu.current_cycle < 341 && (self.ppu.vram_incr
            == 1 || self.ppu.vram_incr == 32) && (self.ppu.sprite_pattern_table_addr == 0
            || self.ppu.sprite_pattern_table_addr == 0x1000) && (
        self.ppu.background_pattern_table_addr == 0 || self.ppu.background_pattern_table_addr
            == 0x1000) && self.ppu_mmap.vram.len() == 0x1000 && self.ppu_mmap.palette.len() == 32
            && self.ppu_mmap.chr.len() == 0x2000 && self.apu_ok() && self.mapper.is_wf()
    }

    fn apu_ok(&self) -> (r: bool)
        ensures
            r == self.apu.wf(),
    {
        self.apu.audio_buffer.capacity > 0 && self.apu.audio_buffer.buffer.len()
            <= self.apu.audio_buffer.capacity && self.apu.audio_clock_divider.ratio
            == crate::apu::CYCLES_PER_SAMPLE && self.apu.audio_clock_divider.ticks_until_triggered
            <= crate::apu::CYCLES_PER_SAMPLE && self.apu.frame_sequencer.step < match self.apu.frame_sequencer.mode {
            crate::frame_sequencer::FrameSequencerMode::FourStep => 4,
            crate::frame_sequencer::FrameSequencerMode::FiveStep => 5,
        } && self.apu.frame_sequencer.step_x.ratio == 1
            && self.apu.frame_sequencer.step_x.ticks_until_triggered <= 7458 && pulse_ok(
            &self.apu.channel_pulse1,
        ) && pulse_ok(&self.apu.channel_pulse2)
    }

    /// A write on a well-formed bus.
    pub fn write_checked(&mut self, addr: u16, value: u8)
        requires
            old(self).wf(),
        ensures
            write_effect(*old(self), *final(self), addr, value),
    {
        if addr < 0x2000 {
            self.ram.set((addr % 0x800) as usize, value);
        } else if addr < 0x4000 {
            let idx = addr % 8;
            if idx == 0 {
                self.ppu.write_ppuctrl(value);
            } else if idx == 1 {
                self.ppu.write_ppumask(value);
            } else if idx == 2 {
                self.ppu.write_ppustatus(value);
            } else if idx == 3 {
                self.ppu.write_oamaddr(value);
            } else if idx == 4 {
                self.ppu.write_oamdata(value);
            } else if idx == 5 {
                self.ppu.write_ppuscroll(value);
            } else if idx == 6 {
                self.ppu.write_ppuaddr(value);
            } else {
                self.ppu.write_ppudata(&mut self.ppu_mmap, value);
            }
        } else if addr == 0x4014 {
            self.ppu.write_oamdma(value);
        } else if addr == 0x4016 {
            self.controller_strobe = value % 2 == 1;
            if self.controller_strobe {
                self.controller_shift = self.controller_buttons;
            }
        } else if addr < 0x4020 {
            self.apu.write_register((addr % 32) as u8, value);
        } else {
            self.mapper.prg_set(addr, value);
        }
    }
}

fn pulse_ok(p: &crate::ch_pulse::ChannelPulse) -> (r: bool)
    ensures
        r == p.wf(),
{
    let e = &p.envelope_generator;
    1 <= e.period && e.period <= 16 && e.counter <= 15 && e.clock_divider.ratio == 1
        && e.clock_divider.ticks_until_triggered <= 16 && p.timer_clock_divider.ratio == 2
        && p.timer_clock_divider.ticks_until_triggered <= 4096 && 1 <= p.timer_period
        && p.timer_period <= 2048 && p.duty < 4 && p.seq_index < 8
}

} // verus!
