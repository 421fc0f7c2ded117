use vstd::prelude::*;
use crate::clock_divider::ClockDivider;
use crate::cpu::{frame, pack_spec, stack_addr, wrap8, CPU};
use crate::memory::{make_word, word, Memory};
use crate::mmap::CpuMemoryMap;
use crate::ppu::next_position;
use crate::rom::NESFile;
use crate::rp2a03::info_spec;

verus! {

/// Master ticks per CPU cycle.
pub const CPU_RATIO: u64 = 12;

/// Master ticks per PPU dot.
pub const PPU_RATIO: u64 = 4;

/// Upper bound of the CPU divider's countdown: an OAM DMA (514 cycles)
/// plus the longest instruction.
pub const MAX_CPU_DELAY: u64 = 12 * 600;

/// The console: CPU and bus, driven from one master clock.
pub struct NES {
    pub cpu: CPU,
    pub mmap: CpuMemoryMap,
    pub total_ticks: u64,
    pub cpu_clock_divider: ClockDivider,
    pub ppu_clock_divider: ClockDivider,
}

/// Dot position and odd-frame flag after `n` PPU dots from (`s`, `d`, `odd`)
/// with the background enable `bg`.
pub open spec fn dots_after(s: u16, d: u16, odd: bool, bg: bool, n: nat) -> (u16, u16, bool)
    decreases n,
{
    if n == 0 {
        (s, d, odd)
    } else {
        let (a, b, o) = dots_after(s, d, odd, bg, (n - 1) as nat);
        let (a2, b2) = next_position(a, b, o, bg);
        (a2, b2, if a2 == 0 && b2 == 0 { !o } else { o })
    }
}

/// Entering an interrupt through `vector` from `o`: the new CPU and RAM,
/// and a 7-cycle delay.
pub open spec fn interrupt_post(o: NES, n: NES, vector: u16) -> bool {
    let c = o.cpu;
    &&& n.cpu == (CPU {
        pc: word(o.mmap.mapper.prg_peek(vector), o.mmap.mapper.prg_peek((vector + 1) as u16)),
        reg_s: wrap8(c.reg_s - 3),
        flag_interrupt_disable: true,
        ..c
    })
    &&& n.mmap.ram@ == o.mmap.ram@.update(stack_addr(c.reg_s as int) as int, (c.pc / 256) as u8).update(
        stack_addr(c.reg_s - 1) as int,
        (c.pc % 256) as u8,
    ).update(stack_addr(c.reg_s - 2) as int, pack_spec(c) & 0xef)
    &&& n.cpu_clock_divider.ticks_until_triggered == 7 * CPU_RATIO
}

/// What the CPU side of a master tick does, from `o` to `n`.
pub open spec fn cpu_phase(o: NES, n: NES) -> bool {
    &&& n.wf()
    &&& n.total_ticks == o.total_ticks
    &&& n.ppu_clock_divider == o.ppu_clock_divider
    &&& o.cpu_clock_divider.ticks_until_triggered > 0 ==> n == o
    &&& o.cpu_clock_divider.ticks_until_triggered == 0 ==> match o.mmap.ppu.oam_dma_page {
        // A pending OAM DMA: 256 bytes copied, the CPU stalled 513 cycles
        // (514 on an odd cycle).
        Some(page) => {
            &&& n.cpu == o.cpu
            &&& n.mmap.ppu.oam_dma_page.is_none()
            &&& n.cpu_clock_divider.ticks_until_triggered == ((if (o.total_ticks / 12) % 2 == 1 {
                514u64
            } else {
                513u64
            }) * CPU_RATIO) as u64
            &&& n.mmap.ppu.oam_addr == o.mmap.ppu.oam_addr
            &&& page < 0x20 ==> n.mmap.ram == o.mmap.ram && forall|i: int|
                0 <= i < 256 ==> #[trigger] n.mmap.ppu.oam_data@[(o.mmap.ppu.oam_addr + i) % 256]
                    == o.mmap.ram@[(page * 256 + i) % 0x800]
        },
        None => if o.mmap.ppu.is_cpu_interrupt_requested {
            // NMI: the line is consumed.
            &&& !n.mmap.ppu.is_cpu_interrupt_requested
            &&& interrupt_post(o, n, 0xfffa)
        } else if o.mmap.apu.frame_interrupt && !o.cpu.flag_interrupt_disable {
            interrupt_post(o, n, 0xfffe)
        } else {
            // One instruction: only its masks change, and the divider waits
            // for its 2 to 10 cycles.
            &&& frame(o.cpu, n.cpu, info_spec(o.mmap.peek(o.cpu.pc)))
            &&& n.cpu_clock_divider.ticks_until_triggered % CPU_RATIO == 0
            &&& 2 * CPU_RATIO <= n.cpu_clock_divider.ticks_until_triggered <= 10 * CPU_RATIO
        },
    }
}

/// What the rest of a master tick does, from `m` to `n`: a PPU dot when its
/// divider is due, the clocks.
pub open spec fn clock_phase(m: NES, n: NES) -> bool {
    let p = m.mmap.ppu;
    let q = n.mmap.ppu;
    &&& n.cpu == m.cpu
    &&& n.total_ticks == m.total_ticks + 1
    &&& n.cpu_clock_divider.ticks_until_triggered == if m.cpu_clock_divider.ticks_until_triggered == 0 {
        (CPU_RATIO - 1) as u64
    } else {
        (m.cpu_clock_divider.ticks_until_triggered - 1) as u64
    }
    &&& m.ppu_clock_divider.ticks_until_triggered == 0 ==> {
        &&& (q.current_scanline, q.current_cycle) == next_position(
            p.current_scanline,
            p.current_cycle,
            p.is_odd_frame,
            p.show_background,
        )
        &&& p.current_scanline == 241 && p.current_cycle == 1 ==> q.is_in_vblank
        &&& q.is_cpu_interrupt_requested == (p.is_cpu_interrupt_requested || (p.current_scanline
            == 241 && p.current_cycle == 1 && p.generate_nmi_on_vblank))
    }
    &&& m.ppu_clock_divider.ticks_until_triggered != 0 ==> q == p
}

impl NES {
    pub open spec fn wf(&self) -> bool {
        &&& self.mmap.wf()
        &&& self.cpu_clock_divider.ratio == CPU_RATIO
        &&& self.ppu_clock_divider.ratio == PPU_RATIO
        &&& self.cpu_clock_divider.ticks_until_triggered <= MAX_CPU_DELAY
        &&& self.ppu_clock_divider.ticks_until_triggered < PPU_RATIO
    }

    /// Total CPU cycles so far.
    pub open spec fn cycles(&self) -> u64 {
        self.total_ticks / 12
    }

    /// A console running `rom`, after RESET; `None` when its mapper is not
    /// NROM or its PRG banks are not one or two of 16 KiB.
    pub fn new(rom: NESFile) -> (r: Option<Self>)
        ensures
            rom.header.mapper != 0 ==> r.is_none(),
            rom.header.mapper == 0 && (rom.prg_rom.len() == 1 || rom.prg_rom.len() == 2) && (forall|i: int|
                0 <= i < rom.prg_rom.len() ==> #[trigger] rom.prg_rom[i].len()
                == crate::mappers::PRG_BANK_SIZE) ==> r.is_some(),
            r.is_some() ==> ({
                let n = r.unwrap();
                let last = rom.prg_rom[rom.prg_rom.len() - 1]@;
                &&& n.wf()
                &&& n.total_ticks == 7 * 12
                &&& n.cpu.pc == word(last[0x3ffc], last[0x3ffd])
                &&& n.cpu.reg_s == 0xfd
                &&& n.cpu.flag_interrupt_disable
                &&& n.cpu_clock_divider.ticks_until_triggered == 0
                &&& n.ppu_clock_divider.ticks_until_triggered == 0
                &&& (n.mmap.ppu.current_scanline, n.mmap.ppu.current_cycle, n.mmap.ppu.is_odd_frame)
                    == dots_after(0, 0, false, false, 21)
            }),
    {
        let NESFile { header, prg_rom, chr_rom } = rom;
        match CpuMemoryMap::new(header.mapper, prg_rom, chr_rom, header.mirroring) {
            Some(mmap) => {
                let ghost m0 = mmap.mapper;
                assert(m0.prg_rom[m0.prg_rom.len() - 1].len() == crate::mappers::PRG_BANK_SIZE);
                assert(m0.prg_peek(0xfffc) == m0.prg_rom[m0.prg_rom.len() - 1]@[0x3ffc]);
                assert(m0.prg_peek(0xfffd) == m0.prg_rom[m0.prg_rom.len() - 1]@[0x3ffd]);
                let mut nes = NES {
                    cpu: CPU::new(),
                    mmap,
                    total_ticks: 0,
                    cpu_clock_divider: ClockDivider::new(CPU_RATIO),
                    ppu_clock_divider: ClockDivider::new(PPU_RATIO),
                };
                nes.reset();
                Some(nes)
            },
            None => None,
        }
    }

    pub fn get_total_cycles(&self) -> (r: u64)
        ensures
            r == self.cycles(),
    {
        self.total_ticks / 12
    }

    /// RESET: the CPU reset sequence (7 cycles, PC from $FFFC/D, S = $FD,
    /// I set, no writes) while the PPU runs 21 dots; both dividers ready.
    pub fn reset(&mut self)
        requires
            old(self).wf(),
        ensures
            final(self).wf(),
            final(self).total_ticks == 7 * 12,
            final(self).cpu == (CPU {
                pc: word(old(self).mmap.mapper.prg_peek(0xfffc), old(self).mmap.mapper.prg_peek(0xfffd)),
                reg_s: 0xfd,
                flag_interrupt_disable: true,
                ..CPU::new_spec()
            }),
            final(self).mmap.ram == old(self).mmap.ram,
            final(self).mmap.mapper == old(self).mmap.mapper,
            (final(self).mmap.ppu.current_scanline, final(self).mmap.ppu.current_cycle,
            final(self).mmap.ppu.is_odd_frame) == dots_after(
                old(self).mmap.ppu.current_scanline,
                old(self).mmap.ppu.current_cycle,
                old(self).mmap.ppu.is_odd_frame,
                old(self).mmap.ppu.show_background,
                21,
            ),
            final(self).cpu_clock_divider.ticks_until_triggered == 0,
            final(self).ppu_clock_divider.ticks_until_triggered == 0,
    {
        let lo = self.mmap.mapper.prg_get(0xfffc);
        let hi = self.mmap.mapper.prg_get(0xfffd);
        let mut i: u32 = 0;
        while i < 21
            invariant
                self.mmap.wf(),
                self.mmap.mapper == old(self).mmap.mapper,
                self.mmap.ram == old(self).mmap.ram,
                self.mmap.ppu.show_background == old(self).mmap.ppu.show_background,
                i <= 21,
                (self.mmap.ppu.current_scanline, self.mmap.ppu.current_cycle, self.mmap.ppu.is_odd_frame)
                    == dots_after(
                    old(self).mmap.ppu.current_scanline,
                    old(self).mmap.ppu.current_cycle,
                    old(self).mmap.ppu.is_odd_frame,
                    old(self).mmap.ppu.show_background,
                    i as nat,
                ),
            decreases 21 - i,
        {
            self.mmap.ppu.run_one(&self.mmap.ppu_mmap);
            i = i + 1;
        }
        self.cpu.reset_with_vector(make_word(lo, hi));
        self.total_ticks = 7 * 12;
        self.cpu_clock_divider = ClockDivider::new(CPU_RATIO);
        self.ppu_clock_divider = ClockDivider::new(PPU_RATIO);
    }

    /// Enters the interrupt handler whose vector is at `vector`.
    fn interrupt(&mut self, vector: u16)
        requires
            old(self).wf(),
            vector == 0xfffa || vector == 0xfffe,
            old(self).cpu_clock_divider.ticks_until_triggered == 0,
        ensures
            final(self).wf(),
            interrupt_post(*old(self), *final(self), vector),
            final(self).total_ticks == old(self).total_ticks,
            final(self).ppu_clock_divider == old(self).ppu_clock_divider,
            final(self).mmap.ppu.is_cpu_interrupt_requested == old(self).mmap.ppu.is_cpu_interrupt_requested,
    {
        let lo = self.mmap.mapper.prg_get(vector);
        let hi = self.mmap.mapper.prg_get(vector + 1);
        let s = self.cpu.reg_s;
        let (b1, b2, b3) = self.cpu.enter_interrupt(make_word(lo, hi));
        self.mmap.write_checked(0x100 + s as u16, b1);
        self.mmap.write_checked(0x100 + s.wrapping_sub(1) as u16, b2);
        self.mmap.write_checked(0x100 + s.wrapping_sub(2) as u16, b3);
        self.cpu_clock_divider.delay(7);
    }

    /// Copies CPU page `page` into OAM and stalls the CPU.
    fn oam_dma(&mut self, page: u8)
        requires
            old(self).wf(),
            old(self).cpu_clock_divider.ticks_until_triggered == 0,
            old(self).mmap.ppu.oam_dma_page == Some(page),
        ensures
            final(self).wf(),
            cpu_phase(*old(self), *final(self)),
    {
        self.mmap.ppu.oam_dma_page = None;
        let odd = (self.total_ticks / 12) % 2 == 1;
        self.cpu_clock_divider.delay(if odd { 514 } else { 513 });
        let base = (page as u16) * 256;
        let mut i: u16 = 0;
        while i < 256
            invariant
                self.mmap.wf(),
                i <= 256,
                base as int == page as int * 256,
                self.cpu == old(self).cpu,
                self.total_ticks == old(self).total_ticks,
                self.cpu_clock_divider == (ClockDivider {
                    ticks_until_triggered: ((if (old(self).total_ticks / 12) % 2 == 1 {
                        514u64
                    } else {
                        513u64
                    }) * CPU_RATIO) as u64,
                    ..old(self).cpu_clock_divider
                }),
                self.ppu_clock_divider == old(self).ppu_clock_divider,
                self.mmap.ppu.oam_dma_page.is_none(),
                self.mmap.ppu.oam_addr == old(self).mmap.ppu.oam_addr,
                page < 0x20 ==> self.mmap.ram == old(self).mmap.ram,
                page < 0x20 ==> forall|j: int|
                    0 <= j < i ==> #[trigger] self.mmap.ppu.oam_data@[(old(self).mmap.ppu.oam_addr + j) % 256]
                        == old(self).mmap.ram@[(page * 256 + j) % 0x800],
            decreases 256 - i,
        {
            let b = self.mmap.read_u8(base + i);
            self.mmap.ppu.write_oamdata_raw(i as u8, b);
            i = i + 1;
        }
    }

    /// The CPU side of a master tick.
    fn cpu_step(&mut self)
        requires
            old(self).wf(),
        ensures
            cpu_phase(*old(self), *final(self)),
    {
        if self.cpu_clock_divider.is_triggered() {
            match self.mmap.ppu.oam_dma_page {
                Some(page) => self.oam_dma(page),
                None => {
                    if self.mmap.ppu.is_cpu_interrupt_requested {
                        self.mmap.ppu.is_cpu_interrupt_requested = false;
                        self.interrupt(0xfffa);
                    } else if self.mmap.apu.irq_pending() && !self.cpu.flag_interrupt_disable {
                        self.interrupt(0xfffe);
                    } else {
                        let cycles = self.cpu.run_one(&mut self.mmap);
                        self.cpu_clock_divider.delay(cycles as u64);
                    }
                },
            }
        }
    }

    /// The rest of a master tick: PPU dot, APU cycle, clocks.
    fn clock_step(&mut self)
        requires
            old(self).wf(),
            old(self).total_ticks < u64::MAX,
        ensures
            final(self).wf(),
            clock_phase(*old(self), *final(self)),
    {
        if self.ppu_clock_divider.is_triggered() {
            self.mmap.ppu.run_one(&self.mmap.ppu_mmap);
        }
        if self.total_ticks % 12 == 0 {
            self.mmap.apu.tick();
        }
        self.total_ticks = self.total_ticks + 1;
        self.cpu_clock_divider.tick();
        self.ppu_clock_divider.tick();
    }

    /// One master tick: when the CPU is due (12 ticks per cycle, after the
    /// cycles of its last instruction) it serves a pending OAM DMA, else a
    /// pending NMI, else an IRQ, else runs one instruction; then the PPU
    /// runs a dot when due (every 4 ticks), the APU a cycle every 12 ticks,
    /// and the clocks advance.
    pub fn tick(&mut self)
        requires
            old(self).wf(),
            old(self).total_ticks < u64::MAX,
        ensures
            final(self).wf(),
            final(self).total_ticks == old(self).total_ticks + 1,
            exists|mid: NES| #[trigger] cpu_phase(*old(self), mid) && clock_phase(mid, *final(self)),
            old(self).cpu_clock_divider.ticks_until_triggered > 0 ==> final(self).cpu_clock_divider.ticks_until_triggered
                == old(self).cpu_clock_divider.ticks_until_triggered - 1,
            old(self).cpu_clock_divider.ticks_until_triggered > 0 ==> final(self).cpu == old(self).cpu,
    {
        self.cpu_step();
        let ghost mid = *self;
        self.clock_step();
        assert(cpu_phase(*old(self), mid) && clock_phase(mid, *self));
    }

    /// Ticks until the CPU is due (at the start of its next instruction).
    pub fn wait_until_cpu_ready(&mut self)
        requires
            old(self).wf(),
            old(self).total_ticks + MAX_CPU_DELAY < u64::MAX,
        ensures
            final(self).wf(),
            final(self).cpu_clock_divider.ticks_until_triggered == 0,
            final(self).cpu == old(self).cpu,
            final(self).total_ticks == old(self).total_ticks + old(self).cpu_clock_divider.ticks_until_triggered,
    {
        while !self.cpu_clock_divider.is_triggered()
            invariant
                self.wf(),
                self.cpu == old(self).cpu,
                self.total_ticks + self.cpu_clock_divider.ticks_until_triggered == old(self).total_ticks
                    + old(self).cpu_clock_divider.ticks_until_triggered,
                old(self).total_ticks + MAX_CPU_DELAY < u64::MAX,
                old(self).cpu_clock_divider.ticks_until_triggered <= MAX_CPU_DELAY,
            decreases self.cpu_clock_divider.ticks_until_triggered,
        {
            self.tick();
        }
    }
}

} // verus!
