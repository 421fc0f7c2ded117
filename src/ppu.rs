use vstd::prelude::*;
use crate::ppu_bus::PpuMemoryMap;
use crate::shreg::{ShiftRegister16, ShiftRegister8};

verus! {

#[allow(non_camel_case_types)]
#[derive(Debug, Clone, Copy, PartialEq, Eq, Structural)]
pub enum SpriteSize {
    _8x8,
    _8x16,
}

/// A sprite slot: one of the eight sprites of a scanline.
#[derive(Debug, Clone, Copy)]
pub struct EvaluatedSprite {
    pub is_valid: bool,
    pub is_zero_sprite: bool,
    pub x: u8,
    pub y: u8,
    pub tile_index: u8,
    pub attributes: u8,
    pub tile_lo: ShiftRegister8,
    pub tile_hi: ShiftRegister8,
}

impl EvaluatedSprite {
    pub fn new() -> (r: Self)
        ensures
            !r.is_valid && !r.is_zero_sprite,
            r.x == 0xff && r.y == 0xff && r.tile_index == 0xff && r.attributes == 0xff,
    {
        EvaluatedSprite {
            is_valid: false,
            is_zero_sprite: false,
            x: 0xff,
            y: 0xff,
            tile_index: 0xff,
            attributes: 0xff,
            tile_lo: ShiftRegister8::new(),
            tile_hi: ShiftRegister8::new(),
        }
    }
}

pub const FRAME_WIDTH: usize = 256;

pub const FRAME_HEIGHT: usize = 240;

pub const DOTS_PER_SCANLINE: u16 = 341;

pub const SCANLINES_PER_FRAME: u16 = 262;

/// The picture processing unit.
pub struct PPU {
    pub current_scanline: u16,
    pub current_cycle: u16,
    /// 256x240 palette indices (6 bits each), row by row.
    pub frame_buffer: Vec<u8>,
    /// The NMI line: set when an NMI is due, cleared by whoever services it.
    pub is_cpu_interrupt_requested: bool,
    /// Page written to $4014 and not yet copied into OAM.
    pub oam_dma_page: Option<u8>,
    pub is_odd_frame: bool,
    /// Loopy registers: current and temporary VRAM address, fine X, write toggle.
    pub reg_v: u16,
    pub reg_t: u16,
    pub reg_x: u8,
    pub reg_w: bool,
    /// The buffered byte of $2007 reads.
    pub read_buffer: u8,
    pub current_tile_idx: u8,
    pub current_tile_attr: u8,
    pub current_tile_pattern_lo: u8,
    pub current_tile_pattern_hi: u8,
    pub shreg_bg_tile_lo: ShiftRegister16,
    pub shreg_bg_tile_hi: ShiftRegister16,
    pub shreg_bg_attr_lo: ShiftRegister16,
    pub shreg_bg_attr_hi: ShiftRegister16,
    /// Open-bus latch: the last byte written to a register.
    pub latch: u8,
    pub sprite_pattern_table_addr: u16,
    pub background_pattern_table_addr: u16,
    pub vram_incr: u16,
    pub sprite_size: SpriteSize,
    pub is_primary: bool,
    pub generate_nmi_on_vblank: bool,
    pub is_greyscale: bool,
    pub show_background_leftmost_8pix: bool,
    pub show_sprites_leftmost_8pix: bool,
    pub show_background: bool,
    pub show_sprites: bool,
    pub emphasize_red: bool,
    pub emphasize_green: bool,
    pub emphasize_blue: bool,
    pub is_sprite_overflow: bool,
    pub is_sprite0_hit: bool,
    pub is_in_vblank: bool,
    pub oam_addr: u8,
    pub oam_data: Vec<u8>,
    /// Sprites found for the next scanline.
    pub oam_secondary: Vec<EvaluatedSprite>,
    /// Sprites being drawn on this scanline.
    pub oam_evaluated: Vec<EvaluatedSprite>,
}

/// `t` after a PPUCTRL write: nametable select into bits 10-11.
pub open spec fn t_after_ctrl(t: u16, value: u8) -> u16 {
    (t & !0x0c00u16) | (((value & 0x03) as u16) << 10u16)
}

/// `t` after the first PPUSCROLL write: coarse X into bits 0-4.
pub open spec fn t_after_scroll_x(t: u16, value: u8) -> u16 {
    (t & !0x001fu16) | ((value as u16) >> 3u16)
}

/// `t` after the second PPUSCROLL write: fine Y into bits 12-14, coarse Y into bits 5-9.
pub open spec fn t_after_scroll_y(t: u16, value: u8) -> u16 {
    (t & !0x73e0u16) | (((value as u16) & 0x07) << 12u16) | (((value as u16) >> 3u16) << 5u16)
}

/// `t` after the first PPUADDR write: bits 8-13 from the value, bit 14 cleared.
pub open spec fn t_after_addr_hi(t: u16, value: u8) -> u16 {
    (t & 0x00ff) | (((value as u16) & 0x3f) << 8u16)
}

/// `t` after the second PPUADDR write: bits 0-7 from the value.
pub open spec fn t_after_addr_lo(t: u16, value: u8) -> u16 {
    (t & 0xff00) | (value as u16)
}

/// Where the dot counter goes next: 341 dots per line, 262 lines, except
/// that on odd frames with the background on, dot 340 of line 261 is skipped.
pub open spec fn next_position(scanline: u16, dot: u16, odd: bool, bg: bool) -> (u16, u16) {
    if scanline == 261 && (dot == 340 || (dot == 339 && odd && bg)) {
        (0, 0)
    } else if dot == 340 {
        ((scanline + 1) as u16, 0)
    } else {
        (scanline, (dot + 1) as u16)
    }
}

/// Position of a dot within its frame.
pub open spec fn dot_index(scanline: u16, dot: u16) -> int {
    scanline * 341 + dot
}

/// The last dot of a frame.
pub open spec fn last_dot(odd: bool, bg: bool) -> (u16, u16) {
    if odd && bg {
        (261, 339)
    } else {
        (261, 340)
    }
}

/// Frame length: each dot of a frame but the last is followed by the next
/// dot, the last one by dot (0, 0); so a frame has 341 x 262 = 89342 dots,
/// or 89341 on an odd frame with the background enabled.
pub proof fn lemma_frame_length(scanline: u16, dot: u16, odd: bool, bg: bool)
    requires
        scanline < 262,
        dot < 341,
        dot_index(scanline, dot) <= dot_index(last_dot(odd, bg).0, last_dot(odd, bg).1),
    ensures
        (scanline, dot) == last_dot(odd, bg) ==> next_position(scanline, dot, odd, bg) == (0u16, 0u16),
        (scanline, dot) != last_dot(odd, bg) ==> dot_index(
            next_position(scanline, dot, odd, bg).0,
            next_position(scanline, dot, odd, bg).1,
        ) == dot_index(scanline, dot) + 1,
        dot_index(last_dot(odd, bg).0, last_dot(odd, bg).1) + 1 == if odd && bg {
            89341int
        } else {
            89342int
        },
{
}

impl PPU {
    pub open spec fn wf(&self) -> bool {
        &&& self.frame_buffer.len() == 61440
        &&& self.oam_data.len() == 256
        &&& self.oam_secondary.len() == 8
        &&& self.oam_evaluated.len() == 8
        &&& self.current_scanline < 262
        &&& self.current_cycle < 341
        &&& self.vram_incr == 1 || self.vram_incr == 32
        &&& self.sprite_pattern_table_addr == 0 || self.sprite_pattern_table_addr == 0x1000
        &&& self.background_pattern_table_addr == 0 || self.background_pattern_table_addr == 0x1000
    }

    pub fn new() -> (r: Self)
        ensures
            r.wf(),
            r.current_scanline == 0 && r.current_cycle == 0,
            !r.is_in_vblank && !r.is_cpu_interrupt_requested && !r.generate_nmi_on_vblank,
            !r.show_background && !r.show_sprites && !r.is_odd_frame,
            !r.reg_w && r.reg_v == 0 && r.reg_t == 0 && r.reg_x == 0,
            r.oam_dma_page.is_none(),
            r.vram_incr == 1,
            r.latch == 0 && r.read_buffer == 0 && r.oam_addr == 0,
            forall|i: int| 0 <= i < 61440 ==> #[trigger] r.frame_buffer@[i] == 0,
            forall|i: int| 0 <= i < 256 ==> #[trigger] r.oam_data@[i] == 0,
    {
        PPU {
            current_scanline: 0,
            current_cycle: 0,
            frame_buffer: vec![0u8; 61440],
            is_cpu_interrupt_requested: false,
            oam_dma_page: None,
            is_odd_frame: false,
            reg_v: 0,
            reg_t: 0,
            reg_x: 0,
            reg_w: false,
            read_buffer: 0,
            current_tile_idx: 0,
            current_tile_attr: 0,
            current_tile_pattern_lo: 0,
            current_tile_pattern_hi: 0,
            shreg_bg_tile_lo: ShiftRegister16::new(),
            shreg_bg_tile_hi: ShiftRegister16::new(),
            shreg_bg_attr_lo: ShiftRegister16::new(),
            shreg_bg_attr_hi: ShiftRegister16::new(),
            latch: 0,
            sprite_pattern_table_addr: 0,
            background_pattern_table_addr: 0,
            vram_incr: 1,
            sprite_size: SpriteSize::_8x8,
            is_primary: false,
            generate_nmi_on_vblank: false,
            is_greyscale: false,
            show_background_leftmost_8pix: false,
            show_sprites_leftmost_8pix: false,
            show_background: false,
            show_sprites: false,
            emphasize_red: false,
            emphasize_green: false,
            emphasize_blue: false,
            is_sprite_overflow: false,
            is_sprite0_hit: false,
            is_in_vblank: false,
            oam_addr: 0,
            oam_data: vec![0u8; 256],
            oam_secondary: vec![EvaluatedSprite::new(); 8],
            oam_evaluated: vec![EvaluatedSprite::new(); 8],
        }
    }

    /// PPUCTRL is write-only: reads see the open-bus latch.
    pub fn read_ppuctrl(&self) -> (r: u8)
        ensures
            r == self.latch,
    {
        self.latch
    }

    #[verifier::spinoff_prover]
    pub fn write_ppuctrl(&mut self, value: u8)
        requires
            old(self).wf(),
        ensures
            final(self).wf(),
            final(self).latch == value,
            final(self).reg_t == t_after_ctrl(old(self).reg_t, value),
            final(self).reg_v == old(self).reg_v && final(self).reg_x == old(self).reg_x,
            final(self).reg_w == old(self).reg_w,
            final(self).vram_incr == if value & 0x04 == 0 { 1u16 } else { 32u16 },
            final(self).sprite_pattern_table_addr == if value & 0x08 == 0 { 0u16 } else { 0x1000u16 },
            final(self).background_pattern_table_addr == if value & 0x10 == 0 {
                0u16
            } else {
                0x1000u16
            },
            final(self).sprite_size == if value & 0x20 == 0 {
                SpriteSize::_8x8
            } else {
                SpriteSize::_8x16
            },
            final(self).is_primary == (value & 0x40 != 0),
            final(self).generate_nmi_on_vblank == (value & 0x80 != 0),
            final(self).is_cpu_interrupt_requested == (old(self).is_cpu_interrupt_requested || (
            value & 0x80 != 0 && !old(self).generate_nmi_on_vblank && old(self).is_in_vblank)),
            final(self).is_in_vblank == old(self).is_in_vblank,
            final(self).current_scanline == old(self).current_scanline,
            final(self).current_cycle == old(self).current_cycle,
            final(self).show_background == old(self).show_background,
            final(self).oam_dma_page == old(self).oam_dma_page,
    {
        self.latch = value;
        self.reg_t = (self.reg_t & !0x0c00u16) | (((value & 0x03) as u16) << 10u16);
        self.set_ctrl_fields(value);
        let was_enabled = self.generate_nmi_on_vblank;
        self.generate_nmi_on_vblank = value & 0x80 != 0;
        if self.generate_nmi_on_vblank && !was_enabled && self.is_in_vblank {
            self.is_cpu_interrupt_requested = true;
        }
    }

    /// The increment, pattern-table, sprite-size and primary bits of PPUCTRL.
    #[verifier::spinoff_prover]
    fn set_ctrl_fields(&mut self, value: u8)
        requires
            old(self).wf(),
        ensures
            final(self).wf(),
            *final(self) == (PPU {
                vram_incr: if value & 0x04 == 0 { 1u16 } else { 32u16 },
                sprite_pattern_table_addr: if value & 0x08 == 0 { 0u16 } else { 0x1000u16 },
                background_pattern_table_addr: if value & 0x10 == 0 { 0u16 } else { 0x1000u16 },
                sprite_size: if value & 0x20 == 0 { SpriteSize::_8x8 } else { SpriteSize::_8x16 },
                is_primary: value & 0x40 != 0,
                ..*old(self)
            }),
    {
        self.vram_incr = if value & 0x04 == 0 { 1 } else { 32 };
        self.sprite_pattern_table_addr = if value & 0x08 == 0 { 0x0000 } else { 0x1000 };
        self.background_pattern_table_addr = if value & 0x10 == 0 { 0x0000 } else { 0x1000 };
        self.sprite_size = if value & 0x20 == 0 { SpriteSize::_8x8 } else { SpriteSize::_8x16 };
        self.is_primary = value & 0x40 != 0;
    }

    pub fn read_ppumask(&self) -> (r: u8)
        ensures
            r == self.latch,
    {
        self.latch
    }

    #[verifier::spinoff_prover]
    pub fn write_ppumask(&mut self, value: u8)
        requires
            old(self).wf(),
        ensures
            final(self).wf(),
            *final(self) == (PPU {
                latch: value,
                is_greyscale: value & 0x01 != 0,
                show_background_leftmost_8pix: value & 0x02 != 0,
                show_sprites_leftmost_8pix: value & 0x04 != 0,
                show_background: value & 0x08 != 0,
                show_sprites: value & 0x10 != 0,
                emphasize_red: value & 0x20 != 0,
                emphasize_green: value & 0x40 != 0,
                emphasize_blue: value & 0x80 != 0,
                ..*old(self)
            }),
    {
        self.latch = value;
        self.is_greyscale = value & 0x01 != 0;
        self.show_background_leftmost_8pix = value & 0x02 != 0;
        self.show_sprites_leftmost_8pix = value & 0x04 != 0;
        self.show_background = value & 0x08 != 0;
        self.show_sprites = value & 0x10 != 0;
        self.emphasize_red = value & 0x20 != 0;
        self.emphasize_green = value & 0x40 != 0;
        self.emphasize_blue = value & 0x80 != 0;
    }

    /// The status byte a PPUSTATUS read returns: overflow (bit 5), sprite-0
    /// hit (bit 6), VBlank (bit 7), open bus below.
    pub open spec fn status_spec(&self) -> u8 {
        ((self.latch & 0x1f) as int + (if self.is_sprite_overflow { 0x20int } else { 0 }) + (if self.is_sprite0_hit {
            0x40int
        } else {
            0
        }) + (if self.is_in_vblank { 0x80int } else { 0 })) as u8
    }

    /// Reads PPUSTATUS; clears VBlank and the write toggle.
    pub fn read_ppustatus(&mut self) -> (r: u8)
        requires
            old(self).wf(),
        ensures
            final(self).wf(),
            r == old(self).status_spec(),
            (r >= 0x80) == old(self).is_in_vblank,
            !final(self).is_in_vblank,
            !final(self).reg_w,
            final(self).reg_v == old(self).reg_v && final(self).reg_t == old(self).reg_t,
            final(self).current_scanline == old(self).current_scanline,
            final(self).current_cycle == old(self).current_cycle,
            final(self).generate_nmi_on_vblank == old(self).generate_nmi_on_vblank,
            final(self).show_background == old(self).show_background,
            final(self).show_sprites == old(self).show_sprites,
            final(self).is_cpu_interrupt_requested == old(self).is_cpu_interrupt_requested,
            final(self).oam_dma_page == old(self).oam_dma_page,
            final(self).oam_addr == old(self).oam_addr,
            final(self).oam_data == old(self).oam_data,
    {
        let l = self.latch;
        let low = l & 0x1f;
        assert(low < 0x20) by (bit_vector)
            requires
                low == l & 0x1f,
        ;
        let mut result: u8 = low;
        if self.is_sprite_overflow {
            result = result + 0x20;
        }
        if self.is_sprite0_hit {
            result = result + 0x40;
        }
        if self.is_in_vblank {
            result = result + 0x80;
        }
        self.is_in_vblank = false;
        self.reg_w = false;
        result
    }

    pub fn write_ppustatus(&mut self, value: u8)
        ensures
            *final(self) == (PPU { latch: value, ..*old(self) }),
    {
        self.latch = value;
    }

    pub fn read_oamaddr(&self) -> (r: u8)
        ensures
            r == self.latch,
    {
        self.latch
    }

    pub fn write_oamaddr(&mut self, value: u8)
        ensures
            *final(self) == (PPU { latch: value, oam_addr: value, ..*old(self) }),
    {
        self.latch = value;
        self.oam_addr = value;
    }

    /// OAMDATA read: 0xFF during the secondary-OAM clear (dots 1-64 of
    /// visible lines), else the byte at OAMADDR.
    pub fn read_oamdata(&self) -> (r: u8)
        requires
            self.wf(),
        ensures
            self.current_scanline < 240 && 1 <= self.current_cycle <= 64 ==> r == 0xff,
            !(self.current_scanline < 240 && 1 <= self.current_cycle <= 64) ==> r
                == self.oam_data@[self.oam_addr as int],
    {
        if self.current_scanline < 240 && 1 <= self.current_cycle && self.current_cycle <= 64 {
            0xff
        } else {
            self.oam_data[self.oam_addr as usize]
        }
    }

    /// OAMDATA write: stores at OAMADDR, which then increments.
    pub fn write_oamdata(&mut self, value: u8)
        requires
            old(self).wf(),
        ensures
            final(self).wf(),
            final(self).latch == value,
            final(self).oam_data@ == old(self).oam_data@.update(old(self).oam_addr as int, value),
            final(self).oam_addr == (old(self).oam_addr + 1) % 256,
            final(self).is_in_vblank == old(self).is_in_vblank,
            final(self).reg_v == old(self).reg_v,
            final(self).current_scanline == old(self).current_scanline,
            final(self).current_cycle == old(self).current_cycle,
    {
        self.latch = value;
        self.oam_data.set(self.oam_addr as usize, value);
        self.oam_addr = self.oam_addr.wrapping_add(1);
    }

    pub fn read_ppuscroll(&self) -> (r: u8)
        ensures
            r == self.latch,
    {
        self.latch
    }

    /// PPUSCROLL: first write coarse and fine X, second write coarse and fine Y.
    pub fn write_ppuscroll(&mut self, value: u8)
        requires
            old(self).wf(),
        ensures
            final(self).wf(),
            final(self).latch == value,
            final(self).reg_w == !old(self).reg_w,
            final(self).reg_v == old(self).reg_v,
            !old(self).reg_w ==> final(self).reg_t == t_after_scroll_x(old(self).reg_t, value)
                && final(self).reg_x == value & 0x07,
            old(self).reg_w ==> final(self).reg_t == t_after_scroll_y(old(self).reg_t, value)
                && final(self).reg_x == old(self).reg_x,
            final(self).is_in_vblank == old(self).is_in_vblank,
            final(self).show_background == old(self).show_background,
            final(self).current_scanline == old(self).current_scanline,
            final(self).current_cycle == old(self).current_cycle,
    {
        self.latch = value;
        if !self.reg_w {
            self.reg_t = (self.reg_t & !0x001fu16) | ((value as u16) >> 3u16);
            self.reg_x = value & 0x07;
        } else {
            self.reg_t = (self.reg_t & !0x73e0u16) | (((value as u16) & 0x07) << 12u16) | (((
            value as u16) >> 3u16) << 5u16);
        }
        self.reg_w = !self.reg_w;
    }

    pub fn read_ppuaddr(&self) -> (r: u8)
        ensures
            r == self.latch,
    {
        self.latch
    }

    /// PPUADDR: first write the high byte (6 bits) of `t`, second the low
    /// byte, then `v` takes `t`.
    pub fn write_ppuaddr(&mut self, value: u8)
        requires
            old(self).wf(),
        ensures
            final(self).wf(),
            final(self).latch == value,
            final(self).reg_w == !old(self).reg_w,
            final(self).reg_x == old(self).reg_x,
            !old(self).reg_w ==> final(self).reg_t == t_after_addr_hi(old(self).reg_t, value)
                && final(self).reg_v == old(self).reg_v,
            old(self).reg_w ==> final(self).reg_t == t_after_addr_lo(old(self).reg_t, value)
                && final(self).reg_v == final(self).reg_t,
            final(self).is_in_vblank == old(self).is_in_vblank,
            final(self).show_background == old(self).show_background,
            final(self).current_scanline == old(self).current_scanline,
            final(self).current_cycle == old(self).current_cycle,
    {
        self.latch = value;
        if !self.reg_w {
            self.reg_t = (self.reg_t & 0x00ff) | (((value as u16) & 0x3f) << 8u16);
        } else {
            self.reg_t = (self.reg_t & 0xff00) | (value as u16);
            self.reg_v = self.reg_t;
        }
        self.reg_w = !self.reg_w;
    }

    /// PPUDATA read: the buffered byte (palette reads skip the buffer, which
    /// is refilled from the nametable underneath), then `v += increment`.
    pub fn read_ppudata(&mut self, mem: &PpuMemoryMap) -> (r: u8)
        requires
            old(self).wf(),
            mem.wf(),
        ensures
            final(self).wf(),
            old(self).reg_v % 0x4000 < 0x3f00 ==> r == old(self).read_buffer && final(self).read_buffer
                == mem.peek(old(self).reg_v),
            old(self).reg_v % 0x4000 >= 0x3f00 ==> r == mem.peek(old(self).reg_v) && final(
                self).read_buffer == mem.peek((old(self).reg_v % 0x4000 - 0x1000) as u16),
            final(self).reg_v == (old(self).reg_v + old(self).vram_incr) % 0x8000,
            final(self).reg_t == old(self).reg_t && final(self).reg_w == old(self).reg_w,
            final(self).is_in_vblank == old(self).is_in_vblank,
            final(self).current_scanline == old(self).current_scanline,
            final(self).current_cycle == old(self).current_cycle,
            final(self).oam_dma_page == old(self).oam_dma_page,
            final(self).oam_addr == old(self).oam_addr,
            final(self).oam_data == old(self).oam_data,
    {
        let a = self.reg_v % 0x4000;
        let r = if a >= 0x3f00 {
            self.read_buffer = mem.read_u8(a - 0x1000);
            mem.read_u8(a)
        } else {
            let b = self.read_buffer;
            self.read_buffer = mem.read_u8(a);
            b
        };
        self.reg_v = ((self.reg_v as u32 + self.vram_incr as u32) % 0x8000) as u16;
        r
    }

    /// PPUDATA write: stores at `v`, then `v += increment`.
    pub fn write_ppudata(&mut self, mem: &mut PpuMemoryMap, value: u8)
        requires
            old(self).wf(),
            old(mem).wf(),
        ensures
            final(self).wf(),
            final(mem).wf(),
            final(self).latch == value,
            final(self).reg_v == (old(self).reg_v + old(self).vram_incr) % 0x8000,
            PpuMemoryMap::write_spec(*old(mem), *final(mem), old(self).reg_v, value),
            final(self).is_in_vblank == old(self).is_in_vblank,
            final(self).current_scanline == old(self).current_scanline,
            final(self).current_cycle == old(self).current_cycle,
    {
        self.latch = value;
        mem.write_u8(self.reg_v, value);
        self.reg_v = ((self.reg_v as u32 + self.vram_incr as u32) % 0x8000) as u16;
    }

    pub fn read_oamdma(&self) -> (r: u8)
        ensures
            r == self.latch,
    {
        self.latch
    }

    /// OAMDMA: asks for a copy of CPU page `value` into OAM.
    pub fn write_oamdma(&mut self, value: u8)
        ensures
            final(self).latch == value,
            final(self).oam_dma_page == Some(value),
            final(self).oam_data == old(self).oam_data,
            final(self).oam_addr == old(self).oam_addr,
            final(self).wf() == old(self).wf(),
            final(self).is_in_vblank == old(self).is_in_vblank,
    {
        self.latch = value;
        self.oam_dma_page = Some(value);
    }

    /// One byte of an OAM DMA: OAM[OAMADDR + index] = value.
    pub fn write_oamdata_raw(&mut self, index: u8, value: u8)
        requires
            old(self).wf(),
        ensures
            final(self).wf(),
            final(self).oam_data@ == old(self).oam_data@.update(
                (old(self).oam_addr + index) % 256,
                value,
            ),
            final(self).oam_addr == old(self).oam_addr,
            final(self).is_in_vblank == old(self).is_in_vblank,
            final(self).current_scanline == old(self).current_scanline,
            final(self).current_cycle == old(self).current_cycle,
            final(self).is_cpu_interrupt_requested == old(self).is_cpu_interrupt_requested,
            final(self).oam_dma_page == old(self).oam_dma_page,
            final(self).show_background == old(self).show_background,
    {
        self.oam_data.set(self.oam_addr.wrapping_add(index) as usize, value);
    }
}

/// Scroll composition: after a PPUCTRL write, two PPUSCROLL writes and two
/// PPUADDR writes (starting with the write toggle clear), `v` and `t` hold
/// the address written, `(hi & 0x3F) << 8 | lo`, fine X holds the low bits
/// of the horizontal scroll and the toggle is clear again.
pub proof fn lemma_scroll_then_address(t0: u16, ctrl: u8, sx: u8, sy: u8, hi: u8, lo: u8)
    ensures
        ({
            let t1 = t_after_ctrl(t0, ctrl);
            let t2 = t_after_scroll_x(t1, sx);
            let t3 = t_after_scroll_y(t2, sy);
            let t4 = t_after_addr_hi(t3, hi);
            let t5 = t_after_addr_lo(t4, lo);
            t5 == ((hi & 0x3f) as u16) * 256 + lo as u16
        }),
{
    let t1 = t_after_ctrl(t0, ctrl);
    let t2 = t_after_scroll_x(t1, sx);
    let t3 = t_after_scroll_y(t2, sy);
    let t4 = t_after_addr_hi(t3, hi);
    assert((((t4 & 0xff00) | (lo as u16)) == ((hi & 0x3f) as u16) * 256 + lo as u16)) by (bit_vector)
        requires
            t4 == (t3 & 0x00ff) | (((hi as u16) & 0x3f) << 8u16),
    ;
}

/// Coarse X + 1, switching the horizontal nametable on wrap from 31 to 0.
pub open spec fn coarse_x_inc(v: u16) -> u16 {
    if v & 0x001f == 0x001f {
        (v & !0x001fu16) ^ 0x0400
    } else {
        ((v + 1) % 0x10000) as u16
    }
}

/// The coarse Y that follows `y`: 29 wraps to 0 (the caller switches the
/// vertical nametable), 31 wraps to 0 without switching.
pub open spec fn coarse_y_next(y: u16) -> u16 {
    if y == 29 || y == 31 {
        0
    } else {
        ((y + 1) % 0x10000) as u16
    }
}

/// Fine Y + 1, carrying into coarse Y.
pub open spec fn fine_y_inc(v: u16) -> u16 {
    if v & 0x7000 != 0x7000 {
        ((v + 0x1000) % 0x10000) as u16
    } else {
        let w = v & !0x7000u16;
        let y = (w & 0x03e0) >> 5u16;
        let w2 = if y == 29 { w ^ 0x0800 } else { w };
        (w2 & !0x03e0u16) | ((coarse_y_next(y) & 0x1f) << 5u16)
    }
}

/// Copies the horizontal bits of `t` into `v`.
pub open spec fn copy_horizontal(v: u16, t: u16) -> u16 {
    (v & !0x041fu16) | (t & 0x041f)
}

/// Copies the vertical bits of `t` into `v`.
pub open spec fn copy_vertical(v: u16, t: u16) -> u16 {
    (v & !0x7be0u16) | (t & 0x7be0)
}

/// The scroll update a rendering dot makes to `v`.
pub open spec fn scroll_step(v: u16, t: u16, scanline: u16, dot: u16) -> u16 {
    if ((1 <= dot <= 248) || (321 <= dot <= 336)) && dot % 8 == 0 {
        coarse_x_inc(v)
    } else if dot == 256 {
        fine_y_inc(v)
    } else if dot == 257 {
        copy_horizontal(v, t)
    } else if scanline == 261 && 280 <= dot <= 304 {
        copy_vertical(v, t)
    } else {
        v
    }
}

/// Whether rendering touches the PPU on this line: visible and pre-render lines.
pub open spec fn is_render_line(scanline: u16) -> bool {
    scanline < 240 || scanline == 261
}

/// The fields a dot of the rendering pipeline never touches.
pub open spec fn same_control(a: PPU, b: PPU) -> bool {
    &&& a.current_scanline == b.current_scanline
    &&& a.current_cycle == b.current_cycle
    &&& a.is_odd_frame == b.is_odd_frame
    &&& a.is_in_vblank == b.is_in_vblank
    &&& a.is_cpu_interrupt_requested == b.is_cpu_interrupt_requested
    &&& a.generate_nmi_on_vblank == b.generate_nmi_on_vblank
    &&& a.show_background == b.show_background
    &&& a.show_sprites == b.show_sprites
    &&& a.oam_dma_page == b.oam_dma_page
    &&& a.reg_t == b.reg_t
    &&& a.reg_x == b.reg_x
    &&& a.reg_w == b.reg_w
    &&& a.oam_addr == b.oam_addr
    &&& a.oam_data == b.oam_data
}


pub open spec fn fed(r: ShiftRegister16, lo: u8) -> ShiftRegister16 {
    ShiftRegister16 { data: ((r.data / 256) * 256 + lo) as u16 }
}

/// Background pixel of the current dot: palette (2 bits) and pattern (2
/// bits), 0 when transparent or hidden.
pub open spec fn bg_pixel(p: PPU) -> u8 {
    let x = p.current_cycle - 1;
    let fine = (15 - p.reg_x % 8) as u16;
    if !p.show_background || (!p.show_background_leftmost_8pix && x < 8) {
        0
    } else {
        let b0 = (p.shreg_bg_tile_lo.data >> fine) % 2;
        let b1 = (p.shreg_bg_tile_hi.data >> fine) % 2;
        let p0 = (p.shreg_bg_attr_lo.data >> fine) % 2;
        let p1 = (p.shreg_bg_attr_hi.data >> fine) % 2;
        if b0 == 0 && b1 == 0 {
            0
        } else {
            (p1 * 8 + p0 * 4 + b1 * 2 + b0) as u8
        }
    }
}

/// A sprite slot's pixel now: 0x10 + palette and pattern bits, 0 when
/// transparent or not yet reached.
pub open spec fn slot_pixel(s: EvaluatedSprite) -> u8 {
    if s.is_valid && s.x == 0 {
        let b0: u8 = if s.tile_lo.data >= 0x80 { 1 } else { 0 };
        let b1: u8 = if s.tile_hi.data >= 0x80 { 1 } else { 0 };
        if b0 == 0 && b1 == 0 {
            0
        } else {
            (0x10 + (s.attributes % 4) * 4 + b1 * 2 + b0) as u8
        }
    } else {
        0
    }
}

/// The first opaque slot from `k` on: its pixel and its behind-background bit.
pub open spec fn sprite_from(slots: Seq<EvaluatedSprite>, k: int) -> (u8, bool)
    decreases 8 - k,
{
    if k >= 8 || k < 0 {
        (0, false)
    } else if slot_pixel(slots[k]) != 0 {
        (slot_pixel(slots[k]), slots[k].attributes & 0x20 != 0)
    } else {
        sprite_from(slots, k + 1)
    }
}

pub open spec fn sprites_shown(p: PPU) -> bool {
    p.show_sprites && !(!p.show_sprites_leftmost_8pix && p.current_cycle - 1 < 8)
}

pub open spec fn sprite_pixel(p: PPU) -> (u8, bool) {
    if sprites_shown(p) {
        sprite_from(p.oam_evaluated@, 0)
    } else {
        (0, false)
    }
}

/// Priority: backdrop when both are transparent, else the opaque one, else
/// the sprite unless it is behind the background.
pub open spec fn mux(bg: u8, spr: u8, behind: bool) -> u8 {
    if bg == 0 && spr == 0 {
        0
    } else if bg == 0 {
        spr
    } else if spr == 0 {
        bg
    } else if behind {
        bg
    } else {
        spr
    }
}

/// The palette entry written to the framebuffer for the current dot,
/// masked to 0x30 in greyscale.
pub open spec fn pixel_spec(p: PPU, mem: PpuMemoryMap) -> u8 {
    let (spr, behind) = sprite_pixel(p);
    mem.peek((0x3f00 + mux(bg_pixel(p), spr, behind)) as u16) & if p.is_greyscale {
        0x30u8
    } else {
        0x3fu8
    }
}

/// Sprite 0 is opaque at this dot.
pub open spec fn sprite0_opaque(slots: Seq<EvaluatedSprite>) -> bool {
    exists|k: int| 0 <= k < 8 && #[trigger] slots[k].is_zero_sprite && slot_pixel(slots[k]) != 0
}

/// Whether this dot sets the sprite-0 hit flag.
pub open spec fn sprite0_hit(p: PPU) -> bool {
    sprites_shown(p) && sprite0_opaque(p.oam_evaluated@) && bg_pixel(p) != 0 && p.current_cycle - 1
        != 255
}

fn fed_register(r: ShiftRegister16, lo: u8) -> (o: ShiftRegister16)
    ensures
        o == fed(r, lo),
{
    let mut o = r;
    o.feed(lo);
    o
}

fn coarse_x_increment(v: u16) -> (r: u16)
    ensures
        r == coarse_x_inc(v),
{
    if v & 0x001f == 0x001f {
        (v & !0x001fu16) ^ 0x0400
    } else {
        v.wrapping_add(1)
    }
}

fn fine_y_increment(v: u16) -> (r: u16)
    ensures
        r == fine_y_inc(v),
{
    if v & 0x7000 != 0x7000 {
        v.wrapping_add(0x1000)
    } else {
        let w = v & !0x7000u16;
        let y = (w & 0x03e0) >> 5u16;
        let w2 = if y == 29 { w ^ 0x0800 } else { w };
        let ny: u16 = if y == 29 || y == 31 { 0 } else { y.wrapping_add(1) };
        (w2 & !0x03e0u16) | ((ny & 0x1f) << 5u16)
    }
}

/// The scroll increments and copies of a rendering dot.
fn scroll_step_exec(v: u16, t: u16, scanline: u16, c: u16) -> (r: u16)
    ensures
        r == scroll_step(v, t, scanline, c),
{
    if ((c >= 1 && c <= 248) || (c >= 321 && c <= 336)) && c % 8 == 0 {
        coarse_x_increment(v)
    } else if c == 256 {
        fine_y_increment(v)
    } else if c == 257 {
        (v & !0x041fu16) | (t & 0x041f)
    } else if scanline == 261 && c >= 280 && c <= 304 {
        (v & !0x7be0u16) | (t & 0x7be0)
    } else {
        v
    }
}

/// The eight bits of a byte in reverse order (horizontal sprite flip).
fn reverse_bits(b: u8) -> u8 {
    let mut r: u8 = 0;
    let mut i: u8 = 0;
    let mut x = b;
    while i < 8
        invariant
            i <= 8,
        decreases 8 - i,
    {
        r = (r << 1u8) | (x & 1);
        x = x >> 1u8;
        i = i + 1;
    }
    r
}

impl PPU {
    /// Background fetches, shift-register reloads and scroll increments of
    /// one dot of a rendering line.
    fn background_dot(&mut self, mem: &PpuMemoryMap)
        requires
            old(self).wf(),
            mem.wf(),
        ensures
            final(self).wf(),
            same_control(*old(self), *final(self)),
            final(self).is_sprite0_hit == old(self).is_sprite0_hit,
            final(self).reg_v == scroll_step(
                old(self).reg_v,
                old(self).reg_t,
                old(self).current_scanline,
                old(self).current_cycle,
            ),
            final(self).frame_buffer == old(self).frame_buffer,
    {
        let c = self.current_cycle;
        let (idx, attr, lo, hi) = self.fetch_tile_bytes(mem);
        self.current_tile_idx = idx;
        self.current_tile_attr = attr;
        self.current_tile_pattern_lo = lo;
        self.current_tile_pattern_hi = hi;
        self.reg_v = scroll_step_exec(self.reg_v, self.reg_t, self.current_scanline, c);
    }

    /// The tile latches after this dot's fetch: nametable byte on dots
    /// 8n+2, attribute on 8n+4, low and high pattern bytes on 8n+6 and 8n+8.
    fn fetch_tile_bytes(&self, mem: &PpuMemoryMap) -> (r: (u8, u8, u8, u8))
        requires
            self.wf(),
            mem.wf(),
    {
        let c = self.current_cycle;
        let v = self.reg_v;
        let mut idx = self.current_tile_idx;
        let mut attr = self.current_tile_attr;
        let mut lo = self.current_tile_pattern_lo;
        let mut hi = self.current_tile_pattern_hi;
        if (c >= 1 && c <= 256) || (c >= 321 && c <= 336) {
            let phase = c % 8;
            if phase == 2 {
                idx = mem.read_u8(0x2000 | (v & 0x0fff));
            } else if phase == 4 {
                let attr_addr = 0x23c0 | (v & 0x0c00) | ((v >> 4u16) & 0x38) | ((v >> 2u16) & 0x07);
                let a = mem.read_u8(attr_addr);
                let shift: u8 = ((v / 64) % 2 * 4 + (v / 2) % 2 * 2) as u8;
                attr = (a >> shift) % 4;
            } else if phase == 6 {
                let addr = self.background_pattern_table_addr + self.current_tile_idx as u16 * 16 + (v
                    / 4096) % 8;
                lo = mem.read_u8(addr);
            } else if phase == 0 {
                let addr = self.background_pattern_table_addr + self.current_tile_idx as u16 * 16 + (v
                    / 4096) % 8 + 8;
                hi = mem.read_u8(addr);
            }
        }
        (idx, attr, lo, hi)
    }

    /// Loads the latched tile into the low halves of the background shift registers.
    fn reload_background(&mut self)
        requires
            old(self).wf(),
        ensures
            final(self).wf(),
            same_control(*old(self), *final(self)),
            final(self).reg_v == old(self).reg_v,
            final(self).frame_buffer == old(self).frame_buffer,
    {
        let a = self.current_tile_attr;
        let tile_lo = fed_register(self.shreg_bg_tile_lo, self.current_tile_pattern_lo);
        let tile_hi = fed_register(self.shreg_bg_tile_hi, self.current_tile_pattern_hi);
        let attr_lo = fed_register(self.shreg_bg_attr_lo, if a & 1 != 0 { 0xff } else { 0x00 });
        let attr_hi = fed_register(self.shreg_bg_attr_hi, if a & 2 != 0 { 0xff } else { 0x00 });
        self.shreg_bg_tile_lo = tile_lo;
        self.shreg_bg_tile_hi = tile_hi;
        self.shreg_bg_attr_lo = attr_lo;
        self.shreg_bg_attr_hi = attr_hi;
    }

    fn shift_background(&mut self)
        requires
            old(self).wf(),
        ensures
            final(self).wf(),
            same_control(*old(self), *final(self)),
            final(self).is_sprite0_hit == old(self).is_sprite0_hit,
            final(self).reg_v == old(self).reg_v,
            final(self).frame_buffer == old(self).frame_buffer,
    {
        self.shreg_bg_tile_lo.shift();
        self.shreg_bg_tile_hi.shift();
        self.shreg_bg_attr_lo.shift();
        self.shreg_bg_attr_hi.shift();
    }

    /// Finds the first eight sprites covering the current line for the
    /// next one; a ninth sets the overflow flag.
    fn evaluate_sprites(&mut self)
        requires
            old(self).wf(),
        ensures
            final(self).wf(),
            same_control(*old(self), *final(self)),
            final(self).is_sprite0_hit == old(self).is_sprite0_hit,
            final(self).reg_v == old(self).reg_v,
            final(self).frame_buffer == old(self).frame_buffer,
    {
        let height: u16 = if self.sprite_size == SpriteSize::_8x16 { 16 } else { 8 };
        let line = self.current_scanline;
        let mut found: usize = 0;
        let mut i: usize = 0;
        while i < 64
            invariant
                self.wf(),
                same_control(*old(self), *self),
                self.is_sprite0_hit == old(self).is_sprite0_hit,
                self.reg_v == old(self).reg_v,
                self.frame_buffer == old(self).frame_buffer,
                found <= 8,
                i <= 64,
                height <= 16,
                line == self.current_scanline,
            decreases 64 - i,
        {
            let y = self.oam_data[i * 4];
            if line >= y as u16 && line < y as u16 + height {
                if found == 8 {
                    self.is_sprite_overflow = true;
                    break;
                }
                let s = EvaluatedSprite {
                    is_valid: true,
                    is_zero_sprite: i == 0,
                    x: self.oam_data[i * 4 + 3],
                    y,
                    tile_index: self.oam_data[i * 4 + 1],
                    attributes: self.oam_data[i * 4 + 2],
                    tile_lo: ShiftRegister8::new(),
                    tile_hi: ShiftRegister8::new(),
                };
                self.oam_secondary.set(found, s);
                found = found + 1;
            }
            i = i + 1;
        }
    }

    /// Fetches the patterns of the sprites found and makes them the slots
    /// drawn on the next line.
    fn fetch_sprites(&mut self, mem: &PpuMemoryMap)
        requires
            old(self).wf(),
            mem.wf(),
        ensures
            final(self).wf(),
            same_control(*old(self), *final(self)),
            final(self).is_sprite0_hit == old(self).is_sprite0_hit,
            final(self).reg_v == old(self).reg_v,
            final(self).frame_buffer == old(self).frame_buffer,
    {
        let line = self.current_scanline;
        let tall = self.sprite_size == SpriteSize::_8x16;
        let height: u16 = if tall { 16 } else { 8 };
        let mut k: usize = 0;
        while k < 8
            invariant
                self.wf(),
                mem.wf(),
                same_control(*old(self), *self),
                self.is_sprite0_hit == old(self).is_sprite0_hit,
                self.reg_v == old(self).reg_v,
                self.frame_buffer == old(self).frame_buffer,
                k <= 8,
                height <= 16,
                tall == (height == 16),
                line == self.current_scanline,
            decreases 8 - k,
        {
            let mut s = self.oam_secondary[k];
            if s.is_valid && line >= s.y as u16 && line < s.y as u16 + height {
                let mut row = line - s.y as u16;
                if s.attributes & 0x80 != 0 {
                    row = height - 1 - row;
                }
                let addr: u16 = if tall {
                    let table: u16 = if s.tile_index & 1 != 0 { 0x1000 } else { 0 };
                    let tile = (s.tile_index & 0xfe) as u16 + if row >= 8 { 1 } else { 0 };
                    table + tile * 16 + row % 8
                } else {
                    self.sprite_pattern_table_addr + s.tile_index as u16 * 16 + row
                };
                let mut lo = mem.read_u8(addr);
                let mut hi = mem.read_u8(addr + 8);
                if s.attributes & 0x40 != 0 {
                    lo = reverse_bits(lo);
                    hi = reverse_bits(hi);
                }
                s.tile_lo.load(lo);
                s.tile_hi.load(hi);
            } else {
                s.is_valid = false;
            }
            self.oam_evaluated.set(k, s);
            self.oam_secondary.set(k, EvaluatedSprite::new());
            k = k + 1;
        }
    }

    fn background_pixel(&self) -> (r: u8)
        requires
            self.wf(),
            1 <= self.current_cycle <= 256,
        ensures
            r == bg_pixel(*self),
            r < 16,
    {
        let x = self.current_cycle - 1;
        let fine = 15 - (self.reg_x % 8) as u16;
        if !self.show_background || (!self.show_background_leftmost_8pix && x < 8) {
            0u8
        } else {
            let b0 = ((self.shreg_bg_tile_lo.data >> fine) % 2) as u8;
            let b1 = ((self.shreg_bg_tile_hi.data >> fine) % 2) as u8;
            let p0 = ((self.shreg_bg_attr_lo.data >> fine) % 2) as u8;
            let p1 = ((self.shreg_bg_attr_hi.data >> fine) % 2) as u8;
            if b0 == 0 && b1 == 0 {
                0
            } else {
                (p1 * 8 + p0 * 4 + b1 * 2 + b0) as u8
            }
        }
    }

    /// The first opaque sprite slot (pixel, behind bit) and whether sprite 0
    /// is opaque at this dot.
    fn sprite_scan(&self) -> (r: (u8, bool, bool))
        requires
            self.wf(),
        ensures
            (r.0, r.1) == sprite_from(self.oam_evaluated@, 0),
            r.2 == sprite0_opaque(self.oam_evaluated@),
            r.0 < 32,
    {
        let mut spr: u8 = 0;
        let mut behind = false;
        let mut sprite0 = false;
        let mut k: usize = 0;
        while k < 8
            invariant
                self.wf(),
                k <= 8,
                spr < 32,
                sprite_from(self.oam_evaluated@, 0) == if spr != 0 {
                    (spr, behind)
                } else {
                    sprite_from(self.oam_evaluated@, k as int)
                },
                spr == 0 ==> !behind,
                sprite0 == exists|j: int| 0 <= j < k && #[trigger] self.oam_evaluated@[j].is_zero_sprite
                    && slot_pixel(self.oam_evaluated@[j]) != 0,
            decreases 8 - k,
        {
            let s = self.oam_evaluated[k];
            let mut px: u8 = 0;
            if s.is_valid && s.x == 0 {
                let b0: u8 = if s.tile_lo.get_u1() { 1 } else { 0 };
                let b1: u8 = if s.tile_hi.get_u1() { 1 } else { 0 };
                if b0 != 0 || b1 != 0 {
                    px = 0x10 + (s.attributes % 4) * 4 + b1 * 2 + b0;
                }
            }
            assert(px == slot_pixel(self.oam_evaluated@[k as int]));
            if px != 0 {
                if s.is_zero_sprite {
                    sprite0 = true;
                }
                if spr == 0 {
                    spr = px;
                    behind = s.attributes & 0x20 != 0;
                }
            }
            k = k + 1;
        }
        (spr, behind, sprite0)
    }

    /// Draws the pixel of the current dot (dots 1-256 of lines 0-239).
    #[verifier::spinoff_prover]
    #[verifier::rlimit(100)]
    fn render_pixel(&mut self, mem: &PpuMemoryMap)
        requires
            old(self).wf(),
            mem.wf(),
            old(self).current_scanline < 240,
            1 <= old(self).current_cycle <= 256,
        ensures
            final(self).wf(),
            same_control(*old(self), *final(self)),
            final(self).reg_v == old(self).reg_v,
            final(self).frame_buffer@ == old(self).frame_buffer@.update(
                old(self).current_scanline * 256 + old(self).current_cycle - 1,
                pixel_spec(*old(self), *mem),
            ),
            final(self).is_sprite0_hit == (old(self).is_sprite0_hit || sprite0_hit(*old(self))),
    {
        let x = self.current_cycle - 1;
        let y = self.current_scanline;
        let bg = self.background_pixel();
        let shown = self.show_sprites && !(!self.show_sprites_leftmost_8pix && x < 8);
        let (spr, behind, sprite0) = if shown {
            self.sprite_scan()
        } else {
            (0u8, false, false)
        };
        if shown && sprite0 && bg != 0 && x != 255 {
            self.is_sprite0_hit = true;
        }
        let idx = if bg == 0 && spr == 0 {
            0
        } else if bg == 0 {
            spr
        } else if spr == 0 {
            bg
        } else if behind {
            bg
        } else {
            spr
        };
        let color = mem.read_u8(0x3f00 + idx as u16) & if self.is_greyscale { 0x30 } else { 0x3f };
        self.frame_buffer.set((y * 256 + x) as usize, color);
    }

    /// Moves the sprite slots one dot on: X counters count down, active
    /// sprites shift out a pixel.
    fn advance_sprites(&mut self)
        requires
            old(self).wf(),
        ensures
            final(self).wf(),
            same_control(*old(self), *final(self)),
            final(self).is_sprite0_hit == old(self).is_sprite0_hit,
            final(self).reg_v == old(self).reg_v,
            final(self).frame_buffer == old(self).frame_buffer,
    {
        let mut k: usize = 0;
        while k < 8
            invariant
                self.wf(),
                same_control(*old(self), *self),
                self.is_sprite0_hit == old(self).is_sprite0_hit,
                self.reg_v == old(self).reg_v,
                self.frame_buffer == old(self).frame_buffer,
                k <= 8,
            decreases 8 - k,
        {
            let mut s = self.oam_evaluated[k];
            if s.is_valid {
                if s.x > 0 {
                    s.x = s.x - 1;
                } else {
                    s.tile_lo.shift();
                    s.tile_hi.shift();
                }
                self.oam_evaluated.set(k, s);
            }
            k = k + 1;
        }
    }

    /// The rendering work of one dot.
    #[verifier::spinoff_prover]
    fn render_dot(&mut self, mem: &PpuMemoryMap)
        requires
            old(self).wf(),
            mem.wf(),
        ensures
            final(self).wf(),
            same_control(*old(self), *final(self)),
            (old(self).show_background || old(self).show_sprites) && is_render_line(
                old(self).current_scanline,
            ) ==> final(self).reg_v == scroll_step(
                old(self).reg_v,
                old(self).reg_t,
                old(self).current_scanline,
                old(self).current_cycle,
            ),
            !((old(self).show_background || old(self).show_sprites) && is_render_line(
                old(self).current_scanline,
            )) ==> final(self).reg_v == old(self).reg_v,
    {
        let c = self.current_cycle;
        let line = self.current_scanline;
        let rendering = self.show_background || self.show_sprites;
        if rendering && (line < 240 || line == 261) && c % 8 == 1 && ((c >= 9 && c <= 257) || c
            == 329 || c == 337) {
            self.reload_background();
        }
        if line < 240 && c >= 1 && c <= 256 {
            self.render_pixel(mem);
        }
        if rendering && (line < 240 || line == 261) {
            if (c >= 1 && c <= 256) || (c >= 321 && c <= 336) {
                self.shift_background();
            }
            if line < 240 && c >= 1 && c <= 256 {
                self.advance_sprites();
            }
            if line != 261 && c == 65 {
                self.evaluate_sprites();
            }
            if c == 257 {
                self.fetch_sprites(mem);
            }
            self.background_dot(mem);
        }
    }

    /// VBlank starts at line 241 dot 1 (raising NMI when enabled) and ends
    /// at line 261 dot 1 with the sprite flags.
    #[verifier::spinoff_prover]
    #[verifier::rlimit(100)]
    fn vblank_edge(&mut self)
        requires
            old(self).wf(),
        ensures
            final(self).wf(),
            final(self).current_scanline == old(self).current_scanline,
            final(self).current_cycle == old(self).current_cycle,
            final(self).is_odd_frame == old(self).is_odd_frame,
            old(self).current_scanline == 241 && old(self).current_cycle == 1 ==> final(self).is_in_vblank,
            old(self).current_scanline == 261 && old(self).current_cycle == 1 ==> {
                &&& !final(self).is_in_vblank
                &&& !final(self).is_sprite0_hit
                &&& !final(self).is_sprite_overflow
            },
            !(old(self).current_scanline == 241 && old(self).current_cycle == 1)
                && !(old(self).current_scanline == 261 && old(self).current_cycle == 1)
                ==> final(self).is_in_vblank == old(self).is_in_vblank,
            final(self).is_cpu_interrupt_requested == (old(self).is_cpu_interrupt_requested || (old(self).current_scanline == 241 && old(self).current_cycle == 1
                && old(self).generate_nmi_on_vblank)),
            final(self).generate_nmi_on_vblank == old(self).generate_nmi_on_vblank,
            final(self).show_background == old(self).show_background,
            final(self).show_sprites == old(self).show_sprites,
            final(self).oam_dma_page == old(self).oam_dma_page,
            final(self).reg_t == old(self).reg_t,
            final(self).reg_x == old(self).reg_x,
            final(self).reg_w == old(self).reg_w,
            final(self).reg_v == old(self).reg_v,
    {
        if self.current_scanline == 241 && self.current_cycle == 1 {
            self.is_in_vblank = true;
            if self.generate_nmi_on_vblank {
                self.is_cpu_interrupt_requested = true;
            }
        } else if self.current_scanline == 261 && self.current_cycle == 1 {
            self.is_in_vblank = false;
            self.is_sprite0_hit = false;
            self.is_sprite_overflow = false;
        }
    }

    fn advance_position(&mut self)
        requires
            old(self).wf(),
        ensures
            final(self).wf(),
            (final(self).current_scanline, final(self).current_cycle) == next_position(
                old(self).current_scanline,
                old(self).current_cycle,
                old(self).is_odd_frame,
                old(self).show_background,
            ),
            final(self).is_odd_frame == if final(self).current_scanline == 0
                && final(self).current_cycle == 0 {
                !old(self).is_odd_frame
            } else {
                old(self).is_odd_frame
            },
            final(self).is_in_vblank == old(self).is_in_vblank,
            final(self).is_sprite0_hit == old(self).is_sprite0_hit,
            final(self).is_sprite_overflow == old(self).is_sprite_overflow,
            final(self).is_cpu_interrupt_requested == old(self).is_cpu_interrupt_requested,
            final(self).generate_nmi_on_vblank == old(self).generate_nmi_on_vblank,
            final(self).show_background == old(self).show_background,
            final(self).show_sprites == old(self).show_sprites,
            final(self).oam_dma_page == old(self).oam_dma_page,
            final(self).reg_t == old(self).reg_t,
            final(self).reg_x == old(self).reg_x,
            final(self).reg_w == old(self).reg_w,
            final(self).reg_v == old(self).reg_v,
            final(self).frame_buffer == old(self).frame_buffer,
    {
        if self.current_scanline == 261 && (self.current_cycle == 340 || (self.current_cycle == 339
            && self.is_odd_frame && self.show_background)) {
            self.current_scanline = 0;
            self.current_cycle = 0;
            self.is_odd_frame = !self.is_odd_frame;
        } else if self.current_cycle == 340 {
            self.current_scanline = self.current_scanline + 1;
            self.current_cycle = 0;
        } else {
            self.current_cycle = self.current_cycle + 1;
        }
    }

    /// Advances the PPU by one dot.
    #[verifier::spinoff_prover]
    pub fn run_one(&mut self, mem: &PpuMemoryMap)
        requires
            old(self).wf(),
            mem.wf(),
        ensures
            final(self).wf(),
            (final(self).current_scanline, final(self).current_cycle) == next_position(
                old(self).current_scanline,
                old(self).current_cycle,
                old(self).is_odd_frame,
                old(self).show_background,
            ),
            final(self).is_odd_frame == if final(self).current_scanline == 0
                && final(self).current_cycle == 0 {
                !old(self).is_odd_frame
            } else {
                old(self).is_odd_frame
            },
            old(self).current_scanline == 241 && old(self).current_cycle == 1 ==> final(self).is_in_vblank,
            old(self).current_scanline == 261 && old(self).current_cycle == 1 ==> {
                &&& !final(self).is_in_vblank
                &&& !final(self).is_sprite0_hit
                &&& !final(self).is_sprite_overflow
            },
            !(old(self).current_scanline == 241 && old(self).current_cycle == 1)
                && !(old(self).current_scanline == 261 && old(self).current_cycle == 1)
                ==> final(self).is_in_vblank == old(self).is_in_vblank,
            final(self).is_cpu_interrupt_requested == (old(self).is_cpu_interrupt_requested || (old(
                self,
            ).current_scanline == 241 && old(self).current_cycle == 1
                && old(self).generate_nmi_on_vblank)),
            final(self).generate_nmi_on_vblank == old(self).generate_nmi_on_vblank,
            final(self).show_background == old(self).show_background,
            final(self).show_sprites == old(self).show_sprites,
            final(self).oam_dma_page == old(self).oam_dma_page,
            final(self).reg_t == old(self).reg_t,
            final(self).reg_x == old(self).reg_x,
            final(self).reg_w == old(self).reg_w,
            (old(self).show_background || old(self).show_sprites) && is_render_line(
                old(self).current_scanline,
            ) ==> final(self).reg_v == scroll_step(
                old(self).reg_v,
                old(self).reg_t,
                old(self).current_scanline,
                old(self).current_cycle,
            ),
            !((old(self).show_background || old(self).show_sprites) && is_render_line(
                old(self).current_scanline,
            )) ==> final(self).reg_v == old(self).reg_v,
    {
        self.render_dot(mem);
        self.vblank_edge();
        self.advance_position();
    }
}

} // verus!
