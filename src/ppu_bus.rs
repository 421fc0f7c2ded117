use vstd::prelude::*;
use crate::rom::Mirroring;

verus! {

/// The PPU's 14-bit bus: CHR at $0000-$1FFF, nametables at $2000-$2FFF
/// (mirrored at $3000-$3EFF) and the 32-byte palette at $3F00-$3FFF.
pub struct PpuMemoryMap {
    pub vram: Vec<u8>,
    pub palette: Vec<u8>,
    pub chr: Vec<u8>,
    pub chr_is_ram: bool,
    pub mirroring: Mirroring,
}

pub const VRAM_SIZE: usize = 0x1000;

pub const CHR_SIZE: usize = 0x2000;

/// VRAM offset of nametable address `a` ($2000-$3EFF): the four logical
/// 1 KiB tables fold onto two physical ones (all four with four-screen).
pub open spec fn nametable_index(m: Mirroring, a: int) -> int {
    let rel = (a - 0x2000) % 0x1000;
    let table = rel / 0x400;
    let off = rel % 0x400;
    match m {
        Mirroring::Horizontal => (table / 2) * 0x400 + off,
        Mirroring::Vertical => (table % 2) * 0x400 + off,
        Mirroring::FourScreen => rel,
    }
}

/// Palette RAM slot of $3Fxx: $3F10/$3F14/$3F18/$3F1C alias $3F00/$3F04/$3F08/$3F0C.
pub open spec fn palette_index(a: int) -> int {
    let p = a % 32;
    if p >= 16 && p % 4 == 0 {
        p - 16
    } else {
        p
    }
}

impl PpuMemoryMap {
    pub open spec fn wf(&self) -> bool {
        &&& self.vram.len() == VRAM_SIZE
        &&& self.palette.len() == 32
        &&& self.chr.len() == CHR_SIZE
    }

    /// What a read of `addr` returns.
    pub open spec fn peek(&self, addr: u16) -> u8 {
        let a = addr as int % 0x4000;
        if a < 0x2000 {
            self.chr@[a]
        } else if a < 0x3f00 {
            self.vram@[nametable_index(self.mirroring, a)]
        } else {
            self.palette@[palette_index(a)]
        }
    }

    /// CHR-ROM bank 0, or 8 KiB of CHR-RAM when the cartridge has no CHR banks.
    pub fn new(mirroring: Mirroring, chr_rom: Vec<Vec<u8>>) -> (r: Self)
        ensures
            r.wf(),
            r.mirroring == mirroring,
            chr_rom.len() > 0 && chr_rom[0].len() == CHR_SIZE ==> r.chr@ == chr_rom[0]@ && !r.chr_is_ram,
            chr_rom.len() == 0 ==> r.chr_is_ram,
    {
        let (chr, chr_is_ram) = if chr_rom.len() > 0 && chr_rom[0].len() == CHR_SIZE {
            (chr_rom[0].clone(), false)
        } else {
            (vec![0u8; CHR_SIZE], chr_rom.len() == 0)
        };
        PpuMemoryMap { vram: vec![0u8; VRAM_SIZE], palette: vec![0u8; 32], chr, chr_is_ram, mirroring }
    }

    fn nametable_offset(&self, a: u16) -> (r: usize)
        requires
            0x2000 <= a < 0x3f00,
        ensures
            r == nametable_index(self.mirroring, a as int),
            r < VRAM_SIZE,
    {
        let rel = (a - 0x2000) % 0x1000;
        let table = rel / 0x400;
        let off = rel % 0x400;
        let idx = match self.mirroring {
            Mirroring::Horizontal => (table / 2) * 0x400 + off,
            Mirroring::Vertical => (table % 2) * 0x400 + off,
            Mirroring::FourScreen => rel,
        };
        idx as usize
    }

    fn palette_offset(a: u16) -> (r: usize)
        ensures
            r == palette_index(a as int),
            r < 32,
    {
        let p = a % 32;
        if p >= 16 && p % 4 == 0 {
            (p - 16) as usize
        } else {
            p as usize
        }
    }

    pub fn read_u8(&self, addr: u16) -> (r: u8)
        requires
            self.wf(),
        ensures
            r == self.peek(addr),
    {
        let a = addr % 0x4000;
        if a < 0x2000 {
            self.chr[a as usize]
        } else if a < 0x3f00 {
            self.vram[self.nametable_offset(a)]
        } else {
            self.palette[Self::palette_offset(a)]
        }
    }

    /// The bus after writing `value` at `addr`: the cell it maps to changes
    /// (CHR only when it is RAM), nothing else does.
    pub open spec fn write_spec(o: PpuMemoryMap, n: PpuMemoryMap, addr: u16, value: u8) -> bool {
        let a = addr as int % 0x4000;
        &&& n.wf()
        &&& n.mirroring == o.mirroring
        &&& n.chr_is_ram == o.chr_is_ram
        &&& if a < 0x2000 {
            &&& n.chr@ == if o.chr_is_ram {
                o.chr@.update(a, value)
            } else {
                o.chr@
            }
            &&& n.vram@ == o.vram@
            &&& n.palette@ == o.palette@
        } else if a < 0x3f00 {
            &&& n.vram@ == o.vram@.update(nametable_index(o.mirroring, a), value)
            &&& n.chr@ == o.chr@
            &&& n.palette@ == o.palette@
        } else {
            &&& n.palette@ == o.palette@.update(palette_index(a), value)
            &&& n.chr@ == o.chr@
            &&& n.vram@ == o.vram@
        }
    }

    /// Writes the cell that `addr` maps to; CHR-ROM is not writable.
    pub fn write_u8(&mut self, addr: u16, value: u8)
        requires
            old(self).wf(),
        ensures
            Self::write_spec(*old(self), *final(self), addr, value),
    {
        let a = addr % 0x4000;
        if a < 0x2000 {
            if self.chr_is_ram {
                self.chr.set(a as usize, value);
            }
        } else if a < 0x3f00 {
            let i = self.nametable_offset(a);
            self.vram.set(i, value);
        } else {
            self.palette.set(Self::palette_offset(a), value);
        }
    }
}

} // verus!
