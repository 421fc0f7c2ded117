use vstd::prelude::*;

verus! {

/// How the four logical nametables map onto the console's VRAM.
#[derive(Debug, Clone, Copy, PartialEq, Eq, Structural)]
pub enum Mirroring {
    Horizontal,
    Vertical,
    FourScreen,
}

#[allow(non_camel_case_types)]
#[derive(Debug, Clone, Copy, PartialEq, Eq, Structural)]
pub enum TVSystem {
    NTSC,
    PAL,
    DualCompatible,
}

/// Why an image was refused.
#[derive(Debug, Clone, Copy, PartialEq, Eq, Structural)]
pub enum RomError {
    /// Shorter than the 16-byte header.
    TooShort,
    /// The first four bytes are not "NES\x1A".
    BadMagic,
    /// An iNES 2.0 header.
    UnsupportedFormat,
    /// Bytes 12-15 of an iNES 1 header are not zero.
    BadHeaderPadding,
    /// A mapper other than NROM (0).
    UnsupportedMapper(u8),
    /// Fewer bytes than the header's trainer and banks need.
    Truncated,
    /// More bytes than the header's trainer and banks account for.
    TrailingData,
}

#[derive(Debug)]
pub struct NESHeader {
    pub is_nes2_format: bool,
    pub tv_system: TVSystem,
    pub prg_rom_banks: u8,
    pub chr_rom_banks: u8,
    pub prg_ram_banks: u8,
    pub is_vs_unisystem: bool,
    pub is_playchoice_10: bool,
    pub mapper: u8,
    pub mirroring: Mirroring,
    pub has_persistent_memory: bool,
    pub has_trainer: bool,
}

pub struct NESFile {
    pub header: NESHeader,
    pub prg_rom: Vec<Vec<u8>>,
    pub chr_rom: Vec<Vec<u8>>,
}

pub const HEADER_SIZE: usize = 16;

pub const TRAINER_SIZE: usize = 512;

pub const PRG_ROM_BANK_SIZE: usize = 0x4000;

pub const CHR_ROM_BANK_SIZE: usize = 0x2000;

/// Whether the bit of weight `weight` (1, 2, 4, ...) is set in `b`.
pub open spec fn bit(b: u8, weight: u8) -> bool {
    (b / weight) % 2 == 1
}

pub open spec fn has_magic(d: Seq<u8>) -> bool {
    d[0] == 0x4e && d[1] == 0x45 && d[2] == 0x53 && d[3] == 0x1a
}

/// Mapper number: high nibble of byte 7 over high nibble of byte 6.
pub open spec fn mapper_of(d: Seq<u8>) -> u8 {
    ((d[7] / 16) * 16 + d[6] / 16) as u8
}

/// Bytes the image needs: header, trainer, PRG and CHR banks.
pub open spec fn needed_len(d: Seq<u8>) -> int {
    HEADER_SIZE + (if bit(d[6], 4) { TRAINER_SIZE as int } else { 0 }) + d[4] * PRG_ROM_BANK_SIZE
        + d[5] * CHR_ROM_BANK_SIZE
}

/// The outcome of loading `d`: which error, if any.
pub open spec fn load_error(d: Seq<u8>) -> Option<RomError> {
    if d.len() < HEADER_SIZE {
        Some(RomError::TooShort)
    } else if !has_magic(d) {
        Some(RomError::BadMagic)
    } else if (d[7] / 4) % 4 == 2 {
        Some(RomError::UnsupportedFormat)
    } else if d[12] != 0 || d[13] != 0 || d[14] != 0 || d[15] != 0 {
        Some(RomError::BadHeaderPadding)
    } else if mapper_of(d) != 0 {
        Some(RomError::UnsupportedMapper(mapper_of(d)))
    } else if d.len() < needed_len(d) {
        Some(RomError::Truncated)
    } else if d.len() > needed_len(d) {
        Some(RomError::TrailingData)
    } else {
        None
    }
}

fn copy_range(data: &[u8], start: usize, len: usize) -> (r: Vec<u8>)
    requires
        start + len <= data@.len(),
    ensures
        r@ == data@.subrange(start as int, start + len),
{
    let mut r: Vec<u8> = Vec::with_capacity(len);
    let n = data.len();
    let mut i: usize = 0;
    while i < len
        invariant
            i <= len,
            n == data@.len(),
            start + len <= data@.len(),
            r@ == data@.subrange(start as int, start + i),
        decreases len - i,
    {
        r.push(data[start + i]);
        i = i + 1;
        assert(r@ =~= data@.subrange(start as int, start + i));
    }
    r
}

/// Cuts `count` banks of `size` bytes starting at `start`.
fn load_banks(data: &[u8], start: usize, count: u8, size: usize) -> (r: Vec<Vec<u8>>)
    requires
        start + count * size <= data@.len(),
        size > 0,
    ensures
        r.len() == count,
        forall|k: int| 0 <= k < count ==> #[trigger] r[k]@ == data@.subrange(
            start + k * size,
            start + k * size + size,
        ),
{
    let mut banks: Vec<Vec<u8>> = Vec::new();
    let mut k: u8 = 0;
    let mut idx: usize = start;
    let n = data.len();
    while k < count
        invariant
            k <= count,
            n == data@.len(),
            idx == start + k * size,
            start + count * size <= data@.len(),
            banks.len() == k,
            forall|j: int| 0 <= j < k ==> #[trigger] banks[j]@ == data@.subrange(
                start + j * size,
                start + j * size + size,
            ),
        decreases count - k,
    {
        proof {
            assert((k + 1) * size <= count * size) by (nonlinear_arith)
                requires
                    k < count,
            ;
            assert((k + 1) * size == k * size + size) by (nonlinear_arith);
        }
        banks.push(copy_range(data, idx, size));
        idx = idx + size;
        k = k + 1;
    }
    banks
}

impl NESFile {
    /// Parses an iNES 1 image.
    pub fn load(data: &[u8]) -> (r: Result<NESFile, RomError>)
        ensures
            load_error(data@) is Some <==> r is Err,
            r is Err ==> r->Err_0 == load_error(data@)->Some_0,
            r is Ok ==> ({
                let f = r->Ok_0;
                let trainer = if bit(data@[6], 4) { TRAINER_SIZE as int } else { 0 };
                &&& f.header.mapper == 0
                &&& f.header.prg_rom_banks == data@[4]
                &&& f.header.chr_rom_banks == data@[5]
                &&& f.header.has_trainer == bit(data@[6], 4)
                &&& f.header.mirroring == if bit(data@[6], 8) {
                    Mirroring::FourScreen
                } else if bit(data@[6], 1) {
                    Mirroring::Vertical
                } else {
                    Mirroring::Horizontal
                }
                &&& f.prg_rom.len() == data@[4]
                &&& f.chr_rom.len() == data@[5]
                &&& forall|k: int| 0 <= k < data@[4] ==> #[trigger] f.prg_rom[k]@ == data@.subrange(
                    HEADER_SIZE + trainer + k * PRG_ROM_BANK_SIZE,
                    HEADER_SIZE + trainer + k * PRG_ROM_BANK_SIZE + PRG_ROM_BANK_SIZE,
                )
                &&& forall|k: int| 0 <= k < data@[5] ==> #[trigger] f.chr_rom[k]@ == data@.subrange(
                    HEADER_SIZE + trainer + data@[4] * PRG_ROM_BANK_SIZE + k * CHR_ROM_BANK_SIZE,
                    HEADER_SIZE + trainer + data@[4] * PRG_ROM_BANK_SIZE + k * CHR_ROM_BANK_SIZE
                        + CHR_ROM_BANK_SIZE,
                )
            }),
    {
        let header = match Self::load_header(data) {
            Ok(h) => h,
            Err(e) => return Err(e),
        };
        if header.mapper != 0 {
            return Err(RomError::UnsupportedMapper(header.mapper));
        }
        let trainer: usize = if header.has_trainer { TRAINER_SIZE } else { 0 };
        let prg_len = header.prg_rom_banks as usize * PRG_ROM_BANK_SIZE;
        let chr_len = header.chr_rom_banks as usize * CHR_ROM_BANK_SIZE;
        if data.len() < HEADER_SIZE + trainer + prg_len + chr_len {
            return Err(RomError::Truncated);
        }
        if data.len() > HEADER_SIZE + trainer + prg_len + chr_len {
            return Err(RomError::TrailingData);
        }
        let prg_start = HEADER_SIZE + trainer;
        let prg_rom = load_banks(data, prg_start, header.prg_rom_banks, PRG_ROM_BANK_SIZE);
        let chr_rom = load_banks(data, prg_start + prg_len, header.chr_rom_banks, CHR_ROM_BANK_SIZE);
        Ok(NESFile { header, prg_rom, chr_rom })
    }

    fn load_header(data: &[u8]) -> (r: Result<NESHeader, RomError>)
        ensures
            r is Err <==> (data@.len() < HEADER_SIZE || !has_magic(data@) || (data@[7] / 4) % 4 == 2
                || data@[12] != 0 || data@[13] != 0 || data@[14] != 0 || data@[15] != 0),
            r is Err ==> r->Err_0 == load_error(data@)->Some_0,
            r is Ok ==> ({
                let h = r->Ok_0;
                &&& h.mapper == mapper_of(data@)
                &&& h.prg_rom_banks == data@[4]
                &&& h.chr_rom_banks == data@[5]
                &&& h.has_trainer == bit(data@[6], 4)
                &&& h.mirroring == if bit(data@[6], 8) {
                    Mirroring::FourScreen
                } else if bit(data@[6], 1) {
                    Mirroring::Vertical
                } else {
                    Mirroring::Horizontal
                }
            }),
    {
        if data.len() < HEADER_SIZE {
            return Err(RomError::TooShort);
        }
        if !(data[0] == 0x4e && data[1] == 0x45 && data[2] == 0x53 && data[3] == 0x1a) {
            return Err(RomError::BadMagic);
        }
        let is_nes2_format = (data[7] / 4) % 4 == 2;
        if is_nes2_format {
            return Err(RomError::UnsupportedFormat);
        }
        if data[12] != 0 || data[13] != 0 || data[14] != 0 || data[15] != 0 {
            return Err(RomError::BadHeaderPadding);
        }
        let mapper = (data[7] / 16) * 16 + data[6] / 16;
        let prg_ram_banks = if data[8] == 0 { 1 } else { data[8] };
        let tv_system = if data[10] % 4 == 1 || data[10] % 4 == 3 {
            TVSystem::DualCompatible
        } else if data[10] % 4 == 2 || data[9] % 2 == 1 {
            TVSystem::PAL
        } else {
            TVSystem::NTSC
        };
        let mirroring = if (data[6] / 8) % 2 == 1 {
            Mirroring::FourScreen
        } else if data[6] % 2 == 1 {
            Mirroring::Vertical
        } else {
            Mirroring::Horizontal
        };
        Ok(NESHeader {
            is_nes2_format,
            tv_system,
            prg_rom_banks: data[4],
            chr_rom_banks: data[5],
            prg_ram_banks,
            is_vs_unisystem: data[7] % 2 == 1,
            is_playchoice_10: (data[7] / 2) % 2 == 1,
            mapper,
            mirroring,
            has_persistent_memory: (data[6] / 2) % 2 == 1,
            has_trainer: (data[6] / 4) % 2 == 1,
        })
    }
}

} // verus!
