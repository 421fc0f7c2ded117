use vstd::prelude::*;

verus! {

/// NROM (mapper 0) PRG side: 16 KiB bank 0 at $8000-$BFFF, bank 1 (or bank
/// 0 again when there is only one) at $C000-$FFFF, 8 KiB PRG-RAM at
/// $6000-$7FFF. ROM writes are ignored.
pub struct Mapper0 {
    pub prg_ram: Vec<u8>,
    pub prg_rom: Vec<Vec<u8>>,
}

pub const PRG_BANK_SIZE: usize = 0x4000;

pub const PRG_RAM_SIZE: usize = 0x2000;

/// The cartridge side of the CPU bus.
pub trait Mapper {
    fn prg_read(&self, addr: u16) -> u8;

    fn prg_write(&mut self, addr: u16, value: u8);
}

impl Mapper0 {
    pub open spec fn wf(&self) -> bool {
        &&& self.prg_ram.len() == PRG_RAM_SIZE
        &&& (self.prg_rom.len() == 1 || self.prg_rom.len() == 2)
        &&& forall|i: int| 0 <= i < self.prg_rom.len() ==> #[trigger] self.prg_rom[i].len() == PRG_BANK_SIZE
    }

    /// The PRG bank seen at $C000-$FFFF.
    pub open spec fn upper_bank(&self) -> int {
        if self.prg_rom.len() == 2 {
            1
        } else {
            0
        }
    }

    /// What a CPU read of `addr` returns; 0 below $6000.
    pub open spec fn prg_peek(&self, addr: u16) -> u8 {
        if 0x6000 <= addr < 0x8000 {
            self.prg_ram@[addr as int % 0x2000]
        } else if 0x8000 <= addr < 0xc000 {
            self.prg_rom[0]@[addr as int % 0x4000]
        } else if addr >= 0xc000 {
            self.prg_rom[self.upper_bank()]@[addr as int % 0x4000]
        } else {
            0
        }
    }

    /// Tests `wf` at run time.
    pub fn is_wf(&self) -> (r: bool)
        ensures
            r == self.wf(),
    {
        if self.prg_ram.len() != PRG_RAM_SIZE {
            return false;
        }
        let n = self.prg_rom.len();
        if n != 1 && n != 2 {
            return false;
        }
        if self.prg_rom[0].len() != PRG_BANK_SIZE {
            return false;
        }
        if n == 2 && self.prg_rom[1].len() != PRG_BANK_SIZE {
            return false;
        }
        assert(forall|i: int| 0 <= i < self.prg_rom.len() ==> #[trigger] self.prg_rom[i].len()
            == PRG_BANK_SIZE);
        true
    }

    pub fn prg_get(&self, addr: u16) -> (r: u8)
        requires
            self.wf(),
        ensures
            r == self.prg_peek(addr),
    {
        if 0x6000 <= addr && addr < 0x8000 {
            self.prg_ram[(addr % 0x2000) as usize]
        } else if 0x8000 <= addr && addr < 0xc000 {
            assert(self.prg_rom[0].len() == PRG_BANK_SIZE);
            self.prg_rom[0][(addr % 0x4000) as usize]
        } else if addr >= 0xc000 {
            let bank: usize = if self.prg_rom.len() == 2 { 1 } else { 0 };
            assert(self.prg_rom[bank as int].len() == PRG_BANK_SIZE);
            self.prg_rom[bank][(addr % 0x4000) as usize]
        } else {
            0
        }
    }

    /// A CPU write: lands in PRG-RAM, ignored elsewhere.
    pub fn prg_set(&mut self, addr: u16, value: u8)
        requires
            old(self).wf(),
        ensures
            final(self).wf(),
            final(self).prg_rom == old(self).prg_rom,
            0x6000 <= addr < 0x8000 ==> final(self).prg_ram@ == old(self).prg_ram@.update(
                addr as int % 0x2000,
                value,
            ),
            !(0x6000 <= addr < 0x8000) ==> final(self).prg_ram@ == old(self).prg_ram@,
    {
        if 0x6000 <= addr && addr < 0x8000 {
            self.prg_ram.set((addr % 0x2000) as usize, value);
        }
    }
}

impl Mapper for Mapper0 {
    fn prg_read(&self, addr: u16) -> u8 {
        if self.is_wf() {
            self.prg_get(addr)
        } else {
            0
        }
    }

    fn prg_write(&mut self, addr: u16, value: u8) {
        if self.is_wf() {
            self.prg_set(addr, value);
        }
    }
}

/// The mapper of a cartridge: NROM for id 0, none for the others.
pub fn get_mapper(mapper: u8, prg_rom: Vec<Vec<u8>>) -> (r: Option<Mapper0>)
    ensures
        mapper != 0 ==> r.is_none(),
        mapper == 0 && (prg_rom.len() == 1 || prg_rom.len() == 2) && (forall|i: int|
            0 <= i < prg_rom.len() ==> #[trigger] prg_rom[i].len() == PRG_BANK_SIZE) ==> ({
            &&& r.is_some()
            &&& r.unwrap().wf()
            &&& r.unwrap().prg_rom == prg_rom
            &&& forall|i: int| 0 <= i < PRG_RAM_SIZE ==> #[trigger] r.unwrap().prg_ram@[i] == 0xcc
        }),
        r.is_some() ==> r.unwrap().wf(),
        r.is_some() ==> r.unwrap().prg_rom == prg_rom,
{
    if mapper != 0 || prg_rom.len() == 0 || prg_rom.len() > 2 {
        return None;
    }
    let mut i: usize = 0;
    while i < prg_rom.len()
        invariant
            0 <= i <= prg_rom.len() <= 2,
            forall|j: int| 0 <= j < i ==> #[trigger] prg_rom[j].len() == PRG_BANK_SIZE,
        decreases prg_rom.len() - i,
    {
        if prg_rom[i].len() != PRG_BANK_SIZE {
            return None;
        }
        i = i + 1;
    }
    Some(Mapper0 { prg_ram: vec![0xccu8; PRG_RAM_SIZE], prg_rom })
}

/// Reads of $C000 see bank 1 when there are two PRG banks, bank 0 otherwise.
pub proof fn lemma_nrom_upper_bank(m: Mapper0, offset: u16)
    requires
        m.wf(),
        offset < 0x4000,
    ensures
        m.prg_rom.len() == 2 ==> m.prg_peek((0xc000 + offset) as u16) == m.prg_rom[1]@[offset as int],
        m.prg_rom.len() == 1 ==> m.prg_peek((0xc000 + offset) as u16) == m.prg_rom[0]@[offset as int],
        m.prg_peek((0x8000 + offset) as u16) == m.prg_rom[0]@[offset as int],
{
}

} // verus!
