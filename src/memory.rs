use vstd::prelude::*;

verus! {

/// A byte-addressed 16-bit bus.
///
/// `peek` is what a read returns. A `plain` memory is one whose reads have no
/// side effects and whose writes change exactly the cell written; memory-mapped
/// registers make a bus not plain, and then only the value of each read is known.
pub trait Memory: Sized {
    spec fn peek(&self, addr: u16) -> u8;

    spec fn plain(&self) -> bool;

    /// The memory's own well-formedness, which every access preserves.
    spec fn inv(&self) -> bool;

    fn read_u8(&mut self, addr: u16) -> (r: u8)
        ensures
            r == old(self).peek(addr),
            old(self).plain() ==> *final(self) == *old(self),
            old(self).inv() ==> final(self).inv(),
    ;

    fn write_u8(&mut self, addr: u16, value: u8)
        ensures
            old(self).inv() ==> final(self).inv(),
            old(self).plain() ==> final(self).plain(),
            old(self).plain() ==> forall|a: u16| #[trigger]
                final(self).peek(a) == if a == addr {
                    value
                } else {
                    old(self).peek(a)
                },
    ;
}

/// A flat memory: byte `i` of the vector is address `i`. Reads beyond its end
/// return 0 and writes there are dropped; one of 64 KiB is plain.
impl Memory for Vec<u8> {
    open spec fn peek(&self, addr: u16) -> u8 {
        if (addr as int) < self.len() {
            self@[addr as int]
        } else {
            0
        }
    }

    open spec fn plain(&self) -> bool {
        self.len() == 0x10000
    }

    open spec fn inv(&self) -> bool {
        true
    }

    fn read_u8(&mut self, addr: u16) -> (r: u8) {
        if (addr as usize) < self.len() {
            self[addr as usize]
        } else {
            0
        }
    }

    fn write_u8(&mut self, addr: u16, value: u8) {
        if (addr as usize) < self.len() {
            self.set(addr as usize, value);
        }
    }
}

/// Little-endian 16-bit word of two bytes.
pub open spec fn word(lo: u8, hi: u8) -> u16 {
    (hi as int * 256 + lo as int) as u16
}

pub fn make_word(lo: u8, hi: u8) -> (r: u16)
    ensures
        r == word(lo, hi),
{
    (hi as u16) * 256 + (lo as u16)
}

/// Reads a little-endian word at `addr`, `addr + 1` (wrapping at the top of memory).
pub fn read_u16<M: Memory>(mem: &mut M, addr: u16) -> (r: u16)
    ensures
        old(mem).plain() ==> r == word(old(mem).peek(addr), old(mem).peek(addr.wrapping_add(1))),
        old(mem).plain() ==> *final(mem) == *old(mem),
        old(mem).inv() ==> final(mem).inv(),
{
    let lo = mem.read_u8(addr);
    let hi = mem.read_u8(addr.wrapping_add(1));
    make_word(lo, hi)
}

} // verus!
