use vstd::prelude::*;

verus! {

/// 8-bit shift register of a sprite lane: shifts left, exposes its top bit.
#[derive(Clone, Copy, Debug)]
pub struct ShiftRegister8 {
    pub data: u8,
}

/// 16-bit shift register of a background lane: shifts left, is fed a new
/// byte into its low half and exposes its high half.
#[derive(Clone, Copy, Debug)]
pub struct ShiftRegister16 {
    pub data: u16,
}

impl ShiftRegister8 {
    pub fn new() -> (r: Self)
        ensures
            r.data == 0,
    {
        ShiftRegister8 { data: 0 }
    }

    pub fn get_u1(&self) -> (r: bool)
        ensures
            r == (self.data >= 0x80),
    {
        let d = self.data;
        assert(((d & 0x80) != 0) == (d >= 0x80)) by (bit_vector);
        (d & 0x80) != 0
    }

    pub fn shift(&mut self)
        ensures
            final(self).data == ((old(self).data as int * 2) % 256) as u8,
    {
        let d = self.data;
        assert((d << 1u8) as int == (d as int * 2) % 256) by (bit_vector);
        self.data = d << 1u8;
    }

    pub fn load(&mut self, v: u8)
        ensures
            final(self).data == v,
    {
        self.data = v;
    }
}

impl ShiftRegister16 {
    pub fn new() -> (r: Self)
        ensures
            r.data == 0,
    {
        ShiftRegister16 { data: 0 }
    }

    pub fn shift(&mut self)
        ensures
            final(self).data == ((old(self).data as int * 2) % 65536) as u16,
    {
        let d = self.data;
        assert((d << 1u16) as int == (d as int * 2) % 65536) by (bit_vector);
        self.data = d << 1u16;
    }

    pub fn hi(&self) -> (r: u8)
        ensures
            r == self.data / 256,
    {
        let d = self.data;
        assert((d >> 8u16) == d / 256) by (bit_vector);
        (d >> 8u16) as u8
    }

    /// Replaces the low byte, keeping the high byte.
    pub fn feed(&mut self, lo: u8)
        ensures
            final(self).data == (old(self).data / 256) * 256 + lo,
    {
        let d = self.data;
        assert((d & 0xff00u16) | (lo as u16) == (d / 256) * 256 + lo) by (bit_vector);
        self.data = (d & 0xff00u16) | (lo as u16);
    }
}

} // verus!
