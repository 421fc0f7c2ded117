use vstd::prelude::*;

verus! {

/// Length counter of an APU channel: silences the channel once it runs out.
pub struct LengthCounter {
    pub halt: bool,
    pub value: u8,
}

/// Length loaded for each 5-bit index written to a channel's fourth register.
pub open spec fn length_table(index: u8) -> u8 {
    match index {
        0x00 => 0x0a, 0x01 => 0xfe, 0x02 => 0x14, 0x03 => 0x02,
        0x04 => 0x28, 0x05 => 0x04, 0x06 => 0x50, 0x07 => 0x06,
        0x08 => 0xa0, 0x09 => 0x08, 0x0a => 0x3c, 0x0b => 0x0a,
        0x0c => 0x0e, 0x0d => 0x0c, 0x0e => 0x1a, 0x0f => 0x0e,
        0x10 => 0x0c, 0x11 => 0x10, 0x12 => 0x18, 0x13 => 0x12,
        0x14 => 0x30, 0x15 => 0x14, 0x16 => 0x60, 0x17 => 0x16,
        0x18 => 0xc0, 0x19 => 0x18, 0x1a => 0x48, 0x1b => 0x1a,
        0x1c => 0x10, 0x1d => 0x1c, 0x1e => 0x20, _ => 0x1e,
    }
}

impl LengthCounter {
    pub fn new() -> (r: Self)
        ensures
            r.halt,
            r.value == 0,
    {
        LengthCounter { halt: true, value: 0 }
    }

    pub fn value_is_zero(&self) -> (r: bool)
        ensures
            r == (self.value == 0),
    {
        self.value == 0
    }

    pub fn set_halt(&mut self, value: bool)
        ensures
            final(self).halt == value,
            final(self).value == old(self).value,
    {
        self.halt = value;
    }

    /// Clears the counter (a channel disabled through the status register).
    pub fn clear(&mut self)
        ensures
            final(self).halt == old(self).halt,
            final(self).value == 0,
    {
        self.value = 0;
    }

    pub fn set_index(&mut self, index: u8)
        requires
            index < 32,
        ensures
            final(self).halt == old(self).halt,
            final(self).value == length_table(index),
    {
        self.value = match index {
            0x00 => 0x0a, 0x01 => 0xfe, 0x02 => 0x14, 0x03 => 0x02,
            0x04 => 0x28, 0x05 => 0x04, 0x06 => 0x50, 0x07 => 0x06,
            0x08 => 0xa0, 0x09 => 0x08, 0x0a => 0x3c, 0x0b => 0x0a,
            0x0c => 0x0e, 0x0d => 0x0c, 0x0e => 0x1a, 0x0f => 0x0e,
            0x10 => 0x0c, 0x11 => 0x10, 0x12 => 0x18, 0x13 => 0x12,
            0x14 => 0x30, 0x15 => 0x14, 0x16 => 0x60, 0x17 => 0x16,
            0x18 => 0xc0, 0x19 => 0x18, 0x1a => 0x48, 0x1b => 0x1a,
            0x1c => 0x10, 0x1d => 0x1c, 0x1e => 0x20, _ => 0x1e,
        };
    }

    /// A length clock: decrements unless halted or already zero.
    pub fn tick(&mut self)
        ensures
            final(self).halt == old(self).halt,
            final(self).value == if !old(self).halt && old(self).value > 0 {
                (old(self).value - 1) as u8
            } else {
                old(self).value
            },
    {
        if !self.halt && self.value > 0 {
            self.value -= 1;
        }
    }
}

} // verus!
