//! The $2006 VRAM address register: two writes, high byte first, assemble the
//! 14-bit address; the shared latch picks the half.

use vstd::prelude::*;

verus! {

pub struct AddressRegister {
    pub value: u16,
    pub high_pointer: bool,
}

impl AddressRegister {
    pub fn new() -> (r: AddressRegister)
        ensures
            r.value == 0,
            r.high_pointer == true,
    {
        AddressRegister { value: 0, high_pointer: true }
    }

    pub fn get(&self) -> (r: u16)
        ensures
            r == self.value,
    {
        self.value
    }

    /// Store one half of the address: the high byte while the latch points
    /// high, the low byte after, toggling the latch each time.
    pub fn write(&mut self, data: u8)
        ensures
            old(self).high_pointer ==> final(self).value == (old(self).value & 0x00FF) | (
            (data as u16) << 8),
            !old(self).high_pointer ==> final(self).value == (old(self).value & 0xFF00) | (
            data as u16),
            final(self).high_pointer == !old(self).high_pointer,
    {
        if self.high_pointer {
            self.value = self.value & 0x00FF | ((data as u16) << 8);
        } else {
            self.value = self.value & 0xFF00 | (data as u16);
        }

        self.high_pointer = !self.high_pointer;
    }

    /// Advance the address by the PPUCTRL-selected step, wrapping inside the
    /// 14-bit PPU address space.
    pub fn increment(&mut self, inc: u8)
        ensures
            final(self).value == (old(self).value + inc) % 0x4000,
            final(self).high_pointer == old(self).high_pointer,
    {
        self.value = ((self.value as u32 + inc as u32) % 0x4000) as u16;
    }

    pub fn reset_latch(&mut self)
        ensures
            final(self).value == old(self).value,
            final(self).high_pointer == true,
    {
        self.high_pointer = true;
    }
}

} // verus!
