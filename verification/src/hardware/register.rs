//! A plain hardware register: a value with bit-level accessors and a
//! shift-in primitive, in 8-bit and 16-bit widths.

use vstd::prelude::*;

verus! {

#[derive(Debug, Clone, Copy)]
pub struct Register<T> {
    pub data: T,
}

impl Register<u8> {
    pub fn new() -> (r: Register<u8>)
        ensures
            r.data == 0,
    {
        Register { data: 0 }
    }

    pub fn new_with_value(value: u8) -> (r: Register<u8>)
        ensures
            r.data == value,
    {
        Register { data: value }
    }

    pub fn load(&self) -> (r: u8)
        ensures
            r == self.data,
    {
        self.data
    }

    pub fn store(&mut self, value: u8)
        ensures
            final(self).data == value,
    {
        self.data = value;
    }

    pub fn store_bit(&mut self, pos: u8, value: bool)
        requires
            pos < 8,
        ensures
            final(self).data == (old(self).data & !(1u8 << pos)) | ((if value { 1u8 } else { 0u8 }) << pos),
    {
        let numeric_value: u8 = if value { 1 } else { 0 };
        self.data = self.data & !(1u8 << pos) | (numeric_value << pos);
    }

    pub fn load_bit(&self, pos: u8) -> (r: u8)
        requires
            pos < 8,
        ensures
            r == (self.data >> pos) & 1,
    {
        (self.data >> pos) & 1
    }

    pub fn is_set(&self, pos: u8) -> (r: bool)
        requires
            pos < 8,
        ensures
            r == ((self.data >> pos) & 1 == 1),
    {
        self.load_bit(pos) == 1
    }

    pub fn clear(&mut self)
        ensures
            final(self).data == 0,
    {
        self.data = 0;
    }

    pub fn set_bit(&mut self, pos: u8)
        requires
            pos < 8,
        ensures
            final(self).data == old(self).data | (1u8 << pos),
    {
        self.store_bit(pos, true);
        proof {
            let d = old(self).data;
            assert((d & !(1u8 << pos)) | (1u8 << pos) == d | (1u8 << pos)) by (bit_vector);
        }
    }

    pub fn clear_bit(&mut self, pos: u8)
        requires
            pos < 8,
        ensures
            final(self).data == old(self).data & !(1u8 << pos),
    {
        self.store_bit(pos, false);
        proof {
            let d = old(self).data;
            assert((d & !(1u8 << pos)) | (0u8 << pos) == d & !(1u8 << pos)) by (bit_vector);
        }
    }

    pub fn increment(&mut self)
        ensures
            final(self).data == old(self).data.wrapping_add(1),
    {
        self.add(1);
    }

    pub fn decrement(&mut self)
        ensures
            final(self).data == old(self).data.wrapping_sub(1),
    {
        self.subtract(1);
    }

    /// Shift the register left one bit, feeding `value`'s low bit into bit 0;
    /// returns the bit shifted out.
    pub fn shift(&mut self, value: u8) -> (carry: u8)
        ensures
            carry == (old(self).data >> 7) & 1,
            final(self).data == (old(self).data << 1) | (value & 1),
    {
        let carry = self.load_bit(7);
        self.data = (self.data << 1) | (value & 1);
        carry
    }

    fn add(&mut self, value: u8)
        ensures
            final(self).data == old(self).data.wrapping_add(value),
    {
        self.data = self.data.wrapping_add(value);
    }

    fn subtract(&mut self, value: u8)
        ensures
            final(self).data == old(self).data.wrapping_sub(value),
    {
        self.data = self.data.wrapping_sub(value);
    }
}

impl Register<u16> {
    pub fn new() -> (r: Register<u16>)
        ensures
            r.data == 0,
    {
        Register { data: 0 }
    }

    pub fn load(&self) -> (r: u16)
        ensures
            r == self.data,
    {
        self.data
    }

    pub fn store(&mut self, value: u16)
        ensures
            final(self).data == value,
    {
        self.data = value;
    }

    pub fn store_bit(&mut self, pos: u8, value: bool)
        requires
            pos < 16,
        ensures
            final(self).data == (old(self).data & !(1u16 << pos)) | ((if value { 1u16 } else { 0u16 }) << pos),
    {
        let numeric_value: u16 = if value { 1 } else { 0 };
        self.data = self.data & !(1u16 << pos) | (numeric_value << pos);
    }

    pub fn load_bit(&self, pos: u8) -> (r: u8)
        requires
            pos < 16,
        ensures
            r == ((self.data >> pos) & 1) as u8,
    {
        ((self.data >> pos) & 1) as u8
    }

    pub fn is_set(&self, pos: u8) -> (r: bool)
        requires
            pos < 16,
        ensures
            r == ((self.data >> pos) & 1 == 1),
    {
        proof {
            let d = self.data;
            assert((d >> pos) & 1 < 2) by (bit_vector);
        }
        self.load_bit(pos) == 1
    }

    pub fn clear(&mut self)
        ensures
            final(self).data == 0,
    {
        self.data = 0;
    }

    pub fn set_bit(&mut self, pos: u8)
        requires
            pos < 16,
        ensures
            final(self).data == old(self).data | (1u16 << pos),
    {
        self.store_bit(pos, true);
        proof {
            let d = old(self).data;
            assert((d & !(1u16 << pos)) | (1u16 << pos) == d | (1u16 << pos)) by (bit_vector)
                requires pos < 16;
        }
    }

    pub fn clear_bit(&mut self, pos: u8)
        requires
            pos < 16,
        ensures
            final(self).data == old(self).data & !(1u16 << pos),
    {
        self.store_bit(pos, false);
        proof {
            let d = old(self).data;
            assert((d & !(1u16 << pos)) | (0u16 << pos) == d & !(1u16 << pos)) by (bit_vector);
        }
    }

    pub fn increment(&mut self)
        ensures
            final(self).data == old(self).data.wrapping_add(1),
    {
        self.add(1);
    }

    pub fn decrement(&mut self)
        ensures
            final(self).data == old(self).data.wrapping_sub(1),
    {
        self.subtract(1);
    }

    /// Shift the register left one bit, feeding `value`'s low bit into bit 0;
    /// returns the bit shifted out.
    pub fn shift(&mut self, value: u8) -> (carry: u8)
        ensures
            carry == ((old(self).data >> 15) & 1) as u8,
            final(self).data == (old(self).data << 1) | (value & 1) as u16,
    {
        let carry = self.load_bit(15);
        self.data = (self.data << 1) | (value as u16 & 1);
        carry
    }

    fn add(&mut self, value: u16)
        ensures
            final(self).data == old(self).data.wrapping_add(value),
    {
        self.data = self.data.wrapping_add(value);
    }

    fn subtract(&mut self, value: u16)
        ensures
            final(self).data == old(self).data.wrapping_sub(value),
    {
        self.data = self.data.wrapping_sub(value);
    }
}

} // verus!
