//! PPUCTRL ($2000): nametable select, VRAM address increment, pattern-table
//! bases, sprite height and the NMI enable, packed into one byte.

use vstd::prelude::*;

verus! {

pub struct ControlRegister(pub u8);

impl ControlRegister {
    pub fn new() -> (r: ControlRegister)
        ensures
            r.0 == 0,
    {
        ControlRegister(0)
    }

    pub fn load(&self) -> (r: u8)
        ensures
            r == self.0,
    {
        self.0
    }

    pub fn store(&mut self, value: u8)
        ensures
            final(self).0 == value,
    {
        self.0 = value;
    }

    /// Bits 0-1: which nametable the background starts from.
    pub fn nametable(&self) -> (r: u8)
        ensures
            r == self.0 & 0b11,
    {
        self.0 & 0b11
    }

    pub fn vram_addr_inc(&self) -> (r: bool)
        ensures
            r == (self.0 & 0b100 != 0),
    {
        self.0 & 0b100 != 0
    }

    /// The step PPUDATA accesses advance the address by: 32 when bit 2 asks
    /// for column-major walks, 1 otherwise.
    pub fn vram_address_increment(&self) -> (r: u8)
        ensures
            r == (if self.0 & 0b100 != 0 {
                32u8
            } else {
                1u8
            }),
    {
        if self.vram_addr_inc() {
            32
        } else {
            1
        }
    }

    /// The VRAM address of the selected base nametable.
    pub fn base_nametable_address(&self) -> (r: u16)
        ensures
            r == 0x2000 + (self.0 & 0b11) * 0x400,
    {
        let n = self.nametable();
        if n == 0 {
            0x2000
        } else if n == 1 {
            0x2400
        } else if n == 2 {
            0x2800
        } else {
            proof {
                let c = self.0;
                assert(c & 0b11 < 4) by (bit_vector);
            }
            0x2C00
        }
    }

    /// Bit 4 picks the pattern table the background fetches from.
    pub fn background_pattern_address(&self) -> (r: usize)
        ensures
            r == (if self.0 & 0x10 != 0 {
                0x1000usize
            } else {
                0usize
            }),
    {
        if self.0 & 0x10 != 0 {
            0x1000
        } else {
            0x0000
        }
    }

    /// Bit 3 picks the pattern table sprites fetch from.
    pub fn sprite_pattern_address(&self) -> (r: usize)
        ensures
            r == (if self.0 & 0x08 != 0 {
                0x1000usize
            } else {
                0usize
            }),
    {
        if self.0 & 0x08 != 0 {
            0x1000
        } else {
            0x0000
        }
    }

    /// Bit 5: tall (8x16) sprites when set.
    pub fn sprite_size(&self) -> (r: bool)
        ensures
            r == (self.0 & 0x20 != 0),
    {
        self.0 & 0x20 != 0
    }

    /// Sprite height in scanlines, following bit 5.
    pub fn sprite_height(&self) -> (r: usize)
        ensures
            r == (if self.0 & 0x20 != 0 {
                16usize
            } else {
                8usize
            }),
    {
        if self.sprite_size() {
            16
        } else {
            8
        }
    }

    pub fn master_slave_select(&self) -> (r: bool)
        ensures
            r == (self.0 & 0x40 != 0),
    {
        self.0 & 0x40 != 0
    }

    /// Bit 7: raise an NMI when vertical blank begins.
    pub fn generate_nmi(&self) -> (r: bool)
        ensures
            r == (self.0 & 0x80 != 0),
    {
        self.0 & 0x80 != 0
    }
}

} // verus!
