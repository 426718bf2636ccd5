//! PPUSTATUS ($2002): sprite overflow, sprite-0 hit and the vertical-blank
//! flag. Reading the register clears vblank.

use vstd::prelude::*;

verus! {

pub struct StatusRegister(pub u8);

/// The status byte with the vblank bit forced on or off.
pub open spec fn spec_with_vblank(v: u8, on: bool) -> u8 {
    if on {
        v | 0x80
    } else {
        v & 0x7F
    }
}

impl StatusRegister {
    /// Power-on state: the vblank flag reads as set.
    pub fn new() -> (r: StatusRegister)
        ensures
            r.0 == 0b1000_0000,
    {
        StatusRegister(0b1000_0000)
    }

    pub fn load(&self) -> (r: u8)
        ensures
            r == self.0,
    {
        self.0
    }

    pub fn sprite_overflow(&self) -> (r: bool)
        ensures
            r == (self.0 & 0x20 != 0),
    {
        self.0 & 0x20 != 0
    }

    pub fn set_sprite_overflow(&mut self, on: bool)
        ensures
            final(self).0 == (if on {
                old(self).0 | 0x20
            } else {
                old(self).0 & !0x20u8
            }),
    {
        if on {
            self.0 = self.0 | 0x20;
        } else {
            self.0 = self.0 & !0x20u8;
        }
    }

    pub fn sprite_0_hit(&self) -> (r: bool)
        ensures
            r == (self.0 & 0x40 != 0),
    {
        self.0 & 0x40 != 0
    }

    pub fn set_sprite_0_hit(&mut self, on: bool)
        ensures
            final(self).0 == (if on {
                old(self).0 | 0x40
            } else {
                old(self).0 & !0x40u8
            }),
    {
        if on {
            self.0 = self.0 | 0x40;
        } else {
            self.0 = self.0 & !0x40u8;
        }
    }

    pub fn vblank(&self) -> (r: bool)
        ensures
            r == (self.0 & 0x80 != 0),
    {
        self.0 & 0x80 != 0
    }

    pub fn set_vblank(&mut self, on: bool)
        ensures
            final(self).0 == spec_with_vblank(old(self).0, on),
    {
        if on {
            self.0 = self.0 | 0x80;
        } else {
            self.0 = self.0 & 0x7F;
        }
    }

    /// Hand the byte out and clear the vblank flag, atomically with respect
    /// to the returned value.
    pub fn read(&mut self) -> (r: u8)
        ensures
            r == old(self).0,
            final(self).0 == spec_with_vblank(old(self).0, false),
    {
        let value = self.load();
        self.set_vblank(false);

        value
    }
}

} // verus!
