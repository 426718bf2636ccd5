//! PPUMASK ($2001): grayscale, left-column enables, rendering enables and
//! the color-emphasis bits, packed into one byte.

use vstd::prelude::*;

verus! {

pub struct MaskRegister(pub u8);

impl MaskRegister {
    pub fn new() -> (r: MaskRegister)
        ensures
            r.0 == 0,
    {
        MaskRegister(0)
    }

    pub fn load(&self) -> (r: u8)
        ensures
            r == self.0,
    {
        self.0
    }

    pub fn store(&mut self, value: u8)
        ensures
            final(self).0 == value,
    {
        self.0 = value;
    }

    pub fn grayscale(&self) -> (r: bool)
        ensures
            r == (self.0 & 0x01 != 0),
    {
        self.0 & 0x01 != 0
    }

    pub fn leftmost_8_background(&self) -> (r: bool)
        ensures
            r == (self.0 & 0x02 != 0),
    {
        self.0 & 0x02 != 0
    }

    pub fn leftmost_8_sprite(&self) -> (r: bool)
        ensures
            r == (self.0 & 0x04 != 0),
    {
        self.0 & 0x04 != 0
    }

    pub fn show_background(&self) -> (r: bool)
        ensures
            r == (self.0 & 0x08 != 0),
    {
        self.0 & 0x08 != 0
    }

    pub fn show_sprites(&self) -> (r: bool)
        ensures
            r == (self.0 & 0x10 != 0),
    {
        self.0 & 0x10 != 0
    }

    pub fn emphasize_red(&self) -> (r: bool)
        ensures
            r == (self.0 & 0x20 != 0),
    {
        self.0 & 0x20 != 0
    }

    pub fn emphasize_green(&self) -> (r: bool)
        ensures
            r == (self.0 & 0x40 != 0),
    {
        self.0 & 0x40 != 0
    }

    pub fn emphasize_blue(&self) -> (r: bool)
        ensures
            r == (self.0 & 0x80 != 0),
    {
        self.0 & 0x80 != 0
    }

    /// Whether the background shows at column `x`: rendering must be on, and
    /// the left eight columns also need the left-column enable.
    pub fn show_background_at(&self, x: usize) -> (r: bool)
        ensures
            r == (self.0 & 0x08 != 0 && (x >= 8 || self.0 & 0x02 != 0)),
    {
        if x < 8 {
            self.show_background() && self.leftmost_8_background()
        } else {
            self.show_background()
        }
    }
}

} // verus!
