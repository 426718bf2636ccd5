//! PPUSCROLL ($2005): two writes land in the X and then the Y scroll
//! register; the shared latch picks which.

use vstd::prelude::*;

use crate::hardware::register::Register;

verus! {

pub struct ScrollRegister {
    pub x: Register<u8>,
    pub y: Register<u8>,
    pub latch: bool,
}

impl ScrollRegister {
    pub fn new() -> (r: ScrollRegister)
        ensures
            r.x.data == 0,
            r.y.data == 0,
            r.latch == false,
    {
        ScrollRegister { x: Register::<u8>::new(), y: Register::<u8>::new(), latch: false }
    }

    // Return the fine X scroll position
    pub fn fine_x_scroll(&self) -> (r: u8)
        ensures
            r == self.x.data & 0x7,
    {
        self.x.load() & 0x7
    }

    /// Store a value in either the X or the Y register, as the latch
    /// directs, and toggle the latch.
    pub fn store(&mut self, value: u8)
        ensures
            !old(self).latch ==> final(self).x.data == value && final(self).y == old(self).y,
            old(self).latch ==> final(self).y.data == value && final(self).x == old(self).x,
            final(self).latch == !old(self).latch,
    {
        if !self.latch {
            self.x.store(value);
        } else {
            self.y.store(value);
        }

        self.latch = !self.latch;
    }

    pub fn reset_latch(&mut self)
        ensures
            final(self).x == old(self).x,
            final(self).y == old(self).y,
            final(self).latch == false,
    {
        self.latch = false;
    }
}

} // verus!
