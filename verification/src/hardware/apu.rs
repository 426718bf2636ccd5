//! A read/write stub for the audio processing unit's register window
//! $4000-$4015: writes are accepted and dropped, reads return zero.

use vstd::prelude::*;

verus! {

pub struct Apu {
    pub enabled: bool,
}

impl Apu {
    pub fn new() -> (r: Apu)
        ensures
            r.enabled == false,
    {
        Apu { enabled: false }
    }

    pub fn read(&self, _address: u16) -> (r: u8)
        ensures
            r == 0,
    {
        0
    }

    pub fn write(&mut self, _address: u16, _data: u8)
        ensures
            *final(self) == *old(self),
    {
    }
}

} // verus!
