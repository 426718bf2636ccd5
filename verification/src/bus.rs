//! A flat 64 KiB memory bus: every address maps one-to-one onto a byte.

use vstd::prelude::*;

verus! {

pub struct Bus {
    pub ram: Vec<u8>,
}

impl Bus {
    /// The bus always backs the full 16-bit address space.
    pub open spec fn wf(self) -> bool {
        self.ram@.len() == 0x10000
    }

    pub fn new() -> (r: Bus)
        ensures
            r.wf(),
            r.ram@ == Seq::<u8>::new(0x10000, |i: int| 0u8),
    {
        let mut ram: Vec<u8> = Vec::new();
        ram.resize(0x10000, 0u8);
        proof {
            assert(ram@ =~= Seq::<u8>::new(0x10000, |i: int| 0u8));
        }
        Bus { ram }
    }

    /// Reads a byte from the interface at the given address
    pub fn read(&self, address: u16) -> (r: u8)
        requires
            self.wf(),
        ensures
            r == self.ram@[address as int],
    {
        self.ram[address as usize]
    }

    /// Writes a byte to the interface at the given address
    pub fn write(&mut self, address: u16, data: u8)
        requires
            old(self).wf(),
        ensures
            final(self).wf(),
            final(self).ram@ == old(self).ram@.update(address as int, data),
    {
        self.ram.set(address as usize, data);
    }
}

} // verus!
