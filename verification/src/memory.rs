//! A bare 64 KiB memory block.

use vstd::prelude::*;

verus! {

pub struct Memory {
    pub block: Vec<u8>,  // 64K memory block
}

impl Memory {
    pub fn new() -> (r: Memory)
        ensures
            r.block@.len() == 0x10000,
            forall|i: int| 0 <= i < 0x10000 ==> r.block@[i] == 0u8,
    {
        let mut block: Vec<u8> = Vec::new();
        block.resize(0x10000, 0u8);
        Memory { block }
    }
}

} // verus!
