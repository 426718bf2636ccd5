//! The 256x240 output frame: three RGB bytes per pixel, row-major.

use vstd::prelude::*;

verus! {

pub const FRAME_WIDTH: usize = 256;

pub const FRAME_HEIGHT: usize = 240;

pub const FRAME_SIZE: usize = 184320;

pub struct Frame {
    pub data: Vec<u8>,
}

/// The byte offset of pixel (x, y) in the row-major RGB buffer.
pub open spec fn pixel_base(x: int, y: int) -> int {
    y * 3 * 256 + x * 3
}

impl Frame {
    pub open spec fn wf(self) -> bool {
        self.data@.len() == FRAME_SIZE
    }

    pub fn new() -> (r: Frame)
        ensures
            r.wf(),
            forall|i: int| 0 <= i < FRAME_SIZE ==> r.data@[i] == 0u8,
    {
        let mut data: Vec<u8> = Vec::new();
        data.resize(FRAME_SIZE, 0u8);
        Frame { data }
    }

    /// Write one RGB pixel; coordinates whose offset falls past the buffer
    /// are dropped.
    pub fn set_pixel(&mut self, x: usize, y: usize, rgb: (u8, u8, u8))
        requires
            old(self).wf(),
            x <= 0x10000,
            y <= 0x10000,
        ensures
            final(self).wf(),
            pixel_base(x as int, y as int) + 2 < FRAME_SIZE ==> final(self).data@ == old(self).data@.update(pixel_base(x as int, y as int), rgb.0).update(
                pixel_base(x as int, y as int) + 1,
                rgb.1,
            ).update(pixel_base(x as int, y as int) + 2, rgb.2),
            pixel_base(x as int, y as int) + 2 >= FRAME_SIZE ==> final(self).data@ == old(self).data@,
    {
        let base = y * 3 * FRAME_WIDTH + x * 3;
        if base + 2 < self.data.len() {
            self.data.set(base, rgb.0);
            self.data.set(base + 1, rgb.1);
            self.data.set(base + 2, rgb.2);
        }
    }

    pub fn clear(&mut self)
        requires
            old(self).wf(),
        ensures
            final(self).wf(),
            forall|i: int| 0 <= i < FRAME_SIZE ==> final(self).data@[i] == 0u8,
    {
        let n = self.data.len();
        let mut i: usize = 0;
        while i < n
            invariant
                i <= n,
                self.data@.len() == n,
                n == FRAME_SIZE,
                forall|k: int| 0 <= k < i ==> self.data@[k] == 0u8,
            decreases n - i,
        {
            self.data.set(i, 0);
            i = i + 1;
        }
    }
}

} // verus!
