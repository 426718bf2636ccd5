//! Object attribute memory: a byte buffer of four-byte sprite entries with
//! an auto-incrementing write address, and the `Tile` record that reads one
//! entry back.

use vstd::prelude::*;

verus! {

pub struct OAM {
    // Buffer for the OAM
    pub buffer: Vec<u8>,
    // Current write address
    pub address: usize,
    // Size in bytes of the OAM
    pub size: usize,
}

/// One four-byte sprite entry copied out of the OAM.
pub struct Tile {
    pub buffer: [u8; 4],
}

/// A sprite's attribute byte as stored in OAM; bits 2-4 do not exist in the
/// hardware register and read back as zero.
pub struct SpriteAttributes(pub u8);

impl SpriteAttributes {
    pub fn get(&self) -> (r: u8)
        ensures
            r == self.0,
    {
        self.0
    }

    pub fn palette(&self) -> (r: u8)
        ensures
            r == self.0 & 0b11,
    {
        self.0 & 0b11
    }

    pub fn priority(&self) -> (r: bool)
        ensures
            r == (self.0 & 0x20 != 0),
    {
        self.0 & 0x20 != 0
    }

    pub fn flip_horizontal(&self) -> (r: bool)
        ensures
            r == (self.0 & 0x40 != 0),
    {
        self.0 & 0x40 != 0
    }

    pub fn flip_vertical(&self) -> (r: bool)
        ensures
            r == (self.0 & 0x80 != 0),
    {
        self.0 & 0x80 != 0
    }
}

impl Tile {
    // Y position on the screen
    pub fn y_pos(&self) -> (r: usize)
        ensures
            r == self.buffer@[0],
    {
        self.buffer[0] as usize
    }

    // Tile index into CHR ROM
    pub fn tile_idx(&self) -> (r: usize)
        ensures
            r == self.buffer@[1],
    {
        self.buffer[1] as usize
    }

    // Raw attribute data
    pub fn attributes(&self) -> (r: SpriteAttributes)
        ensures
            r.0 == self.buffer@[2] & 0xE3,
    {
        SpriteAttributes(self.buffer[2] & 0xE3)
    }

    // X position on the screen
    pub fn x_pos(&self) -> (r: u8)
        ensures
            r == self.buffer@[3],
    {
        self.buffer[3]
    }

    // Flip this sprite horizontally?
    pub fn flip_horizontal(&self) -> (r: bool)
        ensures
            r == (self.buffer@[2] & 0b0100_0000 != 0),
    {
        self.buffer[2] & 0b0100_0000 != 0
    }

    // Flip this sprite vertically?
    pub fn flip_vertical(&self) -> (r: bool)
        ensures
            r == (self.buffer@[2] & 0b1000_0000 != 0),
    {
        self.buffer[2] & 0b1000_0000 != 0
    }

    // Index into the sprite palette
    pub fn palette_idx(&self) -> (r: u8)
        ensures
            r == self.buffer@[2] & 0b0000_0011,
    {
        self.buffer[2] & 0b0000_0011
    }

    pub fn priority(&self) -> (r: bool)
        ensures
            r == (self.buffer@[2] & 0b0010_0000 != 0),
    {
        self.buffer[2] & 0b0010_0000 != 0
    }

    /// Whether this entry covers `scanline` with a sprite `sprite_height`
    /// lines tall: its Y position is at most the scanline, and the sprite's
    /// last line is not yet past it.
    pub fn visible_on_scanline(&self, scanline: usize, sprite_height: usize) -> (r: bool)
        ensures
            r == (self.buffer@[0] <= scanline && scanline < self.buffer@[0] + sprite_height),
    {
        let y_pos = self.y_pos();

        y_pos <= scanline && scanline - y_pos < sprite_height
    }
}

impl OAM {
    /// The buffer length matches the declared byte size, which is positive.
    pub open spec fn wf(self) -> bool {
        &&& self.buffer@.len() == self.size
        &&& self.size > 0
    }

    /// An OAM of `size` four-byte entries, zeroed, with the write address
    /// rewound.
    pub fn new(size: usize) -> (r: OAM)
        requires
            1 <= size <= 64,
        ensures
            r.wf(),
            r.size == size * 4,
            r.address == 0,
            forall|i: int| 0 <= i < r.size ==> r.buffer@[i] == 0u8,
    {
        let mut buffer: Vec<u8> = Vec::new();
        buffer.resize(size * 4, 0u8);
        OAM { buffer, address: 0, size: size * 4 }
    }

    // Store the address into the OAM
    pub fn store_address(&mut self, address: u8)
        ensures
            final(self).address == address,
            final(self).buffer == old(self).buffer,
            final(self).size == old(self).size,
    {
        self.address = address as usize;
    }

    // Store a value in the OAM and increment the address
    pub fn store(&mut self, value: u8)
        requires
            old(self).wf(),
            old(self).address < old(self).size,
        ensures
            final(self).wf(),
            final(self).buffer@ == old(self).buffer@.update(old(self).address as int, value),
            final(self).address == (old(self).address + 1) % (old(self).size as int),
            final(self).size == old(self).size,
    {
        self.buffer.set(self.address, value);
        self.address = (self.address + 1) % self.size;
    }

    /// Store all four bytes of one entry, the write address advancing (and
    /// wrapping) after each byte.
    pub fn store_tile(&mut self, tile: Tile)
        requires
            old(self).wf(),
            old(self).address < old(self).size,
        ensures
            final(self).wf(),
            final(self).size == old(self).size,
            ({
                let s = old(self).size as int;
                let a0 = old(self).address as int;
                let a1 = (a0 + 1) % s;
                let a2 = (a1 + 1) % s;
                let a3 = (a2 + 1) % s;
                &&& final(self).buffer@ == old(self).buffer@.update(a0, tile.buffer@[0]).update(
                    a1,
                    tile.buffer@[1],
                ).update(a2, tile.buffer@[2]).update(a3, tile.buffer@[3])
                &&& final(self).address == (a3 + 1) % s
            }),
    {
        self.store(tile.buffer[0]);
        self.store(tile.buffer[1]);
        self.store(tile.buffer[2]);
        self.store(tile.buffer[3]);
    }

    // Load a value from the OAM at the current address
    pub fn load(&self) -> (r: u8)
        requires
            self.wf(),
            self.address < self.size,
        ensures
            r == self.buffer@[self.address as int],
    {
        self.buffer[self.address]
    }

    // Tile helper value for rendering
    pub fn tile(&self, idx: usize) -> (r: Tile)
        requires
            self.wf(),
            idx * 4 + 4 <= self.size,
        ensures
            r.buffer@[0] == self.buffer@[idx * 4],
            r.buffer@[1] == self.buffer@[idx * 4 + 1],
            r.buffer@[2] == self.buffer@[idx * 4 + 2],
            r.buffer@[3] == self.buffer@[idx * 4 + 3],
    {
        let offset = idx * 4;
        Tile {
            buffer: [
                self.buffer[offset],
                self.buffer[offset + 1],
                self.buffer[offset + 2],
                self.buffer[offset + 3],
            ],
        }
    }

    /// Zero every entry and rewind the write address.
    pub fn clear(&mut self)
        requires
            old(self).wf(),
        ensures
            final(self).wf(),
            final(self).size == old(self).size,
            final(self).address == 0,
            final(self).buffer@.len() == old(self).buffer@.len(),
            forall|i: int| 0 <= i < final(self).buffer@.len() ==> final(self).buffer@[i] == 0u8,
    {
        let n = self.buffer.len();
        let mut i: usize = 0;
        while i < n
            invariant
                i <= n,
                self.buffer@.len() == n,
                self.size == old(self).size,
                n == old(self).buffer@.len(),
                forall|k: int| 0 <= k < i ==> self.buffer@[k] == 0u8,
            decreases n - i,
        {
            self.buffer.set(i, 0);
            i = i + 1;
        }
        self.address = 0;
        proof {
            assert(self.buffer@.len() == self.size);
        }
    }
}

} // verus!
