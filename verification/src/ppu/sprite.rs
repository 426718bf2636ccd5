//! One sprite as evaluated from object attribute memory: position, tile
//! index and the packed attribute byte.

use vstd::prelude::*;

verus! {

/// A sprite's attribute byte: palette in bits 0-1, behind-background
/// priority in bit 5, and the two flips in bits 6 and 7.
pub struct SpriteAttribute(pub u8);

impl SpriteAttribute {
    pub fn get(&self) -> (r: u8)
        ensures
            r == self.0,
    {
        self.0
    }

    pub fn palette(&self) -> (r: u8)
        ensures
            r == self.0 & 0b11,
    {
        self.0 & 0b11
    }

    pub fn priority(&self) -> (r: bool)
        ensures
            r == (self.0 & 0x20 != 0),
    {
        self.0 & 0x20 != 0
    }

    pub fn flip_x(&self) -> (r: bool)
        ensures
            r == (self.0 & 0x40 != 0),
    {
        self.0 & 0x40 != 0
    }

    pub fn flip_y(&self) -> (r: bool)
        ensures
            r == (self.0 & 0x80 != 0),
    {
        self.0 & 0x80 != 0
    }
}

pub struct Sprite {
    pub x: u8,
    pub y: u8,
    pub index: u8,
    pub attributes: SpriteAttribute,
}

impl Sprite {
    /// Unpack the four OAM bytes of one sprite: Y position, tile index,
    /// attributes, X position.
    pub fn new(data: &[u8]) -> (r: Sprite)
        requires
            data@.len() >= 4,
        ensures
            r.y == data@[0],
            r.index == data@[1],
            r.attributes.0 == data@[2],
            r.x == data@[3],
    {
        Sprite { y: data[0], index: data[1], attributes: SpriteAttribute(data[2]), x: data[3] }
    }
}

} // verus!
