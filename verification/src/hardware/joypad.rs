//! The controller port at $4016: eight buttons serialized one bit per read.
//!
//! A write with bit 0 set asserts the strobe and rewinds the read index; once
//! the strobe is released, successive reads hand out the button bits in the
//! order A, B, Select, Start, Up, Down, Left, Right, then a constant 1.

use vstd::prelude::*;

verus! {

/// The eight button states packed into one byte, bit 0 = A through
/// bit 7 = Right.
pub struct JoypadButtons(pub u8);

impl JoypadButtons {
    pub fn get(&self) -> (r: u8)
        ensures
            r == self.0,
    {
        self.0
    }

    pub fn set(&mut self, value: u8)
        ensures
            final(self).0 == value,
    {
        self.0 = value;
    }

    pub fn button_a(&self) -> (r: bool)
        ensures
            r == (self.0 & 0x01 != 0),
    {
        self.0 & 0x01 != 0
    }

    pub fn set_button_a(&mut self, on: bool)
        ensures
            final(self).0 == (old(self).0 & !0x01u8 | (if on { 0x01u8 } else { 0u8 })),
    {
        self.0 = self.0 & !0x01u8 | (if on { 0x01u8 } else { 0u8 });
    }

    pub fn button_b(&self) -> (r: bool)
        ensures
            r == (self.0 & 0x02 != 0),
    {
        self.0 & 0x02 != 0
    }

    pub fn set_button_b(&mut self, on: bool)
        ensures
            final(self).0 == (old(self).0 & !0x02u8 | (if on { 0x02u8 } else { 0u8 })),
    {
        self.0 = self.0 & !0x02u8 | (if on { 0x02u8 } else { 0u8 });
    }

    pub fn select(&self) -> (r: bool)
        ensures
            r == (self.0 & 0x04 != 0),
    {
        self.0 & 0x04 != 0
    }

    pub fn set_select(&mut self, on: bool)
        ensures
            final(self).0 == (old(self).0 & !0x04u8 | (if on { 0x04u8 } else { 0u8 })),
    {
        self.0 = self.0 & !0x04u8 | (if on { 0x04u8 } else { 0u8 });
    }

    pub fn start(&self) -> (r: bool)
        ensures
            r == (self.0 & 0x08 != 0),
    {
        self.0 & 0x08 != 0
    }

    pub fn set_start(&mut self, on: bool)
        ensures
            final(self).0 == (old(self).0 & !0x08u8 | (if on { 0x08u8 } else { 0u8 })),
    {
        self.0 = self.0 & !0x08u8 | (if on { 0x08u8 } else { 0u8 });
    }

    pub fn up(&self) -> (r: bool)
        ensures
            r == (self.0 & 0x10 != 0),
    {
        self.0 & 0x10 != 0
    }

    pub fn set_up(&mut self, on: bool)
        ensures
            final(self).0 == (old(self).0 & !0x10u8 | (if on { 0x10u8 } else { 0u8 })),
    {
        self.0 = self.0 & !0x10u8 | (if on { 0x10u8 } else { 0u8 });
    }

    pub fn down(&self) -> (r: bool)
        ensures
            r == (self.0 & 0x20 != 0),
    {
        self.0 & 0x20 != 0
    }

    pub fn set_down(&mut self, on: bool)
        ensures
            final(self).0 == (old(self).0 & !0x20u8 | (if on { 0x20u8 } else { 0u8 })),
    {
        self.0 = self.0 & !0x20u8 | (if on { 0x20u8 } else { 0u8 });
    }

    pub fn left(&self) -> (r: bool)
        ensures
            r == (self.0 & 0x40 != 0),
    {
        self.0 & 0x40 != 0
    }

    pub fn set_left(&mut self, on: bool)
        ensures
            final(self).0 == (old(self).0 & !0x40u8 | (if on { 0x40u8 } else { 0u8 })),
    {
        self.0 = self.0 & !0x40u8 | (if on { 0x40u8 } else { 0u8 });
    }

    pub fn right(&self) -> (r: bool)
        ensures
            r == (self.0 & 0x80 != 0),
    {
        self.0 & 0x80 != 0
    }

    pub fn set_right(&mut self, on: bool)
        ensures
            final(self).0 == (old(self).0 & !0x80u8 | (if on { 0x80u8 } else { 0u8 })),
    {
        self.0 = self.0 & !0x80u8 | (if on { 0x80u8 } else { 0u8 });
    }
}

pub struct Joypad {
    pub strobe: bool,
    pub idx: u8,
    pub buttons: JoypadButtons,
}

/// The bit a read returns: button bit `idx` while the index is in range,
/// and a constant 1 once all eight bits have been handed out.
pub open spec fn joypad_read_result(j: Joypad) -> u8 {
    if j.idx > 7 {
        1u8
    } else {
        (j.buttons.0 >> j.idx) & 1
    }
}

/// The port after one read: the index advances only while the strobe is
/// released and bits remain.
pub open spec fn joypad_after_read(j: Joypad) -> Joypad {
    if !j.strobe && j.idx < 8 {
        Joypad { idx: (j.idx + 1) as u8, ..j }
    } else {
        j
    }
}

/// The port after a write: bit 0 of the value drives the strobe, and an
/// asserted strobe rewinds the read index.
pub open spec fn joypad_after_write(j: Joypad, data: u8) -> Joypad {
    let strobe = data & 1 != 0;
    Joypad { strobe, idx: if strobe { 0u8 } else { j.idx }, ..j }
}

/// The port after `n` consecutive reads.
pub open spec fn joypad_after_reads(j: Joypad, n: nat) -> Joypad
    decreases n,
{
    if n == 0 {
        j
    } else {
        joypad_after_read(joypad_after_reads(j, (n - 1) as nat))
    }
}

impl Joypad {
    pub fn new() -> (r: Joypad)
        ensures
            r.strobe == false,
            r.idx == 0,
            r.buttons.0 == 0,
    {
        Joypad { strobe: false, idx: 0, buttons: JoypadButtons(0) }
    }

    /// Read the next serialized button bit.
    pub fn read(&mut self) -> (r: u8)
        ensures
            r == joypad_read_result(*old(self)),
            *final(self) == joypad_after_read(*old(self)),
    {
        if self.idx > 7 {
            return 1;
        }

        let response = (self.buttons.0 >> self.idx) & 1;

        if !self.strobe && self.idx < 8 {
            self.idx = self.idx + 1;
        }

        response
    }

    /// Drive the strobe line from bit 0 of the written value.
    pub fn write(&mut self, data: u8)
        ensures
            *final(self) == joypad_after_write(*old(self), data),
    {
        self.strobe = data & 0x1 != 0;

        if self.strobe {
            self.idx = 0;
        }
    }
}

/// With the strobe released and the index rewound, the first eight reads hand
/// out button bits 0 through 7 in order, and every later read returns 1.
pub proof fn lemma_joypad_serial_order(j: Joypad, n: nat)
    requires
        !j.strobe,
        j.idx == 0,
    ensures
        n < 8 ==> joypad_read_result(joypad_after_reads(j, n)) == (j.buttons.0 >> n as u8) & 1,
        n >= 8 ==> joypad_read_result(joypad_after_reads(j, n)) == 1,
    decreases n,
{
    if n > 0 {
        lemma_joypad_serial_order(j, (n - 1) as nat);
        lemma_joypad_reads_index(j, n);
    }
}

/// After `n` reads the index has advanced to `n`, saturating at 8.
pub proof fn lemma_joypad_reads_index(j: Joypad, n: nat)
    requires
        !j.strobe,
        j.idx == 0,
    ensures
        joypad_after_reads(j, n).buttons == j.buttons,
        joypad_after_reads(j, n).strobe == j.strobe,
        joypad_after_reads(j, n).idx == if n < 8 { n as u8 } else { 8u8 },
    decreases n,
{
    if n > 0 {
        lemma_joypad_reads_index(j, (n - 1) as nat);
    }
}

/// A write with bit 0 set rewinds the index, so the next read returns button
/// bit 0.
pub proof fn lemma_joypad_strobed_read(j: Joypad, data: u8)
    requires
        data & 1 == 1,
    ensures
        joypad_read_result(joypad_after_write(j, data)) == j.buttons.0 & 1,
{
    let w = joypad_after_write(j, data);
    assert(w.idx == 0);
    let b = j.buttons.0;
    assert((b >> 0u8) & 1 == b & 1) by (bit_vector);
}

} // verus!
