//! The standalone 6502 register file: accumulator, index registers, program
//! counter, stack pointer and status flags, with the stack living in page
//! $0100 of an external flat bus.

use vstd::prelude::*;

use crate::bus::Bus;

verus! {

pub const STACK_PAGE: u16 = 0x0100;

#[derive(Clone, Copy, Debug, PartialEq, Eq, Structural)]
pub enum CpuStatus {
    Carry,
    Zero,
    InterruptDisable,
    Decimal,
    Overflow,
    Negative,
}

/// The status-byte mask of one flag: Carry is bit 0, Zero bit 1, Interrupt-
/// disable bit 2, Decimal bit 3, Overflow bit 6, Negative bit 7.
pub open spec fn spec_flag_mask(bit: CpuStatus) -> u8 {
    match bit {
        CpuStatus::Carry => 0x01,
        CpuStatus::Zero => 0x02,
        CpuStatus::InterruptDisable => 0x04,
        CpuStatus::Decimal => 0x08,
        CpuStatus::Overflow => 0x40,
        CpuStatus::Negative => 0x80,
    }
}

/// The status byte with one flag forced on or off.
pub open spec fn spec_set_flag(p: u8, bit: CpuStatus, is_set: bool) -> u8 {
    (p & !spec_flag_mask(bit)) | (if is_set {
        spec_flag_mask(bit)
    } else {
        0u8
    })
}

pub struct Cpu {
    // 6502 CPU Registers
    pub a: u8,  // Accumulator
    pub x: u8,  // X register (index)
    pub y: u8,  // Y register (index)
    pub pc: u16,  // Program counter
    pub sp: u8,  // Stack pointer
    pub p: u8,  // Status register
}

impl Cpu {
    pub fn new() -> (r: Cpu)
        ensures
            r.a == 0,
            r.x == 0,
            r.y == 0,
            r.pc == 0,
            r.sp == 0,
            r.p == 0,
    {
        Cpu { a: 0, x: 0, y: 0, pc: 0, sp: 0, p: 0 }
    }

    /// Push a byte at $0100 + SP, then move SP down with wrap-around.
    pub fn push_stack(&mut self, bus: &mut Bus, value: u8)
        requires
            old(bus).wf(),
        ensures
            final(bus).wf(),
            final(bus).ram@ == old(bus).ram@.update(STACK_PAGE + old(self).sp, value),
            final(self).sp == old(self).sp.wrapping_sub(1),
            final(self).a == old(self).a,
            final(self).x == old(self).x,
            final(self).y == old(self).y,
            final(self).pc == old(self).pc,
            final(self).p == old(self).p,
    {
        bus.write(STACK_PAGE + u16::from(self.sp), value);
        self.sp = self.sp.wrapping_sub(1);
    }

    /// Push a word high byte first, so that the low byte sits at the lower
    /// stack address.
    pub fn push_stack_16(&mut self, bus: &mut Bus, value: u16)
        requires
            old(bus).wf(),
        ensures
            final(bus).wf(),
            final(bus).ram@ == old(bus).ram@
                .update(STACK_PAGE + old(self).sp, (value >> 8) as u8)
                .update(STACK_PAGE + old(self).sp.wrapping_sub(1), (value & 0xFF) as u8),
            final(self).sp == old(self).sp.wrapping_sub(2),
            final(self).a == old(self).a,
            final(self).x == old(self).x,
            final(self).y == old(self).y,
            final(self).pc == old(self).pc,
            final(self).p == old(self).p,
    {
        self.push_stack(bus, (value >> 8) as u8);
        self.push_stack(bus, (value & 0xFF) as u8);
        proof {
            assert(old(self).sp.wrapping_sub(1).wrapping_sub(1) == old(self).sp.wrapping_sub(2));
        }
    }

    /// Move SP up with wrap-around, then read the byte at $0100 + SP.
    pub fn pop_stack(&mut self, bus: &Bus) -> (r: u8)
        requires
            bus.wf(),
        ensures
            final(self).sp == old(self).sp.wrapping_add(1),
            r == bus.ram@[STACK_PAGE + old(self).sp.wrapping_add(1)],
            final(self).a == old(self).a,
            final(self).x == old(self).x,
            final(self).y == old(self).y,
            final(self).pc == old(self).pc,
            final(self).p == old(self).p,
    {
        self.sp = self.sp.wrapping_add(1);
        bus.read(STACK_PAGE + u16::from(self.sp))
    }

    /// Pop a word: low byte first, then the high byte.
    pub fn pop_stack_16(&mut self, bus: &Bus) -> (r: u16)
        requires
            bus.wf(),
        ensures
            final(self).sp == old(self).sp.wrapping_add(2),
            r == bus.ram@[STACK_PAGE + old(self).sp.wrapping_add(1)]
                + (bus.ram@[STACK_PAGE + old(self).sp.wrapping_add(2)] as u16) * 0x100,
            final(self).a == old(self).a,
            final(self).x == old(self).x,
            final(self).y == old(self).y,
            final(self).pc == old(self).pc,
            final(self).p == old(self).p,
    {
        let low = u16::from(self.pop_stack(bus));
        let high = u16::from(self.pop_stack(bus));
        proof {
            let h = high;
            assert(h << 8u16 == h * 0x100) by (bit_vector)
                requires h < 0x100;
        }
        low + (high << 8)
    }

    pub fn set_flag(&mut self, bit: CpuStatus, is_set: bool)
        ensures
            final(self).p == spec_set_flag(old(self).p, bit, is_set),
            final(self).a == old(self).a,
            final(self).x == old(self).x,
            final(self).y == old(self).y,
            final(self).pc == old(self).pc,
            final(self).sp == old(self).sp,
    {
        let mask = flag_mask(bit);
        self.p = (self.p & !mask) | (if is_set { mask } else { 0 });
    }

    pub fn get_flag(&self, bit: CpuStatus) -> (r: bool)
        ensures
            r == (self.p & spec_flag_mask(bit) != 0),
    {
        self.p & flag_mask(bit) > 0
    }
}

pub fn flag_mask(bit: CpuStatus) -> (r: u8)
    ensures
        r == spec_flag_mask(bit),
{
    match bit {
        CpuStatus::Carry => 0x01,
        CpuStatus::Zero => 0x02,
        CpuStatus::InterruptDisable => 0x04,
        CpuStatus::Decimal => 0x08,
        CpuStatus::Overflow => 0x40,
        CpuStatus::Negative => 0x80,
    }
}

/// Setting a flag makes exactly that flag readable, and leaves every other
/// flag as it was.
pub proof fn lemma_flag_isolation(p: u8, bit: CpuStatus, is_set: bool, other: CpuStatus)
    ensures
        (spec_set_flag(p, bit, is_set) & spec_flag_mask(bit) != 0) == is_set,
        bit != other ==> (spec_set_flag(p, bit, is_set) & spec_flag_mask(other))
            == (p & spec_flag_mask(other)),
{
    let m = spec_flag_mask(bit);
    let o = spec_flag_mask(other);
    assert(((p & !m) | m) & m != 0) by (bit_vector)
        requires m == 1 || m == 2 || m == 4 || m == 8 || m == 0x40 || m == 0x80;
    assert(((p & !m) | 0) & m == 0) by (bit_vector);
    if bit != other {
        assert(m & o == 0) by (bit_vector)
            requires
                m == 1 || m == 2 || m == 4 || m == 8 || m == 0x40 || m == 0x80,
                o == 1 || o == 2 || o == 4 || o == 8 || o == 0x40 || o == 0x80,
                m != o;
        assert(((p & !m) | m) & o == p & o) by (bit_vector)
            requires m & o == 0;
        assert(((p & !m) | 0) & o == p & o) by (bit_vector)
            requires m & o == 0;
    }
}

} // verus!
