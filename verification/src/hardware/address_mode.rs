//! The thirteen 6502 addressing modes and the decoded operand a mode
//! produces. "Forced" index modes always pay the page-crossing cycle, as the
//! store and read-modify-write instructions do.

use vstd::prelude::*;

verus! {

#[derive(PartialEq, Eq, Structural, Clone, Copy, Debug)]
pub enum AddressModeValue {
    Immediate(u8),
    Relative(u8),
    Absolute(u16),
}

impl AddressModeValue {
    /// The memory address a decoded operand points at; an immediate operand
    /// widens to its own value. Relative operands carry no address.
    pub fn address(self) -> (r: u16)
        requires
            !(self matches AddressModeValue::Relative(_)),
        ensures
            self matches AddressModeValue::Immediate(v) ==> r == v as u16,
            self matches AddressModeValue::Absolute(a) ==> r == a,
    {
        match self {
            AddressModeValue::Immediate(address) => address as u16,
            AddressModeValue::Absolute(address) => address,
            AddressModeValue::Relative(_) => {
                proof {
                    assert(false);
                }
                0
            },
        }
    }
}

#[derive(Debug, Clone, Copy, PartialEq, Eq, Structural)]
pub enum AddressMode {
    ZeroPage,  // val = PEEK(arg)
    ZeroPageIndexedX,  // val = PEEK((arg + X) % 256)
    ZeroPageIndexedY,  // val = PEEK((arg + Y) % 256)
    Absolute,  // val = PEEK(arg)
    AbsoluteIndexedX(bool),  // val = PEEK(arg + X)
    AbsoluteIndexedY(bool),  // val = PEEK(arg + Y)
    Indirect,  // val = PEEK(arg) + (PEEK(arg + 1) * 256)
    IndirectX,  // val = PEEK(PEEK((arg + X) % 256) + PEEK((arg + X + 1) % 256) * 256)
    IndirectY(bool),  // val = PEEK(PEEK(arg) + PEEK((arg + 1) % 256) * 256 + Y)
    Immediate,  // val = arg
    Implied,  // nop
    Offset,  // Offset from current PC
}

} // verus!
