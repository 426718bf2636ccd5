//! Operand classification for the standalone register-file CPU: an operand is
//! either absent, a relative branch offset, or an absolute address.

use vstd::prelude::*;

verus! {

#[derive(Debug, PartialEq, Eq, Structural, Clone, Copy)]
pub enum AddressModeValue {
    Implied,
    Relative(u8),
    Absolute(u16),
}

} // verus!
