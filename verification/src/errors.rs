//! Error kinds raised by the emulation core.

use vstd::prelude::*;

verus! {

/// Everything that can go wrong while loading a cartridge or running the
/// machine. Cartridge-load errors surface before the main loop starts;
/// runtime errors abort emulation with the faulting opcode or address.
#[derive(Clone, Copy, Debug, PartialEq, Eq, Structural)]
pub enum EmuError {
    /// The first four bytes of the cartridge image are not the expected magic.
    BadMagic,
    /// The cartridge image ends before the header-declared data.
    TruncatedFile,
    /// The header names a mapper this core does not implement.
    UnsupportedMapper(u8),
    /// An opcode with no implementation was fetched; carries the opcode and
    /// the address it was fetched from.
    InvalidOpcode(u8, u16),
    /// A read or write touched the disabled region $4018-$401F.
    DisabledRegion(u16),
    /// A write touched a read-only register.
    WriteToReadOnly(u16),
}

} // verus!
