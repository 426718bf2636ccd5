//! The game cartridge: the parsed file header and the ROM image behind the
//! NROM mapper.

pub mod header;
pub mod rom;
