//! The NROM mapper (mapper 0): program ROM sits flat at $8000, and NROM-128
//! mirrors its single 16 KiB page across $8000 and $C000.

use vstd::prelude::*;

use super::{Mapper, Mirroring};
use crate::cartridge::header::Header;

verus! {

/// One 8 KiB page of cartridge RAM leads the cartridge byte array.
pub const RAM_PAGE_SIZE: u16 = 8192;

#[derive(Debug, PartialEq, Eq, Structural, Clone, Copy)]
pub enum NRomType {
    NRom128,
    NRom256,
}

pub struct NRomMapper {
    pub nrom_type: NRomType,
    pub ram_size: u16,
    pub mirroring: Mirroring,
}

/// Where a CPU-space address lands in the cartridge byte array, laid out as
/// RAM, then program ROM: $6000 maps to offset 0 (modulo the RAM size, with
/// addresses below $6000 wrapping around), $8000 to the start of the ROM, and
/// on NROM-128 $C000 maps back onto the same 16 KiB page as $8000.
pub open spec fn nrom_map_spec(t: NRomType, ram_size: u16, address: u16) -> u16 {
    if t == NRomType::NRom128 && address >= 0xC000 {
        (address - 0xC000 + ram_size) as u16
    } else if address >= 0x8000 {
        (address - 0x8000 + ram_size) as u16
    } else {
        (address.wrapping_sub(0x6000) as int % ram_size as int) as u16
    }
}

impl NRomMapper {
    /// One program page makes an NROM-128 with its page mirrored at $C000;
    /// two or more make an NROM-256 with the ROM laid out flat from $8000.
    pub fn new(header: &Header) -> (r: NRomMapper)
        requires
            header.prg_rom_pages >= 1,
        ensures
            r.wf(),
            r.is_nrom_128() == (header.prg_rom_pages == 1),
            r.mirroring == header.mirroring,
    {
        let nrom_type = if header.prg_rom_pages == 1 {
            NRomType::NRom128
        } else {
            NRomType::NRom256
        };

        NRomMapper { nrom_type, ram_size: RAM_PAGE_SIZE, mirroring: header.mirroring }
    }

    pub open spec fn is_nrom_128(&self) -> bool {
        self.nrom_type == NRomType::NRom128
    }

    /// Every translated address stays inside RAM plus the ROM the type
    /// allows: 8 KiB + 16 KiB for NROM-128, 8 KiB + 32 KiB for NROM-256.
    pub proof fn map_in_bounds(&self, address: u16)
        requires
            self.wf(),
        ensures
            self.is_nrom_128() ==> self.map_spec(address) < 0x6000,
            !self.is_nrom_128() ==> self.map_spec(address) < 0xA000,
    {
    }
}

impl Mapper for NRomMapper {
    open spec fn wf(&self) -> bool {
        self.ram_size == RAM_PAGE_SIZE
    }

    open spec fn map_spec(&self, address: u16) -> u16 {
        nrom_map_spec(self.nrom_type, self.ram_size, address)
    }

    open spec fn mirroring_spec(&self) -> Mirroring {
        self.mirroring
    }

    fn map(&self, address: u16) -> (r: u16)
    {
        // NROM-128 has duplicate roms across 0x8000 and 0xC000
        if matches!(self.nrom_type, NRomType::NRom128) && address >= 0xC000 {
            address - 0xC000 + self.ram_size
        } else if address >= 0x8000 {
            address - 0x8000 + self.ram_size
        } else {
            address.wrapping_sub(0x6000) % self.ram_size
        }
    }

    fn mirroring(&self) -> (r: Mirroring)
    {
        self.mirroring
    }
}

} // verus!
