//! Cartridge-side address translation: a mapper turns a CPU-space address
//! into an offset inside the cartridge byte array and publishes the fixed
//! nametable mirroring.

pub mod nrom;

use vstd::prelude::*;

use crate::cartridge::header::Header;
use crate::errors::EmuError;
use nrom::NRomMapper;

verus! {

/// How the two physical nametables tile the logical 4 KiB space.
#[derive(Debug, Copy, Clone, PartialEq, Eq, Structural)]
pub enum Mirroring {
    Vertical,
    Horizontal,
}

/// The narrow interface a cartridge mapper exposes: a pure address
/// translation and the nametable mirroring it was configured with.
pub trait Mapper {
    spec fn wf(&self) -> bool;

    spec fn map_spec(&self, address: u16) -> u16;

    spec fn mirroring_spec(&self) -> Mirroring;

    fn map(&self, address: u16) -> (r: u16)
        requires
            self.wf(),
        ensures
            r == self.map_spec(address),
    ;

    fn mirroring(&self) -> (r: Mirroring)
        ensures
            r == self.mirroring_spec(),
    ;
}

pub struct MapperFactory;

impl MapperFactory {
    /// Build the mapper the header names; only mapper 0 (NROM) is
    /// implemented. An image with no program pages at all is refused too:
    /// there is no program to map at $8000 and no reset vector to fetch.
    pub fn create(header: &Header) -> (r: Result<NRomMapper, EmuError>)
        ensures
            (header.mapper == 0 && header.prg_rom_pages >= 1) <==> r is Ok,
            r matches Ok(m) ==> {
                &&& m.wf()
                &&& m.is_nrom_128() == (header.prg_rom_pages == 1)
                &&& m.mirroring == header.mirroring
            },
            r is Err ==> r == Err::<NRomMapper, EmuError>(EmuError::UnsupportedMapper(header.mapper)),
    {
        if header.mapper == 0 && header.prg_rom_pages >= 1 {
            Ok(NRomMapper::new(header))
        } else {
            Err(EmuError::UnsupportedMapper(header.mapper))
        }
    }
}

} // verus!
