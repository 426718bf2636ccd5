//! The cartridge image: one contiguous byte array laid out as program RAM,
//! then program ROM, then character ROM, addressed through the NROM mapper.

use vstd::prelude::*;

use super::header::{le_u32_of, spec_parse_header, Header, MAGIC_HEADER};
use crate::errors::EmuError;
use crate::mapper::nrom::NRomMapper;
use crate::mapper::{Mapper, MapperFactory};

verus! {

/// Where the ROM payload starts in the file: after the 16-byte header and,
/// when the trainer flag is set, 512 bytes of trainer data.
pub open spec fn spec_rom_start(b: Seq<u8>) -> int {
    16 + if spec_parse_header(b).has_trainer {
        512int
    } else {
        0int
    }
}

/// How many payload bytes the header promises: the program pages plus the
/// character pages.
pub open spec fn spec_rom_len(b: Seq<u8>) -> int {
    spec_parse_header(b).prg_rom_pages * 0x4000 + spec_parse_header(b).chr_rom_pages * 0x2000
}

/// A cartridge image parses if the header is well formed, names the NROM
/// mapper with one or two program pages, and the file holds all the payload
/// bytes the header promises.
pub open spec fn spec_rom_parses(b: Seq<u8>) -> bool {
    &&& b.len() >= 16
    &&& le_u32_of(b) == MAGIC_HEADER
    &&& spec_parse_header(b).mapper == 0
    &&& spec_parse_header(b).prg_rom_pages >= 1
    &&& b.len() >= spec_rom_start(b) + spec_rom_len(b)
}

pub struct NESRom {
    pub header: Header,
    pub data: Vec<u8>,
    pub mapper: NRomMapper,
}

/// The byte a cartridge read returns: the byte of the contiguous RAM+ROM
/// array at the mapped offset.
pub open spec fn cart_read_spec(rom: NESRom, address: u16) -> u8 {
    rom.data@[rom.mapper.map_spec(address) as int]
}

impl NESRom {
    /// The mapper matches the header and the byte array holds exactly the
    /// RAM page plus every ROM page the header counts.
    pub open spec fn wf(self) -> bool {
        &&& self.mapper.wf()
        &&& 1 <= self.header.prg_rom_pages <= 255
        &&& self.mapper.is_nrom_128() == (self.header.prg_rom_pages == 1)
        &&& self.header.chr_rom_pages <= 255
        &&& self.header.chr_ram_pages <= 1
        &&& (self.header.chr_rom_pages == 0 ==> self.header.chr_ram_pages == 1)
        &&& self.data@.len() == 0x2000 + self.header.prg_rom_pages * 0x4000
            + self.header.chr_rom_pages * 0x2000
    }

    /// Parse a whole cartridge image: header, optional trainer (skipped),
    /// program pages, then character pages. The RAM page leads the byte
    /// array and starts zeroed.
    pub fn new(bytes: &[u8]) -> (r: Result<NESRom, EmuError>)
        ensures
            r is Ok <==> spec_rom_parses(bytes@),
            r matches Ok(rom) ==> {
                &&& rom.wf()
                &&& rom.header == spec_parse_header(bytes@)
                &&& rom.mapper.mirroring == rom.header.mirroring
                &&& forall|i: int| 0 <= i < 0x2000 ==> rom.data@[i] == 0u8
                &&& forall|i: int|
                    0x2000 <= i < 0x2000 + spec_rom_len(bytes@) ==> #[trigger] rom.data@[i]
                        == bytes@[spec_rom_start(bytes@) + i - 0x2000]
            },
            bytes@.len() < 4 ==> r == Err::<NESRom, EmuError>(EmuError::TruncatedFile),
            bytes@.len() >= 4 && le_u32_of(bytes@) != MAGIC_HEADER ==> r == Err::<
                NESRom,
                EmuError,
            >(EmuError::BadMagic),
            bytes@.len() >= 4 && le_u32_of(bytes@) == MAGIC_HEADER && bytes@.len() < 16 ==> r
                == Err::<NESRom, EmuError>(EmuError::TruncatedFile),
            bytes@.len() >= 16 && le_u32_of(bytes@) == MAGIC_HEADER && !(spec_parse_header(
                bytes@,
            ).mapper == 0 && spec_parse_header(bytes@).prg_rom_pages >= 1) ==> r == Err::<
                NESRom,
                EmuError,
            >(EmuError::UnsupportedMapper(spec_parse_header(bytes@).mapper)),
            bytes@.len() >= 16 && le_u32_of(bytes@) == MAGIC_HEADER && spec_parse_header(
                bytes@,
            ).mapper == 0 && spec_parse_header(bytes@).prg_rom_pages >= 1 && bytes@.len()
                < spec_rom_start(bytes@) + spec_rom_len(bytes@) ==> r == Err::<NESRom, EmuError>(
                EmuError::TruncatedFile,
            ),
    {
        let header = match Header::new(bytes) {
            Ok(h) => h,
            Err(e) => {
                return Err(e);
            },
        };

        let mapper = match MapperFactory::create(&header) {
            Ok(m) => m,
            Err(e) => {
                return Err(e);
            },
        };

        // Skip over the trainer data for now
        let start: usize = if header.has_trainer {
            16 + 512
        } else {
            16
        };
        let rom_len: usize = header.prg_rom_pages * 0x4000 + header.chr_rom_pages * 0x2000;

        if bytes.len() < start + rom_len {
            return Err(EmuError::TruncatedFile);
        }

        let length: usize = 0x2000 + rom_len;
        let mut data: Vec<u8> = Vec::new();
        data.resize(length, 0u8);

        let mut j: usize = 0;
        while j < rom_len
            invariant
                j <= rom_len,
                start + rom_len <= bytes@.len(),
                start + rom_len <= usize::MAX,
                length == 0x2000 + rom_len,
                data@.len() == length,
                forall|i: int| 0 <= i < 0x2000 ==> data@[i] == 0u8,
                forall|i: int|
                    0x2000 <= i < 0x2000 + j ==> #[trigger] data@[i] == bytes@[start + i - 0x2000],
            decreases rom_len - j,
        {
            data.set(0x2000 + j, bytes[start + j]);
            j = j + 1;
        }

        Ok(NESRom { header, mapper, data })
    }

    /// A fresh copy of the character memory: the character ROM pages when the
    /// cartridge has any, otherwise one zeroed block of character RAM.
    pub fn chr_rom(&self) -> (r: Vec<u8>)
        requires
            self.wf(),
        ensures
            self.header.chr_rom_pages > 0 ==> r@ == self.data@.subrange(
                0x2000 + self.header.prg_rom_pages * 0x4000,
                0x2000 + self.header.prg_rom_pages * 0x4000 + self.header.chr_rom_pages * 0x2000,
            ),
            self.header.chr_rom_pages == 0 ==> {
                &&& r@.len() == self.header.chr_ram_pages * 0x2000
                &&& forall|i: int| 0 <= i < r@.len() ==> r@[i] == 0u8
            },
    {
        if self.header.chr_rom_pages > 0 {
            let start: usize = self.header.prg_rom_pages * 0x4000 + 0x2000;
            let length: usize = self.header.chr_rom_pages * 0x2000;

            let mut out: Vec<u8> = Vec::new();
            let mut i: usize = 0;
            while i < length
                invariant
                    i <= length,
                    self.wf(),
                    start == 0x2000 + self.header.prg_rom_pages * 0x4000,
                    length == self.header.chr_rom_pages * 0x2000,
                    out@.len() == i,
                    forall|k: int| 0 <= k < i ==> out@[k] == self.data@[start + k],
                decreases length - i,
            {
                out.push(self.data[start + i]);
                i = i + 1;
            }
            proof {
                assert(out@ =~= self.data@.subrange(start as int, start + length));
            }
            out
        } else {
            let mut out: Vec<u8> = Vec::new();
            out.resize(self.header.chr_ram_pages * 0x2000, 0u8);
            out
        }
    }

    /// Read through the mapper: program RAM and ROM alike come straight
    /// from the byte array, so a write to $6000-$7FFF reads back as stored.
    pub fn read(&self, address: u16) -> (r: u8)
        requires
            self.wf(),
        ensures
            r == cart_read_spec(*self, address),
    {
        proof {
            self.mapper.map_in_bounds(address);
        }
        let internal_address = self.mapper.map(address);

        self.data[internal_address as usize]
    }

    /// Write through the mapper; the byte array is updated at the mapped
    /// offset.
    pub fn write(&mut self, address: u16, data: u8)
        requires
            old(self).wf(),
        ensures
            final(self).wf(),
            final(self).header == old(self).header,
            final(self).mapper == old(self).mapper,
            final(self).data@ == old(self).data@.update(
                old(self).mapper.map_spec(address) as int,
                data,
            ),
    {
        proof {
            self.mapper.map_in_bounds(address);
        }
        let internal_address = self.mapper.map(address);
        self.data.set(internal_address as usize, data);
    }
}

} // verus!
