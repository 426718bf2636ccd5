//! The 16-byte cartridge file header: page counts, mapper id, mirroring and
//! the trainer flag, all little-endian where multi-byte.

use vstd::prelude::*;

use byteorder::ByteOrder;

use crate::errors::EmuError;
use crate::mapper::Mirroring;

verus! {

/// The file magic `N E S \x1A`, read as a little-endian u32.
pub const MAGIC_HEADER: u32 = 0x1A53454E;

/// The little-endian u32 held in the first four bytes of a slice.
pub open spec fn le_u32_of(b: Seq<u8>) -> int {
    b[0] + b[1] * 0x100 + b[2] * 0x10000 + b[3] * 0x1000000
}

/// Relies on byteorder's `LittleEndian::read_u32`: the little-endian u32
/// held in the first four bytes of the slice.
#[verifier::external_body]
fn read_le_u32(b: &[u8]) -> (r: u32)
    requires
        b@.len() >= 4,
    ensures
        r == le_u32_of(b@),
{
    byteorder::LittleEndian::read_u32(b)
}

#[derive(Debug)]
pub struct Header {
    pub prg_rom_pages: usize,
    pub prg_ram_pages: usize,
    pub chr_rom_pages: usize,
    pub chr_ram_pages: usize,
    pub mapper: u8,
    pub has_trainer: bool,
    pub mirroring: Mirroring,
}

/// The header a well-formed 16-byte prefix parses to: byte 4 counts 16 KiB
/// program pages, byte 5 counts 8 KiB character pages (zero meaning one page
/// of character RAM instead), byte 6 carries mirroring, the trainer flag and
/// the low mapper nibble, byte 7 the high mapper nibble, and byte 8 the
/// 8 KiB program-RAM page count with zero read as one.
pub open spec fn spec_parse_header(b: Seq<u8>) -> Header {
    Header {
        prg_rom_pages: b[4] as usize,
        prg_ram_pages: if b[8] == 0 { 1usize } else { b[8] as usize },
        chr_rom_pages: b[5] as usize,
        chr_ram_pages: if b[5] == 0 { 1usize } else { 0usize },
        mapper: (b[6] >> 4) | (b[7] & 0xF0),
        has_trainer: b[6] & 0b100 > 0,
        mirroring: if b[6] & 1 == 0 { Mirroring::Horizontal } else { Mirroring::Vertical },
    }
}

impl Header {
    /// Parse the leading 16 bytes of a cartridge image. A short slice is a
    /// truncated file; a wrong magic is rejected before the length of the
    /// rest is considered.
    pub fn new(bytes: &[u8]) -> (r: Result<Header, EmuError>)
        ensures
            bytes@.len() < 4 ==> r == Err::<Header, EmuError>(EmuError::TruncatedFile),
            bytes@.len() >= 4 && le_u32_of(bytes@) != MAGIC_HEADER ==> r == Err::<
                Header,
                EmuError,
            >(EmuError::BadMagic),
            bytes@.len() >= 4 && le_u32_of(bytes@) == MAGIC_HEADER && bytes@.len() < 16 ==> r
                == Err::<Header, EmuError>(EmuError::TruncatedFile),
            r is Ok <==> (bytes@.len() >= 16 && le_u32_of(bytes@) == MAGIC_HEADER),
            r matches Ok(h) ==> h == spec_parse_header(bytes@),
    {
        if bytes.len() < 4 {
            return Err(EmuError::TruncatedFile);
        }
        if read_le_u32(bytes) != MAGIC_HEADER {
            return Err(EmuError::BadMagic);
        }
        if bytes.len() < 16 {
            return Err(EmuError::TruncatedFile);
        }

        let prg_rom_pages = bytes[4] as usize;
        let chr_rom_pages = bytes[5] as usize;
        let chr_ram_pages: usize = if chr_rom_pages == 0 { 1 } else { 0 };

        let flags6 = bytes[6];
        let flags7 = bytes[7];
        let flags8 = bytes[8];

        let mirroring = if flags6 & 1 == 0 {
            Mirroring::Horizontal
        } else {
            Mirroring::Vertical
        };

        let prg_ram_pages: usize = if flags8 == 0 { 1 } else { flags8 as usize };
        let has_trainer = flags6 & 0b100 > 0;
        let mapper = (flags6 >> 4) | (flags7 & 0xF0);

        Ok(Header {
            prg_rom_pages,
            prg_ram_pages,
            chr_rom_pages,
            chr_ram_pages,
            mapper,
            has_trainer,
            mirroring,
        })
    }
}

} // verus!
