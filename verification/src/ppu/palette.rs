//! The fixed 64-entry system palette: the RGB color behind each 6-bit
//! palette-memory value.

use vstd::prelude::*;

verus! {

/// The RGB triple of one palette entry; only the low six bits of the index
/// select a color.
pub open spec fn spec_system_palette(idx: u8) -> (u8, u8, u8) {
    let i = idx & 0x3F;
    if i == 0 { (0x80u8, 0x80u8, 0x80u8) }
    else if i == 1 { (0x00u8, 0x3Du8, 0xA6u8) }
    else if i == 2 { (0x00u8, 0x12u8, 0xB0u8) }
    else if i == 3 { (0x44u8, 0x00u8, 0x96u8) }
    else if i == 4 { (0xA1u8, 0x00u8, 0x5Eu8) }
    else if i == 5 { (0xC7u8, 0x00u8, 0x28u8) }
    else if i == 6 { (0xBAu8, 0x06u8, 0x00u8) }
    else if i == 7 { (0x8Cu8, 0x17u8, 0x00u8) }
    else if i == 8 { (0x5Cu8, 0x2Fu8, 0x00u8) }
    else if i == 9 { (0x10u8, 0x45u8, 0x00u8) }
    else if i == 10 { (0x05u8, 0x4Au8, 0x00u8) }
    else if i == 11 { (0x00u8, 0x47u8, 0x2Eu8) }
    else if i == 12 { (0x00u8, 0x41u8, 0x66u8) }
    else if i == 13 { (0x00u8, 0x00u8, 0x00u8) }
    else if i == 14 { (0x05u8, 0x05u8, 0x05u8) }
    else if i == 15 { (0x05u8, 0x05u8, 0x05u8) }
    else if i == 16 { (0xC7u8, 0xC7u8, 0xC7u8) }
    else if i == 17 { (0x00u8, 0x77u8, 0xFFu8) }
    else if i == 18 { (0x21u8, 0x55u8, 0xFFu8) }
    else if i == 19 { (0x82u8, 0x37u8, 0xFAu8) }
    else if i == 20 { (0xEBu8, 0x2Fu8, 0xB5u8) }
    else if i == 21 { (0xFFu8, 0x29u8, 0x50u8) }
    else if i == 22 { (0xFFu8, 0x22u8, 0x00u8) }
    else if i == 23 { (0xD6u8, 0x32u8, 0x00u8) }
    else if i == 24 { (0xC4u8, 0x62u8, 0x00u8) }
    else if i == 25 { (0x35u8, 0x80u8, 0x00u8) }
    else if i == 26 { (0x05u8, 0x8Fu8, 0x00u8) }
    else if i == 27 { (0x00u8, 0x8Au8, 0x55u8) }
    else if i == 28 { (0x00u8, 0x99u8, 0xCCu8) }
    else if i == 29 { (0x21u8, 0x21u8, 0x21u8) }
    else if i == 30 { (0x09u8, 0x09u8, 0x09u8) }
    else if i == 31 { (0x09u8, 0x09u8, 0x09u8) }
    else if i == 32 { (0xFFu8, 0xFFu8, 0xFFu8) }
    else if i == 33 { (0x0Fu8, 0xD7u8, 0xFFu8) }
    else if i == 34 { (0x69u8, 0xA2u8, 0xFFu8) }
    else if i == 35 { (0xD4u8, 0x80u8, 0xFFu8) }
    else if i == 36 { (0xFFu8, 0x45u8, 0xF3u8) }
    else if i == 37 { (0xFFu8, 0x61u8, 0x8Bu8) }
    else if i == 38 { (0xFFu8, 0x88u8, 0x33u8) }
    else if i == 39 { (0xFFu8, 0x9Cu8, 0x12u8) }
    else if i == 40 { (0xFAu8, 0xBCu8, 0x20u8) }
    else if i == 41 { (0x9Fu8, 0xE3u8, 0x0Eu8) }
    else if i == 42 { (0x2Bu8, 0xF0u8, 0x35u8) }
    else if i == 43 { (0x0Cu8, 0xF0u8, 0xA4u8) }
    else if i == 44 { (0x05u8, 0xFBu8, 0xFFu8) }
    else if i == 45 { (0x5Eu8, 0x5Eu8, 0x5Eu8) }
    else if i == 46 { (0x0Du8, 0x0Du8, 0x0Du8) }
    else if i == 47 { (0x0Du8, 0x0Du8, 0x0Du8) }
    else if i == 48 { (0xFFu8, 0xFFu8, 0xFFu8) }
    else if i == 49 { (0xA6u8, 0xFCu8, 0xFFu8) }
    else if i == 50 { (0xB3u8, 0xECu8, 0xFFu8) }
    else if i == 51 { (0xDAu8, 0xABu8, 0xEBu8) }
    else if i == 52 { (0xFFu8, 0xA8u8, 0xF9u8) }
    else if i == 53 { (0xFFu8, 0xABu8, 0xB3u8) }
    else if i == 54 { (0xFFu8, 0xD2u8, 0xB0u8) }
    else if i == 55 { (0xFFu8, 0xEFu8, 0xA6u8) }
    else if i == 56 { (0xFFu8, 0xF7u8, 0x9Cu8) }
    else if i == 57 { (0xD7u8, 0xE8u8, 0x95u8) }
    else if i == 58 { (0xA6u8, 0xEDu8, 0xAFu8) }
    else if i == 59 { (0xA2u8, 0xF2u8, 0xDAu8) }
    else if i == 60 { (0x99u8, 0xFFu8, 0xFCu8) }
    else if i == 61 { (0xDDu8, 0xDDu8, 0xDDu8) }
    else if i == 62 { (0x11u8, 0x11u8, 0x11u8) }
    else if i == 63 { (0x11u8, 0x11u8, 0x11u8) }
    else { (0u8, 0u8, 0u8) }
}

/// Look one 6-bit palette value up in the system palette; bits 6 and 7 of
/// the index are ignored, as on hardware.
pub fn system_palette(idx: u8) -> (r: (u8, u8, u8))
    ensures
        r == spec_system_palette(idx),
{
    let i = idx & 0x3F;
    if i == 0 { (0x80, 0x80, 0x80)
    } else if i == 1 { (0x00, 0x3D, 0xA6)
    } else if i == 2 { (0x00, 0x12, 0xB0)
    } else if i == 3 { (0x44, 0x00, 0x96)
    } else if i == 4 { (0xA1, 0x00, 0x5E)
    } else if i == 5 { (0xC7, 0x00, 0x28)
    } else if i == 6 { (0xBA, 0x06, 0x00)
    } else if i == 7 { (0x8C, 0x17, 0x00)
    } else if i == 8 { (0x5C, 0x2F, 0x00)
    } else if i == 9 { (0x10, 0x45, 0x00)
    } else if i == 10 { (0x05, 0x4A, 0x00)
    } else if i == 11 { (0x00, 0x47, 0x2E)
    } else if i == 12 { (0x00, 0x41, 0x66)
    } else if i == 13 { (0x00, 0x00, 0x00)
    } else if i == 14 { (0x05, 0x05, 0x05)
    } else if i == 15 { (0x05, 0x05, 0x05)
    } else if i == 16 { (0xC7, 0xC7, 0xC7)
    } else if i == 17 { (0x00, 0x77, 0xFF)
    } else if i == 18 { (0x21, 0x55, 0xFF)
    } else if i == 19 { (0x82, 0x37, 0xFA)
    } else if i == 20 { (0xEB, 0x2F, 0xB5)
    } else if i == 21 { (0xFF, 0x29, 0x50)
    } else if i == 22 { (0xFF, 0x22, 0x00)
    } else if i == 23 { (0xD6, 0x32, 0x00)
    } else if i == 24 { (0xC4, 0x62, 0x00)
    } else if i == 25 { (0x35, 0x80, 0x00)
    } else if i == 26 { (0x05, 0x8F, 0x00)
    } else if i == 27 { (0x00, 0x8A, 0x55)
    } else if i == 28 { (0x00, 0x99, 0xCC)
    } else if i == 29 { (0x21, 0x21, 0x21)
    } else if i == 30 { (0x09, 0x09, 0x09)
    } else if i == 31 { (0x09, 0x09, 0x09)
    } else if i == 32 { (0xFF, 0xFF, 0xFF)
    } else if i == 33 { (0x0F, 0xD7, 0xFF)
    } else if i == 34 { (0x69, 0xA2, 0xFF)
    } else if i == 35 { (0xD4, 0x80, 0xFF)
    } else if i == 36 { (0xFF, 0x45, 0xF3)
    } else if i == 37 { (0xFF, 0x61, 0x8B)
    } else if i == 38 { (0xFF, 0x88, 0x33)
    } else if i == 39 { (0xFF, 0x9C, 0x12)
    } else if i == 40 { (0xFA, 0xBC, 0x20)
    } else if i == 41 { (0x9F, 0xE3, 0x0E)
    } else if i == 42 { (0x2B, 0xF0, 0x35)
    } else if i == 43 { (0x0C, 0xF0, 0xA4)
    } else if i == 44 { (0x05, 0xFB, 0xFF)
    } else if i == 45 { (0x5E, 0x5E, 0x5E)
    } else if i == 46 { (0x0D, 0x0D, 0x0D)
    } else if i == 47 { (0x0D, 0x0D, 0x0D)
    } else if i == 48 { (0xFF, 0xFF, 0xFF)
    } else if i == 49 { (0xA6, 0xFC, 0xFF)
    } else if i == 50 { (0xB3, 0xEC, 0xFF)
    } else if i == 51 { (0xDA, 0xAB, 0xEB)
    } else if i == 52 { (0xFF, 0xA8, 0xF9)
    } else if i == 53 { (0xFF, 0xAB, 0xB3)
    } else if i == 54 { (0xFF, 0xD2, 0xB0)
    } else if i == 55 { (0xFF, 0xEF, 0xA6)
    } else if i == 56 { (0xFF, 0xF7, 0x9C)
    } else if i == 57 { (0xD7, 0xE8, 0x95)
    } else if i == 58 { (0xA6, 0xED, 0xAF)
    } else if i == 59 { (0xA2, 0xF2, 0xDA)
    } else if i == 60 { (0x99, 0xFF, 0xFC)
    } else if i == 61 { (0xDD, 0xDD, 0xDD)
    } else if i == 62 { (0x11, 0x11, 0x11)
    } else if i == 63 { (0x11, 0x11, 0x11)
    } else { (0, 0, 0) }
}

} // verus!
