use nes_core::cartridge::header::Header;
use nes_core::ppu::oam::OAM;
use nes_core::cartridge::rom::NESRom;
use nes_core::errors::EmuError;
use nes_core::mapper::Mirroring;

fn ines_image(prg_pages: u8, chr_pages: u8, flags6: u8, flags7: u8) -> Vec<u8> {
    let mut bytes = vec![0x4E, 0x45, 0x53, 0x1A, prg_pages, chr_pages, flags6, flags7];
    bytes.resize(16, 0);
    let payload = (prg_pages as usize) * 0x4000 + (chr_pages as usize) * 0x2000;
    for i in 0..payload {
        bytes.push((i % 251) as u8);
    }
    bytes
}

#[test]
fn header_parses_counts_and_mirroring() {
    let bytes = ines_image(1, 1, 0b0000_0001, 0);
    let header = Header::new(&bytes).unwrap();

    assert_eq!(header.prg_rom_pages, 1);
    assert_eq!(header.chr_rom_pages, 1);
    assert_eq!(header.chr_ram_pages, 0);
    assert_eq!(header.prg_ram_pages, 1);
    assert_eq!(header.mapper, 0);
    assert_eq!(header.has_trainer, false);
    assert_eq!(header.mirroring, Mirroring::Vertical);
}

#[test]
fn header_rejects_bad_magic() {
    let mut bytes = ines_image(1, 1, 0, 0);
    bytes[3] = 0x00;
    assert!(matches!(Header::new(&bytes), Err(EmuError::BadMagic)));
}

#[test]
fn header_rejects_short_file() {
    let bytes = vec![0x4E, 0x45, 0x53, 0x1A, 1, 1];
    assert!(matches!(Header::new(&bytes), Err(EmuError::TruncatedFile)));
    assert!(matches!(Header::new(&bytes[..2]), Err(EmuError::TruncatedFile)));
}

#[test]
fn rom_rejects_unsupported_mapper() {
    // mapper id 3: low nibble in the upper half of flags 6
    let bytes = ines_image(1, 1, 0x30, 0);
    match NESRom::new(&bytes) {
        Err(EmuError::UnsupportedMapper(3)) => {},
        other => panic!("unexpected result: {:?}", other.map(|_| ())),
    }
}

#[test]
fn rom_rejects_missing_payload() {
    let mut bytes = ines_image(1, 1, 0, 0);
    bytes.truncate(100);
    match NESRom::new(&bytes) {
        Err(EmuError::TruncatedFile) => {},
        other => panic!("unexpected result: {:?}", other.map(|_| ())),
    }
}

#[test]
fn rom_reads_program_bytes_through_the_mapper() {
    let bytes = ines_image(1, 1, 0, 0);
    let rom = NESRom::new(&bytes).unwrap();

    // $8000 maps to the first program byte
    assert_eq!(rom.read(0x8000), 0);
    assert_eq!(rom.read(0x8005), 5 % 251);
    // NROM-128 mirrors the single page at $C000
    assert_eq!(rom.read(0xC005), rom.read(0x8005));
}

#[test]
fn rom_ram_reads_and_writes() {
    // a cartridge with character RAM reports its program RAM contents
    let bytes = ines_image(1, 0, 0, 0);
    let mut rom = NESRom::new(&bytes).unwrap();
    rom.write(0x6000, 0x5A);
    assert_eq!(rom.read(0x6000), 0x5A);
}

#[test]
fn chr_rom_copies_the_character_pages() {
    let bytes = ines_image(1, 1, 0, 0);
    let rom = NESRom::new(&bytes).unwrap();
    let chr = rom.chr_rom();
    assert_eq!(chr.len(), 0x2000);
    assert_eq!(chr[0], (0x4000 % 251) as u8);
}

#[test]
fn two_page_images_map_the_rom_flat() {
    let bytes = ines_image(2, 1, 0, 0);
    let rom = NESRom::new(&bytes).unwrap();
    assert_eq!(rom.read(0x8000), 0);
    assert_eq!(rom.read(0xC000), (0x4000 % 251) as u8);
}

#[test]
fn visible_tile_covers_its_scanlines() {
    let mut oam = OAM::new(1);
    oam.store(12);
    let tile = oam.tile(0);
    assert!(tile.visible_on_scanline(12, 8));
    assert!(tile.visible_on_scanline(19, 8));
    assert!(!tile.visible_on_scanline(20, 8));
    assert!(!tile.visible_on_scanline(5, 8));
}

#[test]
fn prg_ram_reads_back_on_chr_rom_cartridges() {
    // a cartridge WITH character ROM must still serve its program RAM
    let bytes = ines_image(1, 1, 0, 0);
    let mut rom = NESRom::new(&bytes).unwrap();
    rom.write(0x6123, 0xA7);
    assert_eq!(rom.read(0x6123), 0xA7);
    // and through the 8 KiB mirror below $6000 wrap-around semantics
    rom.write(0x7FFF, 0x31);
    assert_eq!(rom.read(0x7FFF), 0x31);
}
