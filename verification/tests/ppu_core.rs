use nes_core::hardware::interrupt::Interrupt;
use nes_core::mapper::Mirroring;
use nes_core::ppu::frame::Frame;
use nes_core::ppu::Ppu;

fn fresh_ppu(mirroring: Mirroring) -> Ppu {
    Ppu::new(vec![0u8; 0x2000], mirroring)
}

#[test]
fn vertical_mirroring_folds_the_upper_nametables() {
    let ppu = fresh_ppu(Mirroring::Vertical);
    assert_eq!(ppu.mirror_vram_addr(0x2005), 0x005);
    assert_eq!(ppu.mirror_vram_addr(0x2405), 0x405);
    assert_eq!(ppu.mirror_vram_addr(0x2805), 0x005);
    assert_eq!(ppu.mirror_vram_addr(0x2C05), 0x405);
}

#[test]
fn horizontal_mirroring_folds_the_side_nametables() {
    let ppu = fresh_ppu(Mirroring::Horizontal);
    assert_eq!(ppu.mirror_vram_addr(0x2005), 0x005);
    assert_eq!(ppu.mirror_vram_addr(0x2405), 0x005);
    assert_eq!(ppu.mirror_vram_addr(0x2805), 0x405);
    assert_eq!(ppu.mirror_vram_addr(0x2C05), 0x405);
}

#[test]
fn palette_aliases_map_to_background_entries() {
    let ppu = fresh_ppu(Mirroring::Horizontal);
    assert_eq!(ppu.mirror_palette(0x3F10), ppu.mirror_palette(0x3F00));
    assert_eq!(ppu.mirror_palette(0x3F14), ppu.mirror_palette(0x3F04));
    assert_eq!(ppu.mirror_palette(0x3F18), ppu.mirror_palette(0x3F08));
    assert_eq!(ppu.mirror_palette(0x3F1C), ppu.mirror_palette(0x3F0C));
    assert_eq!(ppu.mirror_palette(0x3F01), 0x01);
}

#[test]
fn ninth_visible_sprite_raises_overflow() {
    let mut ppu = fresh_ppu(Mirroring::Horizontal);
    // nine sprites whose Y positions cover scanline 10
    for sprite in 0..9u8 {
        ppu.write_oam_data(8);  // y
        ppu.write_oam_data(sprite);  // tile index
        ppu.write_oam_data(0);  // attributes
        ppu.write_oam_data(8 * sprite);  // x
    }
    ppu.renderer.scanline = 10;
    ppu.renderer.cycle = 257;
    let mut nmi = Interrupt::new();
    ppu.tick(&mut nmi);

    assert_eq!(ppu.renderer.secondary_oam.len(), 8);
    assert_eq!(ppu.registers.status.0 & 0x20, 0x20);
}

#[test]
fn eight_visible_sprites_leave_overflow_clear() {
    let mut ppu = fresh_ppu(Mirroring::Horizontal);
    ppu.registers.status.set_vblank(false);
    for _sprite in 0..8u8 {
        ppu.write_oam_data(8);
        ppu.write_oam_data(0);
        ppu.write_oam_data(0);
        ppu.write_oam_data(0);
    }
    // the remaining entries sit at y = 0 and do not cover scanline 10
    ppu.renderer.scanline = 10;
    ppu.renderer.cycle = 257;
    let mut nmi = Interrupt::new();
    ppu.tick(&mut nmi);

    assert_eq!(ppu.renderer.secondary_oam.len(), 8);
    assert_eq!(ppu.registers.status.0 & 0x20, 0x00);
}

#[test]
fn frame_pixels_land_row_major() {
    let mut frame = Frame::new();
    frame.set_pixel(1, 0, (1, 2, 3));
    assert_eq!(frame.data[3], 1);
    assert_eq!(frame.data[4], 2);
    assert_eq!(frame.data[5], 3);

    frame.set_pixel(0, 1, (9, 8, 7));
    assert_eq!(frame.data[768], 9);

    frame.clear();
    assert_eq!(frame.data[3], 0);
    assert_eq!(frame.data[768], 0);
}

#[test]
fn frame_ignores_out_of_range_pixels() {
    let mut frame = Frame::new();
    frame.set_pixel(0, 300, (1, 2, 3));
    assert!(frame.data.iter().all(|b| *b == 0));
}

#[test]
fn sprite_zero_on_the_line_raises_the_hit_flag() {
    let mut ppu = fresh_ppu(Mirroring::Horizontal);
    ppu.registers.status.set_vblank(false);
    ppu.registers.mask.store(0b0001_1000);
    // sprite 0 at (10, 8) covers scanline 10
    ppu.write_oam_data(8);
    ppu.write_oam_data(0);
    ppu.write_oam_data(0);
    ppu.write_oam_data(10);
    ppu.renderer.scanline = 10;
    ppu.renderer.cycle = 257;
    let mut nmi = Interrupt::new();
    ppu.tick(&mut nmi);

    assert_eq!(ppu.registers.status.0 & 0x40, 0x40);
}

#[test]
fn sprite_zero_hit_needs_rendering_enabled() {
    let mut ppu = fresh_ppu(Mirroring::Horizontal);
    ppu.registers.status.set_vblank(false);
    // rendering disabled: the mask stays zero
    ppu.write_oam_data(8);
    ppu.write_oam_data(0);
    ppu.write_oam_data(0);
    ppu.write_oam_data(10);
    ppu.renderer.scanline = 10;
    ppu.renderer.cycle = 257;
    let mut nmi = Interrupt::new();
    ppu.tick(&mut nmi);

    assert_eq!(ppu.registers.status.0 & 0x40, 0x00);
}
