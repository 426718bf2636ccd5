use nes_core::ppu::oam::OAM;

#[test]
fn store_address() {
    let mut oam = OAM::new(8);

    assert_eq!(0, oam.address);
    oam.store_address(0x7);
    assert_eq!(7, oam.address);
}

#[test]
fn store() {
    let mut oam = OAM::new(2);

    for i in 1..=8 {
        oam.store(i);
    }

    assert_eq!(0, oam.address);
    assert_eq!([1, 2, 3, 4, 5, 6, 7, 8].to_vec(), oam.buffer);
}

#[test]
fn tile() {
    let mut oam = OAM::new(1);
    oam.store_address(2);
    oam.store(0b10101011);

    let tile = oam.tile(0);

    assert_eq!(false, tile.flip_horizontal());
    assert_eq!(true, tile.flip_vertical());
    assert_eq!(true, tile.priority());
    assert_eq!(3, tile.palette_idx());

    assert_eq!(0b10100011, tile.attributes().get());
}

#[test]
fn cleared_oam_is_zeroed() {
    let mut oam = OAM::new(2);
    oam.store(0xAA);
    oam.store(0xBB);
    oam.clear();

    assert_eq!(0, oam.address);
    assert_eq!(vec![0u8; 8], oam.buffer);
}
