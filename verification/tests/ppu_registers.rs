use nes_core::ppu::address_register::AddressRegister;
use nes_core::ppu::control_register::ControlRegister;
use nes_core::ppu::mask_register::MaskRegister;
use nes_core::ppu::scroll_register::ScrollRegister;
use nes_core::ppu::status_register::StatusRegister;

#[test]
fn test_get() {
    let register = AddressRegister::new();

    assert_eq!(register.get(), 0);
}

#[test]
fn test_update() {
    let mut register = AddressRegister::new();

    register.write(0x12);
    register.write(0x34);

    assert_eq!(register.get(), 0x1234);
}

#[test]
fn test_increment() {
    let mut register = AddressRegister::new();
    register.write(0x12);
    register.write(0x34);

    register.increment(1);
    assert_eq!(register.get(), 0x1235);

    register.write(0x3F);
    register.write(0xFF);

    register.increment(2);
    assert_eq!(register.get(), 0x0001);
}

#[test]
fn test_reset_latch() {
    let mut register = AddressRegister::new();
    register.write(0x12);
    register.reset_latch();
    register.write(0x34);
    register.write(0x56);

    assert_eq!(register.get(), 0x3456);
}

#[test]
fn update_sets_value() {
    let mut ctrl = ControlRegister::new();
    assert_eq!(ctrl.load(), 0);

    ctrl.store(0b101);

    assert_eq!(ctrl.vram_address_increment(), 32);
    assert_eq!(ctrl.base_nametable_address(), 0x2400);
}

#[test]
fn grayscale() {
    let mut mask = MaskRegister::new();
    assert_eq!(false, mask.grayscale());
    mask.store(0b0000_0001);
    assert_eq!(true, mask.grayscale());
}

#[test]
fn leftmost_8_background() {
    let mut mask = MaskRegister::new();
    assert_eq!(false, mask.leftmost_8_background());
    mask.store(0b0000_0010);
    assert_eq!(true, mask.leftmost_8_background());
}

#[test]
fn leftmost_8_sprite() {
    let mut mask = MaskRegister::new();
    assert_eq!(false, mask.leftmost_8_sprite());
    mask.store(0b0000_0100);
    assert_eq!(true, mask.leftmost_8_sprite());
}

#[test]
fn show_background() {
    let mut mask = MaskRegister::new();
    assert_eq!(false, mask.show_background());
    mask.store(0b0000_1000);
    assert_eq!(true, mask.show_background());
}

#[test]
fn show_sprites() {
    let mut mask = MaskRegister::new();
    assert_eq!(false, mask.show_sprites());
    mask.store(0b0001_0000);
    assert_eq!(true, mask.show_sprites());
}

#[test]
fn emphasize_red() {
    let mut mask = MaskRegister::new();
    assert_eq!(false, mask.emphasize_red());
    mask.store(0b0010_0000);
    assert_eq!(true, mask.emphasize_red());
}

#[test]
fn emphasize_green() {
    let mut mask = MaskRegister::new();
    assert_eq!(false, mask.emphasize_green());
    mask.store(0b0100_0000);
    assert_eq!(true, mask.emphasize_green());
}

#[test]
fn emphasize_blue() {
    let mut mask = MaskRegister::new();
    assert_eq!(false, mask.emphasize_blue());
    mask.store(0b1010_0000);
    assert_eq!(true, mask.emphasize_blue());
}

#[test]
fn test_write() {
    let mut scroll = ScrollRegister::new();
    assert_eq!(scroll.x.load(), 0);
    assert_eq!(scroll.y.load(), 0);

    scroll.store(0xFF);
    scroll.store(0x11);

    assert_eq!(scroll.x.load(), 0xFF);
    assert_eq!(scroll.y.load(), 0x11);
}

#[test]
fn fine_x_scroll() {
    let mut scroll = ScrollRegister::new();
    scroll.store(0xFE);

    assert_eq!(0x6, scroll.fine_x_scroll());
}

#[test]
fn set_vblank() {
    let mut status = StatusRegister::new();

    assert_eq!(0b1000_0000, status.load());

    status.set_vblank(false);
    assert_eq!(0b0000_0000, status.load());
    status.set_vblank(true);
    assert_eq!(0b1000_0000, status.load());
}

#[test]
fn set_sprite_0_hit() {
    let mut status = StatusRegister::new();

    status.set_sprite_0_hit(true);
    assert_eq!(0b1100_0000, status.load());
    status.set_sprite_0_hit(false);
    assert_eq!(0b1000_0000, status.load());
}

#[test]
fn set_sprite_overflow() {
    let mut status = StatusRegister::new();

    status.set_sprite_overflow(true);
    assert_eq!(0b1010_0000, status.load());
    status.set_sprite_overflow(false);
    assert_eq!(0b1000_0000, status.load());
}
