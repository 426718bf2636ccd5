use nes_core::hardware::interrupt::Interrupt;
use nes_core::hardware::joypad::Joypad;

#[test]
fn schedule_an_interrupt() {
    let mut interrupt = Interrupt::new();
    assert_eq!(false, interrupt.ready());

    interrupt.schedule(1);
    assert_eq!(false, interrupt.ready());
    interrupt.tick();
    assert_eq!(true, interrupt.ready());

    interrupt.acknowledge();
    assert_eq!(false, interrupt.ready());
}

#[test]
fn test_strobe() {
    let mut joypad = Joypad::new();

    joypad.buttons.set(0b1001_1001);

    joypad.write(0);

    assert_eq!(joypad.read(), 1);
    assert_eq!(joypad.read(), 0);
    assert_eq!(joypad.read(), 0);
    assert_eq!(joypad.read(), 1);
    assert_eq!(joypad.read(), 1);
    assert_eq!(joypad.read(), 0);
    assert_eq!(joypad.read(), 0);
    assert_eq!(joypad.read(), 1);
    assert_eq!(joypad.read(), 1);
    assert_eq!(joypad.read(), 1);
    assert_eq!(joypad.read(), 1);
    assert_eq!(joypad.read(), 1);

    joypad.write(1);

    assert_eq!(joypad.read(), 1);
    assert_eq!(joypad.read(), 1);
    assert_eq!(joypad.read(), 1);
    assert_eq!(joypad.read(), 1);
    assert_eq!(joypad.read(), 1);
    assert_eq!(joypad.read(), 1);
}

#[test]
fn strobe_then_release_reads_buttons_in_order() {
    let mut joypad = Joypad::new();
    joypad.buttons.set(0b1001_1001);

    joypad.write(1);
    joypad.write(0);

    let expected = [1, 0, 0, 1, 1, 0, 0, 1];
    for bit in expected {
        assert_eq!(joypad.read(), bit);
    }
    assert_eq!(joypad.read(), 1);
    assert_eq!(joypad.read(), 1);
}

#[test]
fn strobed_port_repeats_first_button() {
    let mut joypad = Joypad::new();
    joypad.buttons.set_button_a(true);
    joypad.write(1);

    assert_eq!(joypad.read(), 1);
    assert_eq!(joypad.read(), 1);
    assert_eq!(joypad.read(), 1);
}
