use nes_core::hardware::register::Register;

#[test]
fn initial_value() {
    let r = Register::<u8>::new();
    assert_eq!(0, r.data);
}

#[test]
fn load() {
    let r = Register::<u8>::new();
    assert_eq!(0, r.load());
}

#[test]
fn load_bit() {
    let mut r = Register::<u8>::new();
    r.store(2);
    assert_eq!(1, r.load_bit(1));
}

#[test]
fn clear() {
    let mut r = Register::<u8>::new();
    r.store(5);
    r.clear();

    assert_eq!(0, r.data);
}

#[test]
fn is_set() {
    let mut r = Register::<u8>::new();
    assert_eq!(false, r.is_set(1));
    r.set_bit(1);
    assert_eq!(true, r.is_set(1));
}

#[test]
fn set_bit() {
    let mut r = Register::<u8>::new();
    assert_eq!(false, r.is_set(1));
    r.set_bit(1);
    assert_eq!(true, r.is_set(1));
}

#[test]
fn clear_bit() {
    let mut r = Register::<u8>::new();
    r.set_bit(1);
    assert_eq!(true, r.is_set(1));
    r.clear_bit(1);
    assert_eq!(false, r.is_set(1));
}

#[test]
fn shift() {
    let mut r = Register::<u8>::new();
    assert_eq!(0, r.shift(1));
    assert_eq!(1, r.load());
    assert_eq!(0, r.shift(0));
    assert_eq!(2, r.load());
    r.store(0xFF);
    assert_eq!(1, r.shift(1));
    assert_eq!(0xFF, r.load());
    assert_eq!(1, r.shift(0));
    assert_eq!(0xFE, r.load());
}

#[test]
fn increment() {
    let mut r = Register::<u8>::new();
    r.increment();

    assert_eq!(1, r.load());

    r.store(0xFF);
    r.increment();
    assert_eq!(0, r.load());
}

#[test]
fn decrement() {
    let mut r = Register::<u8>::new();
    r.decrement();
    assert_eq!(0xFF, r.load());
    r.decrement();
    assert_eq!(0xFE, r.load());
}

#[test]
fn wide_register_shift() {
    let mut r = Register::<u16>::new();
    r.store(0x8001);
    assert_eq!(1, r.shift(0));
    assert_eq!(0x0002, r.load());
}
