use lib::bus::InterruptRegister;
use lib::constants::{TIMER_COUNTER, TIMER_CTRL, TIMER_DIVIDER, TIMER_MODULO};
use lib::timer::{Timer, TimerControl};
use lib::utils::{bit_at, half_carry_u8, set_bit};

#[test]
fn timer_test_timer_counter_no_overflow() {
    let mut int_reg = InterruptRegister::empty();
    let mut timer = Timer::default();
    timer.control = TimerControl::from_bits_truncate(0b0000_0101);
    timer.divider = 0b0001_0111;
    assert!(timer.control.is_enabled());

    timer.step(&mut int_reg);
    assert_eq!(timer.divider, 0b0001_1000);
    assert_eq!(timer.counter, 0b0000_0001);
    assert!(!int_reg.contains(InterruptRegister::timer()));
}

#[test]
fn timer_test_timer_counter_overflow() {
    let mut int_reg = InterruptRegister::empty();
    let mut timer = Timer::default();
    timer.control = TimerControl::from_bits_truncate(0b0000_0101);
    timer.divider = 0b0001_0011;
    timer.counter = 0b1111_1111;

    // Simulate a timer overflow, the interrupt shouldn't be fired immediately
    timer.step(&mut int_reg);
    assert_eq!(timer.counter, 0b0000_0000);
    assert!(!int_reg.contains(InterruptRegister::timer()));

    timer.step(&mut int_reg);
    assert_eq!(timer.counter, 0b0000_0000);
    assert!(int_reg.contains(InterruptRegister::timer()));
}

#[test]
fn timer_test_timer_read() {
    let mut timer = Timer::default();
    timer.divider = 0b1111_1111;
    timer.counter = 0b1010_1010;
    timer.modulo = 0b1011_1011;
    timer.control = TimerControl::from_bits_truncate(0b0000_0100);

    assert_eq!(timer.read(TIMER_DIVIDER), 0b0000_0011);
    assert_eq!(timer.read(TIMER_COUNTER), 0b1010_1010);
    assert_eq!(timer.read(TIMER_MODULO), 0b1011_1011);
    assert_eq!(
        timer.read(TIMER_CTRL),
        0b11111100,
        "Undocumented bits should be 1"
    );
}

#[test]
fn tests_test_bit_at() {
    let x = 0b11110000u8;
    assert!(!bit_at(x, 3));
    assert!(bit_at(x, 4));
}

#[test]
fn tests_test_set_bit() {
    let x = 0b11110000u8;
    assert_eq!(set_bit(x, 0, true), 0b11110001u8);
    assert_eq!(set_bit(x, 1, true), 0b11110010u8);
    assert_eq!(set_bit(x, 0, false), 0b11110000u8);
    assert_eq!(set_bit(x, 7, false), 0b01110000u8);
}

#[test]
fn tests_test_half_carry_u8_true() {
    let x = 62;
    let y = 34;
    assert!(half_carry_u8(x, y));
}

#[test]
fn tests_test_half_carry_u8_false() {
    let x = 34;
    let y = 34;
    assert!(!half_carry_u8(x, y));
}

#[test]
fn test_timer_counter() {
    let mut int_reg = InterruptRegister::empty();
    let mut timer = Timer::default();
    timer.control = TimerControl::from_bits_truncate(0b0000_0101);
    timer.divider = 0b0001_0111;
    assert!(timer.control.is_enabled());

    timer.step(&mut int_reg);
    assert_eq!(timer.divider, 0b0001_1000);
    assert_eq!(timer.counter, 0b0000_0001);
    assert!(!int_reg.contains(InterruptRegister::timer()));
}

#[test]
fn tests_test_timer_counter_overflow() {
    let mut int_reg = InterruptRegister::empty();
    let mut timer = Timer::default();
    timer.control = TimerControl::from_bits_truncate(0b0000_0101);
    timer.divider = 0b0001_0011;
    timer.counter = 0b1111_1111;

    // Simulate a timer overflow, the interrupt shouldn't be fired immediately
    timer.step(&mut int_reg);
    assert_eq!(timer.counter, 0b0000_0000);
    assert!(!int_reg.contains(InterruptRegister::timer()));

    timer.step(&mut int_reg);
    assert_eq!(timer.counter, 0b0000_0000);
    assert!(int_reg.contains(InterruptRegister::timer()));
}

#[test]
fn tests_test_interrupt_flags_read() {
    let mut flags = InterruptRegister::all();
    assert_eq!(flags.bits(), 0b0001_1111);

    flags.remove(InterruptRegister::vblank());
    assert_eq!(flags.bits(), 0b0001_1110);

    flags.remove(InterruptRegister::stat());
    assert_eq!(flags.bits(), 0b0001_1100);

    flags.remove(InterruptRegister::timer());
    assert_eq!(flags.bits(), 0b0001_1000);

    flags.remove(InterruptRegister::serial());
    assert_eq!(flags.bits(), 0b0001_0000);

    flags.remove(InterruptRegister::joypad());
    assert_eq!(flags.bits(), 0b0000_0000);
}

#[test]
fn tests_test_interrupt_flags_write() {
    let mut flags = InterruptRegister::from_bits_retain(0b1111_1110);
    assert!(!flags.contains(InterruptRegister::vblank()));

    flags = InterruptRegister::from_bits_retain(0b1111_1100);
    assert!(!flags.contains(InterruptRegister::stat()));

    flags = InterruptRegister::from_bits_retain(0b1111_1000);
    assert!(!flags.contains(InterruptRegister::timer()));

    flags = InterruptRegister::from_bits_retain(0b1111_0000);
    assert!(!flags.contains(InterruptRegister::serial()));

    flags = InterruptRegister::from_bits_retain(0b1110_0000);
    assert!(!flags.contains(InterruptRegister::joypad()));
}
