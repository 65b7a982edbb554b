use lib::debugger::{parse_address, AddressError, BreakpointHandler, DialogKey};
use lib::text::hex_u16;

#[test]
fn parse_address_reads_hexadecimal_numbers() {
    assert_eq!(parse_address("0x1234"), Ok(0x1234));
    assert_eq!(parse_address("ffff"), Ok(0xFFFF));
    assert_eq!(parse_address("C3"), Ok(0xC3));
    assert_eq!(parse_address("+12"), Ok(0x12));
    assert_eq!(parse_address("0x0x00ff"), Ok(0xFF));
}

#[test]
fn parse_address_reports_each_error() {
    assert_eq!(parse_address(""), Err(AddressError::Empty));
    assert_eq!(parse_address("0x"), Err(AddressError::Empty));
    assert_eq!(parse_address("+"), Err(AddressError::InvalidDigit));
    assert_eq!(parse_address("-1"), Err(AddressError::InvalidDigit));
    assert_eq!(parse_address("12g4"), Err(AddressError::InvalidDigit));
    assert_eq!(parse_address("0X12"), Err(AddressError::InvalidDigit));
    assert_eq!(parse_address("10000"), Err(AddressError::Overflow));
    // The digits are read from the left: the bad digit comes first here.
    assert_eq!(parse_address("1g0000"), Err(AddressError::InvalidDigit));
    assert_eq!(parse_address("100000g"), Err(AddressError::Overflow));
}

#[test]
fn listed_addresses_read_back() {
    for address in [0x0000u16, 0x0100, 0xBEEF, 0xFFFF] {
        assert_eq!(parse_address(&hex_u16(address)), Ok(address));
    }
}

fn type_text(handler: &mut BreakpointHandler, text: &str) {
    for c in text.chars() {
        handler.handle_dialog_input(DialogKey::Char(c));
    }
}

#[test]
fn dialog_marks_the_typed_address() {
    let mut handler = BreakpointHandler::new();
    handler.active = true;
    type_text(&mut handler, "0x1x");
    handler.handle_dialog_input(DialogKey::Backspace);
    type_text(&mut handler, "50");
    handler.handle_dialog_input(DialogKey::Other);
    assert_eq!(handler.input, "0x150");
    handler.handle_dialog_input(DialogKey::Char('\n'));
    assert!(handler.contains(0x150));
    assert!(!handler.active);
    assert!(handler.input.is_empty());
}

#[test]
fn dialog_stays_open_on_a_bad_address() {
    let mut handler = BreakpointHandler::new();
    handler.active = true;
    type_text(&mut handler, "zz");
    handler.handle_dialog_input(DialogKey::Char('\n'));
    assert!(handler.active);
    assert!(handler.input.is_empty());
    assert!(handler.breakpoints.is_empty());
    handler.handle_dialog_input(DialogKey::Backspace);
    assert!(handler.input.is_empty());
}
