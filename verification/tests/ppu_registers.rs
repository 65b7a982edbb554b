use lib::ppu::misc::{ColoredPixel, Palette, Pixel};
use lib::ppu::pixel_from_line;
use lib::ppu::registers::{LCDState, PPUMode};

#[test]
    fn registers_test_get_lcd_mode() {
        let mut state = LCDState::empty();
        assert_eq!(state.mode(), PPUMode::HBlank);

        state = LCDState::ppu_mode1();
        assert_eq!(state.mode(), PPUMode::VBlank);

        state = LCDState::ppu_mode2();
        assert_eq!(state.mode(), PPUMode::OAMScan);

        state = LCDState::ppu_mode1().union(LCDState::ppu_mode2());
        assert_eq!(state.mode(), PPUMode::PixelTransfer);
    }

#[test]
    fn registers_test_set_lcd_mode() {
        let mut state = LCDState::empty();
        state.set_mode(PPUMode::HBlank);
        assert_eq!(state.bits(), 0b00000000);

        state.set_mode(PPUMode::VBlank);
        assert_eq!(state.bits(), 0b00000001);

        state.set_mode(PPUMode::OAMScan);
        assert_eq!(state.bits(), 0b00000010);

        state.set_mode(PPUMode::PixelTransfer);
        assert_eq!(state.bits(), 0b00000011);
    }

#[test]
fn tests_test_get_lcd_mode() {
    let mut state = LCDState::empty();
    assert_eq!(state.mode(), PPUMode::HBlank);

    state = LCDState::ppu_mode1();
    assert_eq!(state.mode(), PPUMode::VBlank);

    state = LCDState::ppu_mode2();
    assert_eq!(state.mode(), PPUMode::OAMScan);

    state = LCDState::ppu_mode1().union(LCDState::ppu_mode2());
    assert_eq!(state.mode(), PPUMode::PixelTransfer);
}

#[test]
fn tests_test_set_lcd_mode() {
    let mut state = LCDState::empty();
    state.set_mode(PPUMode::HBlank);
    assert_eq!(state.bits(), 0b00000000);

    state.set_mode(PPUMode::VBlank);
    assert_eq!(state.bits(), 0b00000001);

    state.set_mode(PPUMode::OAMScan);
    assert_eq!(state.bits(), 0b00000010);

    state.set_mode(PPUMode::PixelTransfer);
    assert_eq!(state.bits(), 0b00000011);
}

#[test]
fn test_palette() {
    let palette = Palette::from(0b11_10_01_00);
    assert_eq!(palette.colorize(Pixel::Zero), ColoredPixel::White);
    assert_eq!(palette.colorize(Pixel::One), ColoredPixel::LightGrey);
    assert_eq!(palette.colorize(Pixel::Two), ColoredPixel::DarkGrey);
    assert_eq!(palette.colorize(Pixel::Three), ColoredPixel::Black);
    assert_eq!(u8::from(palette), 0b11_10_01_00);
}

#[test]
fn test_pixel() {
    let data = vec![
        (0b00, Pixel::Zero),
        (0b01, Pixel::One),
        (0b10, Pixel::Two),
        (0b11, Pixel::Three),
    ];
    for (value, pixel) in data {
        assert_eq!(u8::from(pixel), value);
        assert_eq!(Pixel::from(value), pixel);
    }

    assert_eq!(Pixel::from(0b1111_1111), Pixel::Three);
    assert_eq!(Pixel::from(0b0101_1100), Pixel::Zero);
}

#[test]
fn test_colored_pixel() {
    let data = vec![
        (0b00, ColoredPixel::White),
        (0b01, ColoredPixel::LightGrey),
        (0b10, ColoredPixel::DarkGrey),
        (0b11, ColoredPixel::Black),
    ];
    for (value, pixel) in data {
        assert_eq!(u8::from(pixel), value);
        assert_eq!(ColoredPixel::from(value), pixel);
    }

    assert_eq!(ColoredPixel::from(0b1111_1111), ColoredPixel::Black);
    assert_eq!(ColoredPixel::from(0b0101_1100), ColoredPixel::White);
}

#[test]
fn test_pixel_from_line() {
    let data = vec![
        (0b0000_0000, 0b0000_0000, 0, Pixel::Zero),
        (0b1111_1111, 0b1111_1111, 1, Pixel::Three),
        (0b1010_1010, 0b0101_0101, 2, Pixel::Two),
        (0b1100_1100, 0b0011_0011, 3, Pixel::One),
        (0b1111_0000, 0b0000_1111, 4, Pixel::One),
        (0b0000_1111, 0b1111_0000, 5, Pixel::Two),
        (0b1100_0011, 0b0011_1100, 6, Pixel::One),
        (0b0011_1100, 0b0100_0011, 7, Pixel::Zero),
    ];
    for (byte1, byte2, index, expected) in data {
        let pixel = pixel_from_line(byte1, byte2, index);
        assert_eq!(pixel, expected);
    }
}
