use lib::display::translate_color;
use lib::ppu::buffer::FrameBuffer;
use lib::ppu::misc::ColoredPixel;

#[test]
fn test_frame_buffer_handling() {
    let screen_width = 160;
    let screen_height = 144;

    let mut frame = FrameBuffer::new();
    assert_eq!(frame.width(), screen_width);
    assert_eq!(frame.height(), screen_height);
    assert_eq!(frame.buffer.len(), screen_width * screen_height);

    frame.write_pixel(0, 0, ColoredPixel::Black);
    frame.write_pixel(10, 0, ColoredPixel::LightGrey);
    frame.write_pixel(0, 10, ColoredPixel::DarkGrey);

    assert_eq!(frame.buffer[0], ColoredPixel::Black);
    assert_eq!(frame.buffer[10], ColoredPixel::LightGrey);
    assert_eq!(frame.buffer[screen_width * 10], ColoredPixel::DarkGrey);
    assert_eq!(frame.buffer[1], ColoredPixel::White);
}

#[test]
fn test_translate_color() {
    assert_eq!(translate_color(ColoredPixel::White), (0xff, 0xff, 0xff));
    assert_eq!(translate_color(ColoredPixel::LightGrey), (0xab, 0xab, 0xab));
    assert_eq!(translate_color(ColoredPixel::DarkGrey), (0x55, 0x55, 0x55));
    assert_eq!(translate_color(ColoredPixel::Black), (0x00, 0x00, 0x00));
}

#[test]
fn frame_buffer_into_vec_keeps_the_pixels() {
    let mut frame = FrameBuffer::new();
    frame.write_pixel(159, 143, ColoredPixel::Black);
    let pixels = frame.into_vec();
    assert_eq!(pixels.len(), 160 * 144);
    assert_eq!(pixels[160 * 144 - 1], ColoredPixel::Black);
}
