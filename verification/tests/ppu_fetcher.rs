use lib::ppu::fetcher::{Fetcher, FetcherState};
use lib::ppu::misc::{ColoredPixel, Palette};
use lib::ppu::registers::{Registers, TILE_SEL};

fn video_ram() -> Vec<u8> {
    vec![0u8; 0x2000]
}

fn registers(lcdc: u8) -> Registers {
    let mut r = Registers::default();
    r.lcd_control.bits = lcdc;
    r.bg_palette = Palette::from_bits(0b11_10_01_00);
    r
}

#[test]
fn fetcher_pushes_one_tile_row_with_unsigned_addressing() {
    let mut vram = video_ram();
    // Background map entry at 0x9800 names tile 1; its first row lives at 0x8010.
    vram[0x1800] = 1;
    vram[0x0010] = 0b1010_0000;
    vram[0x0011] = 0b1100_0000;
    let r = registers(TILE_SEL);
    let mut fetcher = Fetcher::default();
    fetcher.start(&r, 0x9800, 0);
    assert_eq!(fetcher.tile_address, 0x8000);
    for _ in 0..7 {
        fetcher.step(&r, &vram);
    }
    assert_eq!(fetcher.state, FetcherState::PushToFIFO);
    assert!(fetcher.fifo.is_empty());
    fetcher.step(&r, &vram);
    assert_eq!(
        fetcher.fifo,
        vec![
            ColoredPixel::Black,
            ColoredPixel::DarkGrey,
            ColoredPixel::LightGrey,
            ColoredPixel::White,
            ColoredPixel::White,
            ColoredPixel::White,
            ColoredPixel::White,
            ColoredPixel::White,
        ]
    );
    assert_eq!(fetcher.tile_index, 1);
    assert_eq!(fetcher.state, FetcherState::ReadTileID);
}

#[test]
fn fetcher_reads_signed_tile_numbers_with_the_8800_addressing() {
    let mut vram = video_ram();
    // Tile number 0xFF is -1 here, whose second row lives at 0x8FF2.
    vram[0x1800] = 0xFF;
    vram[0x0FF2] = 0b0000_0001;
    vram[0x0FF3] = 0b0000_0001;
    let r = registers(0);
    let mut fetcher = Fetcher::default();
    fetcher.start(&r, 0x9800, 1);
    assert_eq!(fetcher.tile_address, 0x8800);
    fetcher.step(&r, &vram);
    fetcher.step(&r, &vram);
    assert_eq!(fetcher.tile_id, -1);
    for _ in 0..6 {
        fetcher.step(&r, &vram);
    }
    assert_eq!(fetcher.fifo.len(), 8);
    assert_eq!(fetcher.fifo[7], ColoredPixel::Black);
    assert_eq!(fetcher.fifo[0], ColoredPixel::White);
}

#[test]
fn fetcher_waits_while_the_fifo_is_full() {
    let vram = video_ram();
    let r = registers(TILE_SEL);
    let mut fetcher = Fetcher::default();
    fetcher.start(&r, 0x9800, 0);
    for _ in 0..16 {
        fetcher.step(&r, &vram);
    }
    assert_eq!(fetcher.fifo.len(), 16);
    assert_eq!(fetcher.tile_index, 2);
    // With more than eight pixels waiting, the push is put off.
    for _ in 0..8 {
        fetcher.step(&r, &vram);
    }
    assert_eq!(fetcher.fifo.len(), 16);
    assert_eq!(fetcher.state, FetcherState::PushToFIFO);
}
