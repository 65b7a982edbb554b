use lib::bus::InterruptRegister;
use lib::ppu::buffer::FrameBuffer;
use lib::ppu::misc::ColoredPixel;
use lib::ppu::registers::PPUMode;
use lib::ppu::{
    PPU, PPU_BGP, PPU_DMA, PPU_LCDC, PPU_LY, PPU_LYC, PPU_OBP0, PPU_OBP1, PPU_SCX, PPU_STAT,
};

fn ppu_with_display() -> PPU {
    PPU::new(Some(FrameBuffer::new()))
}

fn pixel(ppu: &PPU, x: usize, y: usize) -> ColoredPixel {
    ppu.display.as_ref().unwrap().buffer[y * 160 + x]
}

/// Tile 1 is color 1 everywhere, tile 2 color 3; the map entry at the top left names
/// tile 1 and all others tile 0 (color 0).
fn load_tiles(ppu: &mut PPU) {
    for row in 0..8u16 {
        ppu.write(0x8010 + row * 2, 0xFF);
        ppu.write(0x8010 + row * 2 + 1, 0x00);
        ppu.write(0x8020 + row * 2, 0xFF);
        ppu.write(0x8020 + row * 2 + 1, 0xFF);
    }
    ppu.write(0x9800, 1);
    ppu.write(PPU_BGP, 0b11_10_01_00);
    ppu.write(PPU_OBP0, 0b11_10_01_00);
}

fn write_sprite(ppu: &mut PPU, index: u16, y: u8, x: u8, tile: u8, attributes: u8) {
    let base = 0xFE00 + index * 4;
    ppu.write(base, y + 16);
    ppu.write(base + 1, x + 8);
    ppu.write(base + 2, tile);
    ppu.write(base + 3, attributes);
}

/// Runs the unit until line 1 is drawn (it starts in a horizontal blank of line 0).
fn draw_line_one(ppu: &mut PPU) {
    let mut irq = InterruptRegister::empty();
    for _ in 0..85 {
        ppu.step(&mut irq);
    }
    assert_eq!(ppu.r.ly, 1);
    assert_eq!(ppu.r.lcd_stat.mode(), PPUMode::HBlank);
}

#[test]
fn ppu_registers_read_back() {
    let mut ppu = PPU::default();
    ppu.write(PPU_STAT, 0xFF);
    // The mode bits stay, bit 7 reads as 1.
    assert_eq!(ppu.read(PPU_STAT), 0xFC);
    ppu.write(PPU_LY, 5);
    assert_eq!(ppu.read(PPU_LY), 0);
    ppu.write(PPU_BGP, 0xE4);
    assert_eq!(ppu.read(PPU_BGP), 0xE4);
    ppu.write(PPU_SCX, 3);
    assert_eq!(ppu.read(PPU_SCX), 3);
    ppu.write(0x8000, 0x12);
    assert_eq!(ppu.read(0x8000), 0x12);
    ppu.write(0xFE00, 0x34);
    assert_eq!(ppu.read(0xFE00), 0x34);
    ppu.write(PPU_DMA, 0xC1);
    assert_eq!(ppu.r.oam_dma.requested, Some(0xC1));
}

#[test]
fn ppu_turning_the_lcd_on_and_off() {
    let mut ppu = PPU::default();
    ppu.write(PPU_LCDC, 0x80);
    assert_eq!(ppu.r.lcd_stat.mode(), PPUMode::HBlank);
    assert_eq!(ppu.cycles, 21);
    assert_eq!(ppu.read(PPU_STAT) & 0b100, 0b100);
    let mut irq = InterruptRegister::empty();
    for _ in 0..20 {
        assert!(!ppu.step(&mut irq));
    }
    assert_eq!(ppu.r.ly, 0);
    ppu.step(&mut irq);
    assert_eq!(ppu.r.ly, 1);
    assert_eq!(ppu.r.lcd_stat.mode(), PPUMode::OAMScan);
    assert_eq!(ppu.read(PPU_STAT) & 0b100, 0);
    ppu.write(PPU_LCDC, 0x00);
    assert_eq!(ppu.r.ly, 0);
    let before = ppu.cycles;
    ppu.step(&mut irq);
    assert_eq!(ppu.cycles, before);
}

#[test]
fn ppu_video_ram_is_closed_during_the_pixel_transfer() {
    let mut ppu = PPU::default();
    ppu.write(PPU_LCDC, 0x80);
    let mut irq = InterruptRegister::empty();
    for _ in 0..42 {
        ppu.step(&mut irq);
    }
    assert_eq!(ppu.r.lcd_stat.mode(), PPUMode::PixelTransfer);
    ppu.write(0x8000, 0x55);
    assert_eq!(ppu.read(0x8000), 0xFF);
    assert_eq!(ppu.read(0xFE00), 0xFF);
    assert_eq!(ppu.vram[0], 0);
}

#[test]
fn ppu_frame_completes_with_a_vblank_interrupt() {
    let mut ppu = ppu_with_display();
    ppu.write(PPU_LCDC, 0x80);
    let mut irq = InterruptRegister::empty();
    let mut steps = 0;
    while !ppu.step(&mut irq) {
        steps += 1;
    }
    // 21 cycles of the first blank, then 143 lines of 115 cycles.
    assert_eq!(steps + 1, 21 + 143 * 115);
    assert_eq!(ppu.r.ly, 144);
    assert_eq!(ppu.r.lcd_stat.mode(), PPUMode::VBlank);
    assert!(irq.contains(InterruptRegister::vblank()));
    for _ in 0..10 * 114 {
        ppu.step(&mut irq);
    }
    assert_eq!(ppu.r.ly, 0);
    assert_eq!(ppu.r.lcd_stat.mode(), PPUMode::OAMScan);
}

#[test]
fn ppu_headless_frame_is_not_reported() {
    let mut ppu = PPU::default();
    ppu.write(PPU_LCDC, 0x80);
    let mut irq = InterruptRegister::empty();
    for _ in 0..21 + 143 * 115 {
        assert!(!ppu.step(&mut irq));
    }
    assert_eq!(ppu.r.ly, 144);
}

#[test]
fn ppu_lyc_interrupt() {
    let mut ppu = PPU::default();
    ppu.write(PPU_LYC, 1);
    ppu.write(PPU_STAT, 0b0100_0000);
    ppu.write(PPU_LCDC, 0x80);
    let mut irq = InterruptRegister::empty();
    for _ in 0..21 {
        ppu.step(&mut irq);
    }
    assert_eq!(ppu.r.ly, 1);
    assert!(irq.contains(InterruptRegister::stat()));
    assert_eq!(ppu.read(PPU_STAT) & 0b100, 0b100);
}

#[test]
fn ppu_draws_the_background() {
    let mut ppu = ppu_with_display();
    load_tiles(&mut ppu);
    ppu.write(PPU_LCDC, 0x80 | 0x10 | 0x01);
    draw_line_one(&mut ppu);
    for x in 0..8 {
        assert_eq!(pixel(&ppu, x, 1), ColoredPixel::LightGrey);
    }
    for x in 8..160 {
        assert_eq!(pixel(&ppu, x, 1), ColoredPixel::White);
    }
    // Line 2 is not drawn yet.
    assert_eq!(pixel(&ppu, 0, 2), ColoredPixel::White);
}

#[test]
fn ppu_draws_a_sprite_over_the_background() {
    let mut ppu = ppu_with_display();
    load_tiles(&mut ppu);
    write_sprite(&mut ppu, 0, 1, 4, 2, 0);
    ppu.write(PPU_LCDC, 0x80 | 0x10 | 0x02 | 0x01);
    draw_line_one(&mut ppu);
    for x in 0..4 {
        assert_eq!(pixel(&ppu, x, 1), ColoredPixel::LightGrey);
    }
    for x in 4..12 {
        assert_eq!(pixel(&ppu, x, 1), ColoredPixel::Black);
    }
    assert_eq!(pixel(&ppu, 12, 1), ColoredPixel::White);
}

#[test]
fn ppu_sprite_behind_the_background() {
    let mut ppu = ppu_with_display();
    load_tiles(&mut ppu);
    write_sprite(&mut ppu, 0, 1, 4, 2, 0x80);
    ppu.write(PPU_LCDC, 0x80 | 0x10 | 0x02 | 0x01);
    draw_line_one(&mut ppu);
    for x in 4..8 {
        assert_eq!(pixel(&ppu, x, 1), ColoredPixel::LightGrey);
    }
    for x in 8..12 {
        assert_eq!(pixel(&ppu, x, 1), ColoredPixel::Black);
    }
}

#[test]
fn ppu_lower_x_sprite_shows_on_top() {
    let mut ppu = ppu_with_display();
    load_tiles(&mut ppu);
    ppu.write(PPU_OBP1, 0b01_00_00_00);
    // The later OAM entry has the lower X and wins where they overlap.
    write_sprite(&mut ppu, 0, 1, 6, 2, 0x10);
    write_sprite(&mut ppu, 1, 1, 4, 2, 0);
    ppu.write(PPU_LCDC, 0x80 | 0x10 | 0x02);
    draw_line_one(&mut ppu);
    for x in 4..12 {
        assert_eq!(pixel(&ppu, x, 1), ColoredPixel::Black);
    }
    for x in 12..14 {
        assert_eq!(pixel(&ppu, x, 1), ColoredPixel::LightGrey);
    }
    // Without BG_EN the rest of the line keeps its old colors.
    assert_eq!(pixel(&ppu, 0, 1), ColoredPixel::White);
}

#[test]
fn ppu_clone_drops_the_display() {
    let ppu = ppu_with_display();
    let copy = ppu.clone();
    assert!(copy.display.is_none());
    assert_eq!(copy.cycles, ppu.cycles);
}
