//! The LCD control and status registers.
use crate::oam::OamDmaController;
use crate::ppu::misc::{ColoredPixel, Palette};
use crate::ppu::{ACCESS_OAM_CYCLES, ACCESS_VRAM_CYCLES, HBLANK_CYCLES, VBLANK_LINE_CYCLES};
use vstd::prelude::*;

verus! {

/// Holds all PPU Registers.
#[derive(Copy, Clone, Debug)]
pub struct Registers {
    pub lcd_control: LCDControl,  // PPU_LCDC
    pub lcd_stat: LCDState,  // PPU_STAT
    pub ly: u8,  // PPU_LY
    pub lyc: u8,  // PPU_LYC
    pub oam_dma: OamDmaController,  // PPU_DMA
    pub scy: u8,  // PPU_SCY
    pub scx: u8,  // PPU_SCX
    pub bg_palette: Palette,  // PPU_BGP
    pub obj_palette0: Palette,  // PPU_OBP0
    pub obj_palette1: Palette,  // PPU_OBP1
    pub wy: u8,  // PPU_WY
    pub wx: u8,  // PPU_WX
}

impl Default for Registers {
    fn default() -> (r: Self)
        ensures
            r.lcd_control.bits == 0,
            r.lcd_stat.bits == 0,
            r.ly == 0 && r.lyc == 0 && r.scy == 0 && r.scx == 0 && r.wy == 0 && r.wx == 0,
            r.oam_dma == OamDmaController::default_spec(),
            r.bg_palette.map@ == seq![ColoredPixel::White, ColoredPixel::White, ColoredPixel::White, ColoredPixel::White],
            r.obj_palette0.map@ == seq![ColoredPixel::White, ColoredPixel::White, ColoredPixel::White, ColoredPixel::White],
            r.obj_palette1.map@ == seq![ColoredPixel::White, ColoredPixel::White, ColoredPixel::White, ColoredPixel::White],
    {
        let r = Registers {
            lcd_control: LCDControl::default(),
            lcd_stat: LCDState::default(),
            ly: 0,
            lyc: 0,
            oam_dma: OamDmaController::default(),
            scy: 0,
            scx: 0,
            bg_palette: Palette::default(),
            obj_palette0: Palette::default(),
            obj_palette1: Palette::default(),
            wy: 0,
            wx: 0,
        };
        assert(r.bg_palette.map@ =~= seq![ColoredPixel::White, ColoredPixel::White, ColoredPixel::White, ColoredPixel::White]);
        assert(r.obj_palette0.map@ =~= seq![ColoredPixel::White, ColoredPixel::White, ColoredPixel::White, ColoredPixel::White]);
        assert(r.obj_palette1.map@ =~= seq![ColoredPixel::White, ColoredPixel::White, ColoredPixel::White, ColoredPixel::White]);
        r
    }
}

/// Represents PPU_LCDC at 0xFF40: bit 0 enables the background, bit 1 the objects, bit 2
/// selects the object size, bit 3 the background tile map, bit 4 the tile data, bit 5
/// enables the window, bit 6 selects the window tile map, bit 7 enables the LCD.
#[derive(Copy, Clone, PartialEq, Eq, Structural, Debug)]
pub struct LCDControl {
    pub bits: u8,
}

/// Bit 0 of LCDC: the background is drawn.
pub const BG_EN: u8 = 0b0000_0001;

/// Bit 1 of LCDC: the objects (sprites) are drawn.
pub const OBJ_EN: u8 = 0b0000_0010;

/// Bit 2 of LCDC: objects are 8x16 pixels instead of 8x8.
pub const OBJ_SIZE: u8 = 0b0000_0100;

/// Bit 4 of LCDC: the tile data area of background and window (1 = 0x8000).
pub const TILE_SEL: u8 = 0b0001_0000;

/// Bit 5 of LCDC: the window is drawn.
pub const WIN_EN: u8 = 0b0010_0000;

/// Bit 7 of LCDC: the LCD and the PPU are on.
pub const LCD_EN: u8 = 0b1000_0000;

/// Bit 3 of LCDC: the background tile map.
pub const BG_MAP: u8 = 0b0000_1000;

/// Bit 6 of LCDC: the window tile map.
pub const WIN_MAP: u8 = 0b0100_0000;

impl LCDControl {
    /// `WIN_MAP` controls which background map the Window uses for rendering.
    /// When it’s clear (0), the 0x9800 tilemap is used, otherwise it’s the 0x9C00 one.
    pub fn window_tile_map_area(&self) -> (r: u16)
        ensures
            r == if self.bits & WIN_MAP != 0 { 0x9C00u16 } else { 0x9800u16 },
    {
        if self.bits & WIN_MAP != 0 {
            0x9C00
        } else {
            0x9800
        }
    }

    /// `BG_MAP` works similarly to `WIN_MAP`: if the bit is clear (0),
    /// the BG uses tilemap 0x9800, otherwise tilemap 0x9C00.
    pub fn bg_tile_map_area(&self) -> (r: u16)
        ensures
            r == if self.bits & BG_MAP != 0 { 0x9C00u16 } else { 0x9800u16 },
    {
        if self.bits & BG_MAP != 0 {
            0x9C00
        } else {
            0x9800
        }
    }
}

/// Represents PPU_STAT at 0xFF41: bits 0-1 hold the PPU mode, bit 2 is set when LY equals
/// LYC, and bits 3-6 select the sources of the STAT interrupt.
#[derive(Copy, Clone, PartialEq, Eq, Structural, Debug)]
pub struct LCDState {
    pub bits: u8,
}

/// Bit 2 of STAT: LY equals LYC.
pub const LYC_STAT: u8 = 0b0000_0100;

/// Bit 3 of STAT: the horizontal blank (mode 0) requests the STAT interrupt.
pub const H_BLANK_INT: u8 = 0b0000_1000;

/// Bit 4 of STAT: the vertical blank (mode 1) requests the STAT interrupt.
pub const V_BLANK_INT: u8 = 0b0001_0000;

/// Bit 5 of STAT: the OAM scan (mode 2) requests the STAT interrupt.
pub const OAM_INT: u8 = 0b0010_0000;

/// Bit 6 of STAT: LY reaching LYC requests the STAT interrupt.
pub const LY_INT: u8 = 0b0100_0000;

/// Represents the first two bits in `LCDState` for convenience.
#[derive(Copy, Clone, PartialEq, Eq, Structural, Debug)]
pub enum PPUMode {
    HBlank,  // Mode 0
    VBlank,  // Mode 1
    OAMScan,  // Mode 2
    PixelTransfer,  // Mode 3
}

/// The mode with the number in the two lowest bits of `value`.
pub open spec fn mode_of(value: u8) -> PPUMode {
    let v = value % 4;
    if v == 0 {
        PPUMode::HBlank
    } else if v == 1 {
        PPUMode::VBlank
    } else if v == 2 {
        PPUMode::OAMScan
    } else {
        PPUMode::PixelTransfer
    }
}

impl PPUMode {
    /// The mode number, 0 to 3.
    pub open spec fn number(self) -> u8 {
        match self {
            PPUMode::HBlank => 0b00,
            PPUMode::VBlank => 0b01,
            PPUMode::OAMScan => 0b10,
            PPUMode::PixelTransfer => 0b11,
        }
    }

    /// Returns the number of machine cycles the mode lasts on one line.
    pub fn cycles(self) -> (r: usize)
        ensures
            r == match self {
                PPUMode::OAMScan => ACCESS_OAM_CYCLES,
                PPUMode::PixelTransfer => ACCESS_VRAM_CYCLES,
                PPUMode::HBlank => HBLANK_CYCLES,
                PPUMode::VBlank => VBLANK_LINE_CYCLES,
            },
    {
        match self {
            PPUMode::OAMScan => ACCESS_OAM_CYCLES,
            PPUMode::PixelTransfer => ACCESS_VRAM_CYCLES,
            PPUMode::HBlank => HBLANK_CYCLES,
            PPUMode::VBlank => VBLANK_LINE_CYCLES,
        }
    }

    /// The mode with the number in the two lowest bits of `value`.
    pub fn from_bits(value: u8) -> (r: Self)
        ensures
            r == mode_of(value),
    {
        let v = value % 4;
        if v == 0 {
            PPUMode::HBlank
        } else if v == 1 {
            PPUMode::VBlank
        } else if v == 2 {
            PPUMode::OAMScan
        } else {
            PPUMode::PixelTransfer
        }
    }

    /// The mode number.
    pub fn bits(self) -> (r: u8)
        ensures
            r == self.number(),
    {
        match self {
            PPUMode::HBlank => 0b00,
            PPUMode::VBlank => 0b01,
            PPUMode::OAMScan => 0b10,
            PPUMode::PixelTransfer => 0b11,
        }
    }
}

impl From<u8> for PPUMode {
    fn from(value: u8) -> (r: Self) {
        PPUMode::from_bits(value)
    }
}

impl vstd::std_specs::convert::FromSpecImpl<u8> for PPUMode {
    open spec fn obeys_from_spec() -> bool {
        true
    }

    open spec fn from_spec(value: u8) -> Self {
        mode_of(value)
    }
}

impl LCDState {
    /// The register with no bit set.
    pub fn empty() -> (r: Self)
        ensures
            r.bits == 0,
    {
        LCDState { bits: 0 }
    }

    /// Bit 0 of the mode.
    pub fn ppu_mode1() -> (r: Self)
        ensures
            r.bits == 0b0000_0001,
    {
        LCDState { bits: 0b0000_0001 }
    }

    /// Bit 1 of the mode.
    pub fn ppu_mode2() -> (r: Self)
        ensures
            r.bits == 0b0000_0010,
    {
        LCDState { bits: 0b0000_0010 }
    }

    /// The register with the given bits; bit 7, which has no meaning, is dropped.
    pub fn from_bits_truncate(bits: u8) -> (r: Self)
        ensures
            r.bits == bits & 0b0111_1111,
    {
        LCDState { bits: bits & 0b0111_1111 }
    }

    /// The raw register value.
    pub fn bits(&self) -> (r: u8)
        ensures
            r == self.bits,
    {
        self.bits
    }

    /// The bits set in either register.
    pub fn union(self, other: Self) -> (r: Self)
        ensures
            r.bits == self.bits | other.bits,
    {
        LCDState { bits: self.bits | other.bits }
    }

    /// Returns the `PPUMode` based on the first two bits of `PPU_STAT`.
    pub fn mode(&self) -> (r: PPUMode)
        ensures
            r == mode_of(self.bits),
    {
        PPUMode::from_bits(self.bits)
    }

    /// Sets the first two bits of `PPU_STAT` to the given `PPUMode`.
    pub fn set_mode(&mut self, mode: PPUMode)
        ensures
            final(self).bits == ((old(self).bits & 0b1111_1100) | mode.number()) & 0b0111_1111,
    {
        self.bits = ((self.bits & 0b1111_1100) | mode.bits()) & 0b0111_1111;
    }
}

impl Default for LCDState {
    fn default() -> (r: Self)
        ensures
            r.bits == 0,
    {
        LCDState { bits: 0 }
    }
}

impl Default for LCDControl {
    fn default() -> (r: Self)
        ensures
            r.bits == 0,
    {
        LCDControl { bits: 0 }
    }
}

} // verus!
