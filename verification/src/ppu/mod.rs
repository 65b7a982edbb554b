//! The registers and pixel data of the picture processing unit.
pub mod buffer;
pub mod cgb;
pub mod fetcher;
pub mod misc;
pub mod registers;

use crate::bus::InterruptRegister;
use crate::oam::OamDmaController;
use crate::constants::{OAM_BEGIN, OAM_END, UNDEFINED_READ, VRAM_BEGIN, VRAM_END};
use crate::ppu::buffer::FrameBuffer;
use crate::ppu::misc::{
    lemma_palette_roundtrip, palette_of, pixel_of, ColoredPixel, Palette, Pixel, Sprite, SpriteAttributes, DMG_PALETTE,
    PRIORITY, X_FLIP, Y_FLIP,
};
use crate::ppu::registers::{
    mode_of, LCDControl, LCDState, PPUMode, Registers, BG_EN, BG_MAP, H_BLANK_INT, LCD_EN, LYC_STAT,
    LY_INT, OAM_INT, OBJ_EN, OBJ_SIZE, TILE_SEL, V_BLANK_INT, WIN_EN, WIN_MAP,
};
use crate::utils::{bit_at, bit_spec};
use vstd::array::spec_array_update;
use vstd::prelude::*;

verus! {

/// The width of the screen in pixels.
pub const SCREEN_WIDTH: u8 = 160;

/// The height of the screen in pixels.
pub const SCREEN_HEIGHT: u8 = 144;

/// Machine cycles of the OAM scan (mode 2) of a line.
pub const ACCESS_OAM_CYCLES: usize = 21;

/// Machine cycles of the pixel transfer (mode 3) of a line.
pub const ACCESS_VRAM_CYCLES: usize = 43;

/// Machine cycles of the horizontal blank (mode 0) of a line.
pub const HBLANK_CYCLES: usize = 51;

/// Machine cycles of one line of the vertical blank (mode 1).
pub const VBLANK_LINE_CYCLES: usize = 114;

/// The color number of pixel `bit` of a tile line: bit `bit` of the second byte is its high
/// bit, bit `bit` of the first byte its low bit.
pub open spec fn pixel_from_line_spec(byte1: u8, byte2: u8, bit: u8) -> Pixel {
    pixel_of(
        ((if bit < 8 && bit_spec(byte2, bit as nat) { 2u8 } else { 0u8 }) + (if bit < 8 && bit_spec(
            byte1,
            bit as nat,
        ) {
            1u8
        } else {
            0u8
        })) as u8,
    )
}

/// Returns the pixel of a tile line from its two bytes.
pub fn pixel_from_line(byte1: u8, byte2: u8, bit: u8) -> (r: Pixel)
    ensures
        r == pixel_from_line_spec(byte1, byte2, bit),
{
    let high: u8 = if bit_at(byte2, bit) { 2 } else { 0 };
    let low: u8 = if bit_at(byte1, bit) { 1 } else { 0 };
    Pixel::from_bits(high + low)
}


/// LCDC is the main LCD Control register.
/// Its bits toggle what elements are displayed on the screen, and how.
pub const PPU_LCDC: u16 = 0xFF40;

/// LCD Status register.
pub const PPU_STAT: u16 = 0xFF41;

/// These two registers specify the top-left coordinates of the visible 160×144 pixel
/// area within the 256×256 pixels BG map.
pub const PPU_SCY: u16 = 0xFF42;

pub const PPU_SCX: u16 = 0xFF43;

/// LY indicates the current horizontal line, which might be about to be drawn, being drawn,
/// or just been drawn. LY can hold any value from 0 to 153, with values from 144 to 153
/// indicating the `VBlank` period.
pub const PPU_LY: u16 = 0xFF44;

/// When both `PPU_LYC` and `PPU_LY` values are identical, the “LYC=LY” flag in the STAT
/// register is set.
pub const PPU_LYC: u16 = 0xFF45;

/// Writing to this register requests an OAM DMA transfer, but it’s just a request and the
/// actual DMA transfer starts with a delay.
pub const PPU_DMA: u16 = 0xFF46;

/// This register assigns gray shades to the color indices of the BG and Window tiles.
pub const PPU_BGP: u16 = 0xFF47;

/// These registers assign gray shades to the color indexes of the OBJs that use the
/// corresponding palette.
pub const PPU_OBP0: u16 = 0xFF48;

pub const PPU_OBP1: u16 = 0xFF49;

/// These two registers specify the on-screen coordinates of the Window’s top-left pixel.
pub const PPU_WY: u16 = 0xFF4A;

pub const PPU_WX: u16 = 0xFF4B;

/// The Window is visible (if enabled) when both coordinates are in the ranges WX=0..166,
/// WY=0..143 respectively.
pub const WINDOW_X_MAX: u8 = 166;

pub const WINDOW_Y_MAX: u8 = 143;

/// A frame consists of 154 scanlines; during the first 144, the screen is drawn top to
/// bottom, left to right.
pub const VBLANK_SCAN_LINE_MAX: u8 = 153;

/// Whether `address` is one that the PPU answers: video RAM, OAM or its registers.
pub open spec fn is_ppu_address(address: u16) -> bool {
    (VRAM_BEGIN <= address <= VRAM_END) || (OAM_BEGIN <= address <= OAM_END) || (PPU_LCDC
        <= address <= PPU_WX)
}

/// The machine cycles that `mode` lasts on one line.
pub open spec fn mode_cycles(mode: PPUMode) -> int {
    match mode {
        PPUMode::OAMScan => ACCESS_OAM_CYCLES as int,
        PPUMode::PixelTransfer => ACCESS_VRAM_CYCLES as int,
        PPUMode::HBlank => HBLANK_CYCLES as int,
        PPUMode::VBlank => VBLANK_LINE_CYCLES as int,
    }
}

/// STAT with its mode bits set to `mode`.
pub open spec fn stat_with_mode(bits: u8, mode: PPUMode) -> u8 {
    ((bits & 0b1111_1100) | mode.number()) & 0b0111_1111
}

/// Setting the mode bits of STAT gives that mode and keeps the other bits; setting or
/// clearing the coincidence bit keeps the mode and the interrupt selection.
proof fn lemma_stat_bits(bits: u8, mode: PPUMode)
    ensures
        mode_of(stat_with_mode(bits, mode)) == mode,
        stat_with_mode(bits, mode) & H_BLANK_INT == bits & H_BLANK_INT,
        stat_with_mode(bits, mode) & V_BLANK_INT == bits & V_BLANK_INT,
        stat_with_mode(bits, mode) & OAM_INT == bits & OAM_INT,
        stat_with_mode(bits, mode) & LY_INT == bits & LY_INT,
        mode_of(bits | LYC_STAT) == mode_of(bits),
        mode_of(bits & !LYC_STAT) == mode_of(bits),
        (bits | LYC_STAT) & LY_INT == bits & LY_INT,
        (bits & !LYC_STAT) & LY_INT == bits & LY_INT,
{
    let m = mode.number();
    assert(m < 4);
    assert((((bits & 0b1111_1100) | m) & 0b0111_1111) % 4 == m) by (bit_vector)
        requires m < 4;
    assert(((bits & 0b1111_1100) | m) & 0b0111_1111 & H_BLANK_INT == bits & H_BLANK_INT) by (bit_vector)
        requires m < 4;
    assert(((bits & 0b1111_1100) | m) & 0b0111_1111 & V_BLANK_INT == bits & V_BLANK_INT) by (bit_vector)
        requires m < 4;
    assert(((bits & 0b1111_1100) | m) & 0b0111_1111 & OAM_INT == bits & OAM_INT) by (bit_vector)
        requires m < 4;
    assert(((bits & 0b1111_1100) | m) & 0b0111_1111 & LY_INT == bits & LY_INT) by (bit_vector)
        requires m < 4;
    assert((bits | LYC_STAT) % 4 == bits % 4) by (bit_vector);
    assert((bits & !LYC_STAT) % 4 == bits % 4) by (bit_vector);
    assert((bits | LYC_STAT) & LY_INT == bits & LY_INT) by (bit_vector);
    assert((bits & !LYC_STAT) & LY_INT == bits & LY_INT) by (bit_vector);
}

/// What is written to the PPU reads back: video RAM outside the pixel transfer, OAM in the
/// blanking periods, and the plain registers (LCDC, SCY, SCX, LYC, the three palettes, WY
/// and WX) always.
pub proof fn lemma_ppu_read_back(ppu: PPU, address: u16, value: u8)
    requires
        is_ppu_address(address),
        (VRAM_BEGIN <= address <= VRAM_END) ==> ppu.mode() != PPUMode::PixelTransfer,
        (OAM_BEGIN <= address <= OAM_END) ==> ppu.mode() == PPUMode::HBlank || ppu.mode()
            == PPUMode::VBlank,
        address != PPU_STAT && address != PPU_LY && address != PPU_DMA,
    ensures
        ppu.poked(address, value).peek(address) == value,
{
    if address == PPU_BGP || address == PPU_OBP0 || address == PPU_OBP1 {
        lemma_palette_roundtrip(value);
    }
    if VRAM_BEGIN <= address <= VRAM_END {
        assert(ppu.poked(address, value).mode() == ppu.mode());
    }
    if OAM_BEGIN <= address <= OAM_END {
        assert(ppu.poked(address, value).mode() == ppu.mode());
    }
}

/// A line on which no column hides the sprites.
fn no_priority() -> (r: [bool; 160])
    ensures
        forall|c: int| 0 <= c < 160 ==> !r[c],
{
    broadcast use vstd::array::group_array_axioms;

    let mut r = [false; 160];
    let mut i: usize = 0;
    while i < 160
        invariant
            i <= 160,
            forall|c: int| 0 <= c < i ==> !r[c],
        decreases 160 - i,
    {
        r[i] = false;
        i = i + 1;
    }
    r
}

/// Pixel Processing Unit
#[derive(Debug)]
pub struct PPU {
    pub r: Registers,
    pub vram: [u8; 8192],
    pub oam: [u8; 160],
    pub cycles: isize,
    // This line counter determines what window line is to be rendered on the current
    // scanline. See `<https://gbdev.io/pandocs/Tile_Maps.html#window>`
    pub wy_internal: Option<u8>,
    // The frame being drawn, when a display shows it.
    pub display: Option<FrameBuffer>,
}

impl PPU {
    /// Whether LCDC has all bits of `flag`.
    pub open spec fn lcdc(self, flag: u8) -> bool {
        self.r.lcd_control.bits & flag == flag
    }

    /// Whether STAT has all bits of `flag`.
    pub open spec fn stat_has(self, flag: u8) -> bool {
        self.r.lcd_stat.bits & flag == flag
    }

    /// The current mode, from the two lowest bits of STAT.
    pub open spec fn mode(self) -> PPUMode {
        mode_of(self.r.lcd_stat.bits)
    }

    /// The invariant of the unit: a mode always has cycles left (at most a line of vertical
    /// blank), LY stays below 154 and below 144 outside the vertical blank, the LCD is off
    /// only at line 0 and without window line, the window line counter does not run ahead
    /// of LY, and the frame has one color per pixel.
    pub open spec fn wf(self) -> bool {
        &&& 1 <= self.cycles <= VBLANK_LINE_CYCLES
        &&& self.r.ly <= VBLANK_SCAN_LINE_MAX
        &&& self.mode() != PPUMode::VBlank ==> self.r.ly < SCREEN_HEIGHT
        &&& !self.lcdc(LCD_EN) ==> self.r.ly == 0 && self.wy_internal is None
        &&& self.wy_internal matches Some(v) ==> self.mode() != PPUMode::VBlank && v <= self.r.ly
            + (if self.mode() == PPUMode::HBlank {
            1int
        } else {
            0int
        })
        &&& self.display matches Some(f) ==> f.wf()
    }

    /// Checks the invariant of the unit.
    pub fn is_wf(&self) -> (r: bool)
        ensures
            r == self.wf(),
    {
        broadcast use vstd::array::group_array_axioms;

        let mode = self.r.lcd_stat.mode();
        let lcd_on = self.r.lcd_control.bits & LCD_EN == LCD_EN;
        let window_ok = match self.wy_internal {
            Some(v) => mode != PPUMode::VBlank && (v as u16) <= self.r.ly as u16 + (if mode
                == PPUMode::HBlank {
                1u16
            } else {
                0u16
            }),
            None => true,
        };
        1 <= self.cycles && self.cycles <= VBLANK_LINE_CYCLES as isize && self.r.ly
            <= VBLANK_SCAN_LINE_MAX && (mode == PPUMode::VBlank || self.r.ly < SCREEN_HEIGHT) && (
        lcd_on || (self.r.ly == 0 && self.wy_internal.is_none())) && window_ok
    }

    /// The interrupts that entering `mode` requests.
    pub open spec fn mode_irqs(self, mode: PPUMode) -> u8 {
        match mode {
            PPUMode::HBlank => 0,
            PPUMode::VBlank => if self.stat_has(V_BLANK_INT) || self.stat_has(OAM_INT) {
                0b0000_0011
            } else {
                0b0000_0001
            },
            PPUMode::OAMScan => if self.stat_has(OAM_INT) {
                0b0000_0010
            } else {
                0
            },
            PPUMode::PixelTransfer => 0,
        }
    }

    /// The unit after entering `mode`: STAT shows it, its cycles are added, the window line
    /// counter is dropped for the vertical blank and started at 0 for a pixel transfer on
    /// the line WY when the window is on.
    pub open spec fn switched(self, mode: PPUMode) -> PPU {
        PPU {
            r: Registers {
                lcd_stat: LCDState { bits: stat_with_mode(self.r.lcd_stat.bits, mode) },
                ..self.r
            },
            cycles: (self.cycles + mode_cycles(mode)) as isize,
            wy_internal: match mode {
                PPUMode::VBlank => None,
                PPUMode::PixelTransfer => if self.lcdc(WIN_EN) && self.wy_internal is None
                    && self.r.wy == self.r.ly {
                    Some(0u8)
                } else {
                    self.wy_internal
                },
                _ => self.wy_internal,
            },
            ..self
        }
    }

    /// The unit after comparing LY with LYC: the coincidence bit of STAT follows it.
    pub open spec fn compared(self) -> PPU {
        PPU {
            r: Registers {
                lcd_stat: LCDState {
                    bits: if self.r.ly == self.r.lyc {
                        self.r.lcd_stat.bits | LYC_STAT
                    } else {
                        self.r.lcd_stat.bits & !LYC_STAT
                    },
                },
                ..self.r
            },
            ..self
        }
    }

    /// The STAT interrupt that the comparison of LY with LYC requests.
    pub open spec fn compare_irqs(self) -> u8 {
        if self.r.ly == self.r.lyc && self.stat_has(LY_INT) {
            0b0000_0010
        } else {
            0
        }
    }

    /// A unit in the OAM scan of line 0, with all registers and memory cleared.
    pub fn new(display: Option<FrameBuffer>) -> (r: Self)
        requires
            display matches Some(f) ==> f.wf(),
        ensures
            r.wf(),
            r.display == display,
            r.cycles == ACCESS_OAM_CYCLES,
            r.wy_internal is None,
            r.r.lcd_control.bits == 0 && r.r.lcd_stat.bits == 0 && r.r.ly == 0,
            forall|i: int| 0 <= i < 8192 ==> r.vram[i] == 0,
            forall|i: int| 0 <= i < 160 ==> r.oam[i] == 0,
    {
        Self {
            r: Registers::default(),
            vram: [0u8; 8192],
            oam: [0u8; 160],
            cycles: ACCESS_OAM_CYCLES as isize,
            wy_internal: None,
            display,
        }
    }

    /// The value that a read of `address` yields: video RAM is closed during the pixel
    /// transfer and OAM during OAM scan and pixel transfer; STAT reads its unused bit 7
    /// as 1.
    pub open spec fn peek(self, address: u16) -> u8 {
        if VRAM_BEGIN <= address <= VRAM_END {
            if self.mode() == PPUMode::PixelTransfer {
                UNDEFINED_READ
            } else {
                self.vram[address - VRAM_BEGIN]
            }
        } else if OAM_BEGIN <= address <= OAM_END {
            if self.mode() == PPUMode::OAMScan || self.mode() == PPUMode::PixelTransfer {
                UNDEFINED_READ
            } else {
                self.oam[address - OAM_BEGIN]
            }
        } else if address == PPU_LCDC {
            self.r.lcd_control.bits
        } else if address == PPU_STAT {
            self.r.lcd_stat.bits | 0b1000_0000
        } else if address == PPU_SCY {
            self.r.scy
        } else if address == PPU_SCX {
            self.r.scx
        } else if address == PPU_LY {
            self.r.ly
        } else if address == PPU_LYC {
            self.r.lyc
        } else if address == PPU_DMA {
            self.r.oam_dma.source
        } else if address == PPU_BGP {
            self.r.bg_palette.register()
        } else if address == PPU_OBP0 {
            self.r.obj_palette0.register()
        } else if address == PPU_OBP1 {
            self.r.obj_palette1.register()
        } else if address == PPU_WY {
            self.r.wy
        } else {
            self.r.wx
        }
    }

    /// The unit after `value` is written to LCDC: turning the LCD on starts a horizontal
    /// blank with an OAM scan's cycles and sets the coincidence bit; turning it off moves
    /// LY to line 0 and drops the window line counter.
    pub open spec fn controlled(self, value: u8) -> PPU {
        let turned_on = value & LCD_EN == LCD_EN && !self.lcdc(LCD_EN);
        let turned_off = value & LCD_EN != LCD_EN && self.lcdc(LCD_EN);
        PPU {
            r: Registers {
                lcd_control: LCDControl { bits: value },
                lcd_stat: LCDState {
                    bits: if turned_on {
                        stat_with_mode(self.r.lcd_stat.bits, PPUMode::HBlank) | LYC_STAT
                    } else {
                        self.r.lcd_stat.bits
                    },
                },
                ly: if turned_off {
                    0
                } else {
                    self.r.ly
                },
                ..self.r
            },
            cycles: if turned_on {
                ACCESS_OAM_CYCLES as isize
            } else {
                self.cycles
            },
            wy_internal: if turned_off {
                None
            } else {
                self.wy_internal
            },
            ..self
        }
    }

    /// The unit after `value` is written to `address`: video RAM is closed during the pixel
    /// transfer and OAM during OAM scan and pixel transfer; LY is read-only; the two mode
    /// bits of STAT are kept; a write to the DMA register requests a transfer.
    pub open spec fn poked(self, address: u16, value: u8) -> PPU {
        if VRAM_BEGIN <= address <= VRAM_END {
            if self.mode() == PPUMode::PixelTransfer {
                self
            } else {
                PPU {
                    vram: spec_array_update(self.vram, address - VRAM_BEGIN, value),
                    ..self
                }
            }
        } else if OAM_BEGIN <= address <= OAM_END {
            if self.mode() == PPUMode::OAMScan || self.mode() == PPUMode::PixelTransfer {
                self
            } else {
                PPU { oam: spec_array_update(self.oam, address - OAM_BEGIN, value), ..self }
            }
        } else if address == PPU_LCDC {
            self.controlled(value)
        } else {
            PPU {
                r: if address == PPU_STAT {
                    Registers {
                        lcd_stat: LCDState {
                            bits: (value & 0b0111_1100) | (self.r.lcd_stat.bits & 0b0000_0011),
                        },
                        ..self.r
                    }
                } else if address == PPU_SCY {
                    Registers { scy: value, ..self.r }
                } else if address == PPU_SCX {
                    Registers { scx: value, ..self.r }
                } else if address == PPU_LYC {
                    Registers { lyc: value, ..self.r }
                } else if address == PPU_DMA {
                    Registers {
                        oam_dma: OamDmaController { requested: Some(value), ..self.r.oam_dma },
                        ..self.r
                    }
                } else if address == PPU_BGP {
                    Registers { bg_palette: palette_of(value), ..self.r }
                } else if address == PPU_OBP0 {
                    Registers { obj_palette0: palette_of(value), ..self.r }
                } else if address == PPU_OBP1 {
                    Registers { obj_palette1: palette_of(value), ..self.r }
                } else if address == PPU_WY {
                    Registers { wy: value, ..self.r }
                } else if address == PPU_WX {
                    Registers { wx: value, ..self.r }
                } else {
                    self.r
                },
                ..self
            }
        }
    }

    /// Writes to the LCD control register (`PPU_LCDC`).
    fn write_control(&mut self, value: u8)
        ensures
            *final(self) == old(self).controlled(value),
    {
        let turn_on = value & LCD_EN == LCD_EN;
        let was_on = self.r.lcd_control.bits & LCD_EN == LCD_EN;
        if turn_on && !was_on {
            // LCD is being turned on
            self.r.lcd_stat.set_mode(PPUMode::HBlank);
            self.cycles = PPUMode::OAMScan.cycles() as isize;
            self.r.lcd_stat.bits = self.r.lcd_stat.bits | LYC_STAT;
        } else if !turn_on && was_on {
            // LCD is being turned off, reset the LY register to 0.
            self.r.ly = 0;
            self.wy_internal = None;
        }
        self.r.lcd_control = LCDControl { bits: value };
    }

    /// Writes to the LCD status register (`PPU_STAT`), the first two bits are only
    /// writable by the PPU.
    fn write_stat(&mut self, value: u8)
        ensures
            *final(self) == (PPU {
                r: Registers {
                    lcd_stat: LCDState {
                        bits: (value & 0b0111_1100) | (old(self).r.lcd_stat.bits & 0b0000_0011),
                    },
                    ..old(self).r
                },
                ..*old(self)
            }),
    {
        let cur = self.r.lcd_stat.bits;
        let new = LCDState::from_bits_truncate(value).bits;
        let bits = (new & 0b1111_1100) | (cur & 0b0000_0011);
        assert((value & 0b0111_1111) & 0b1111_1100 == value & 0b0111_1100) by (bit_vector);
        self.r.lcd_stat.bits = bits;
    }

    /// Reads a register, video RAM or OAM.
    pub fn read(&self, address: u16) -> (r: u8)
        requires
            is_ppu_address(address),
        ensures
            r == self.peek(address),
    {
        if VRAM_BEGIN <= address && address <= VRAM_END {
            // In Pixel Transfer mode, the VRAM is not accessible.
            match self.r.lcd_stat.mode() {
                PPUMode::PixelTransfer => UNDEFINED_READ,
                _ => self.vram[(address - VRAM_BEGIN) as usize],
            }
        } else if OAM_BEGIN <= address && address <= OAM_END {
            // In Pixel Transfer mode or during OAM Search, the OAM is not accessible.
            match self.r.lcd_stat.mode() {
                PPUMode::OAMScan | PPUMode::PixelTransfer => UNDEFINED_READ,
                PPUMode::HBlank | PPUMode::VBlank => self.oam[(address - OAM_BEGIN) as usize],
            }
        } else if address == PPU_LCDC {
            self.r.lcd_control.bits
        } else if address == PPU_STAT {
            // Undocumented bit should be 1
            self.r.lcd_stat.bits() | 0b1000_0000
        } else if address == PPU_SCY {
            self.r.scy
        } else if address == PPU_SCX {
            self.r.scx
        } else if address == PPU_LY {
            self.r.ly
        } else if address == PPU_LYC {
            self.r.lyc
        } else if address == PPU_DMA {
            self.r.oam_dma.source
        } else if address == PPU_BGP {
            self.r.bg_palette.bits()
        } else if address == PPU_OBP0 {
            self.r.obj_palette0.bits()
        } else if address == PPU_OBP1 {
            self.r.obj_palette1.bits()
        } else if address == PPU_WY {
            self.r.wy
        } else {
            self.r.wx
        }
    }

    /// Writes a register, video RAM or OAM.
    pub fn write(&mut self, address: u16, value: u8)
        requires
            is_ppu_address(address),
        ensures
            *final(self) == old(self).poked(address, value),
            old(self).wf() ==> final(self).wf(),
    {
        if VRAM_BEGIN <= address && address <= VRAM_END {
            // VRAM is not accessible during Pixel Transfer mode.
            if self.r.lcd_stat.mode() != PPUMode::PixelTransfer {
                self.vram[(address - VRAM_BEGIN) as usize] = value;
            }
        } else if OAM_BEGIN <= address && address <= OAM_END {
            // OAM is not accessible during Pixel Transfer or OAM Search.
            match self.r.lcd_stat.mode() {
                PPUMode::OAMScan | PPUMode::PixelTransfer => {},
                PPUMode::HBlank | PPUMode::VBlank => {
                    self.oam[(address - OAM_BEGIN) as usize] = value;
                },
            }
        } else if address == PPU_LCDC {
            self.write_control(value);
            proof {
                let b = old(self).r.lcd_stat.bits;
                assert(stat_with_mode(b, PPUMode::HBlank) | LYC_STAT == (((b & 0b1111_1100) | 0)
                    & 0b0111_1111) | 4);
                assert((((b & 0b1111_1100) | 0) & 0b0111_1111) | 4 == ((((b & 0b1111_1100) | 0)
                    & 0b0111_1111) | 4) & 0b1111_1111 && (((((b & 0b1111_1100) | 0) & 0b0111_1111)
                    | 4) % 4 == 0)) by (bit_vector);
            }
        } else if address == PPU_STAT {
            self.write_stat(value);
            proof {
                let b = old(self).r.lcd_stat.bits;
                assert(((value & 0b0111_1100) | (b & 0b0000_0011)) % 4 == b % 4) by (bit_vector);
            }
        } else if address == PPU_SCY {
            self.r.scy = value;
        } else if address == PPU_SCX {
            self.r.scx = value;
        } else if address == PPU_LY {
            // LY is read-only
        } else if address == PPU_LYC {
            self.r.lyc = value;
        } else if address == PPU_DMA {
            self.r.oam_dma.request(value);
        } else if address == PPU_BGP {
            self.r.bg_palette = Palette::from_bits(value);
        } else if address == PPU_OBP0 {
            self.r.obj_palette0 = Palette::from_bits(value);
        } else if address == PPU_OBP1 {
            self.r.obj_palette1 = Palette::from_bits(value);
        } else if address == PPU_WY {
            self.r.wy = value;
        } else {
            self.r.wx = value;
        }
    }

    /// The unit after the OAM DMA transfer has copied `value` to the OAM byte at the low
    /// byte of `source`; an offset past the OAM stores nothing.
    pub open spec fn dma_written(self, source: u16, value: u8) -> PPU {
        if source % 256 < 160 {
            PPU { oam: spec_array_update(self.oam, (source % 256) as int, value), ..self }
        } else {
            self
        }
    }

    /// Stores a byte of the OAM DMA transfer; the transfer reaches the OAM whatever the
    /// mode.
    pub fn write_oam_dma(&mut self, source: u16, value: u8)
        ensures
            *final(self) == old(self).dma_written(source, value),
            old(self).wf() ==> final(self).wf(),
    {
        broadcast use vstd::array::group_array_axioms;

        let offset = source % 256;
        if offset < 160 {
            self.oam[offset as usize] = value;
            assert(self.oam =~= spec_array_update(old(self).oam, (source % 256) as int, value));
        }
    }

    /// Pixel (x, y) of the 256 × 256 pixel map whose tile numbers start at `map`: tile
    /// numbers count from 0x8000, or (signed) from 0x9000 when TILE_SEL is clear; each tile
    /// row is two bytes, the high bit of a color number in the second.
    pub open spec fn map_pixel(self, map: u16, x: u8, y: u8) -> Pixel {
        let id = self.vram[map - VRAM_BEGIN + (y / 8) * 32 + x / 8];
        let tile = if self.lcdc(TILE_SEL) {
            id * 16
        } else {
            0x800 + ((id + 128) % 256) * 16
        };
        let row = tile + (y % 8) * 2;
        pixel_from_line_spec(self.vram[row], self.vram[row + 1], (7 - x % 8) as u8)
    }

    /// The tile map of the background.
    pub open spec fn bg_map(self) -> u16 {
        if self.r.lcd_control.bits & BG_MAP != 0 {
            0x9C00
        } else {
            0x9800
        }
    }

    /// The tile map of the window.
    pub open spec fn win_map(self) -> u16 {
        if self.r.lcd_control.bits & WIN_MAP != 0 {
            0x9C00
        } else {
            0x9800
        }
    }

    /// The background pixel at screen column `c` of the current line, scrolled by SCX and
    /// SCY (wrapping around the map).
    pub open spec fn bg_pixel(self, c: int) -> Pixel {
        self.map_pixel(
            self.bg_map(),
            ((c + self.r.scx) % 256) as u8,
            ((self.r.ly + self.r.scy) % 256) as u8,
        )
    }

    /// How scrolling moves the background: column `c` of the line shows the pixel at
    /// ((c + SCX) mod 256, (LY + SCY) mod 256) of the 256 x 256 background map. Changing SCX
    /// only shifts the line sideways, never changing which map row is drawn, and raising
    /// SCY by `k` shows the map row that line LY + `k` shows.
    pub proof fn lemma_background_scroll(self, c: int, scx: u8, k: u8)
        ensures
            self.bg_pixel(c) == self.map_pixel(
                self.bg_map(),
                ((self.r.scx + c) % 256) as u8,
                ((self.r.scy + self.r.ly) % 256) as u8,
            ),
            (PPU { r: Registers { scx, ..self.r }, ..self }).bg_pixel(c) == self.bg_pixel(
                c + scx - self.r.scx,
            ),
            (PPU { r: Registers { scy: ((self.r.scy + k) % 256) as u8, ..self.r }, ..self }).bg_pixel(
                c,
            ) == (PPU { r: Registers { ly: ((self.r.ly + k) % 256) as u8, ..self.r }, ..self }).bg_pixel(
                c,
            ),
    {
        let a = self.r.ly as int;
        let b = self.r.scy as int;
        let kk = k as int;
        assert((a + (b + kk) % 256) % 256 == ((a + kk) % 256 + b) % 256) by (nonlinear_arith)
            requires
                0 <= a < 256,
                0 <= b < 256,
                0 <= kk < 256,
        ;
    }

    /// The first screen column of the window: WX - 7, or 0.
    pub open spec fn window_start(self) -> int {
        if self.r.wx >= 7 {
            self.r.wx - 7
        } else {
            0
        }
    }

    /// Whether the window is drawn on the current line: it is on, placed on the screen,
    /// and its line counter runs.
    pub open spec fn window_drawn(self) -> bool {
        self.lcdc(WIN_EN) && self.r.wx < WINDOW_X_MAX && self.r.wy < WINDOW_Y_MAX
            && self.wy_internal is Some
    }

    /// Whether the window covers screen column `c` of the current line.
    pub open spec fn in_window(self, c: int) -> bool {
        self.window_drawn() && c >= self.window_start()
    }

    /// The window pixel at screen column `c`, on the window line that the counter holds.
    pub open spec fn window_pixel(self, c: int) -> Pixel {
        self.map_pixel(self.win_map(), (c - self.window_start()) as u8, self.wy_internal->0)
    }

    /// Whether background or window paint column `c` with a color number other than 0,
    /// which hides the sprites drawn behind them.
    pub open spec fn bg_priority(self, c: int) -> bool {
        if self.in_window(c) {
            self.window_pixel(c) != Pixel::Zero
        } else {
            self.lcdc(BG_EN) && self.bg_pixel(c) != Pixel::Zero
        }
    }

    /// The color of column `c` after background and window are drawn over `base`.
    pub open spec fn backdrop(self, base: ColoredPixel, c: int) -> ColoredPixel {
        if self.in_window(c) {
            self.r.bg_palette.map[self.window_pixel(c).number() as int]
        } else if self.lcdc(BG_EN) {
            self.r.bg_palette.map[self.bg_pixel(c).number() as int]
        } else {
            base
        }
    }

    /// The window line counter after the current line is drawn.
    pub open spec fn next_window_line(self) -> Option<u8> {
        if self.window_drawn() {
            Some((self.wy_internal->0 + 1) as u8)
        } else {
            self.wy_internal
        }
    }

    /// The height of the sprites: 16 with OBJ_SIZE, else 8.
    pub open spec fn sprite_height(self) -> int {
        if self.lcdc(OBJ_SIZE) {
            16
        } else {
            8
        }
    }

    /// The sprite in OAM entry `i`, its position moved to screen coordinates (wrapping).
    pub open spec fn oam_sprite(self, i: int) -> Sprite {
        Sprite {
            y: ((self.oam[4 * i] + 240) % 256) as u8,
            x: ((self.oam[4 * i + 1] + 248) % 256) as u8,
            tile_index: self.oam[4 * i + 2],
            attributes: SpriteAttributes { bits: self.oam[4 * i + 3] & 0b1111_1000 },
        }
    }

    /// The line of sprite `s` that the current line shows, counted from its top (wrapping).
    pub open spec fn sprite_row(self, s: Sprite) -> int {
        (self.r.ly - s.y + 256) % 256
    }

    /// Whether sprite `s` covers the current line.
    pub open spec fn on_line(self, s: Sprite) -> bool {
        self.sprite_row(s) < self.sprite_height()
    }

    /// The sprites among the first `n` OAM entries that cover the current line, at most ten
    /// of them, in OAM order.
    pub open spec fn sprites_upto(self, n: int) -> Seq<Sprite>
        decreases n,
    {
        if n <= 0 {
            Seq::empty()
        } else {
            let earlier = self.sprites_upto(n - 1);
            if self.on_line(self.oam_sprite(n - 1)) && earlier.len() < 10 {
                earlier.push(self.oam_sprite(n - 1))
            } else {
                earlier
            }
        }
    }

    /// The sprites on the current line: the first ten of the 40 OAM entries that cover it.
    pub open spec fn line_sprites(self) -> Seq<Sprite> {
        self.sprites_upto(40)
    }

    /// The pixel of sprite `s` at screen column `c` of the current line: its row is
    /// mirrored with Y_FLIP, its column with X_FLIP; a 16 pixel high sprite takes the even
    /// tile for its top half and the next one for its bottom half.
    #[verifier::opaque]
    pub open spec fn sprite_pixel(self, s: Sprite, c: int) -> Pixel {
        let column = (c - s.x + 256) % 256;
        let row = if s.attributes.bits & Y_FLIP != 0 {
            self.sprite_height() - self.sprite_row(s) - 1
        } else {
            self.sprite_row(s)
        };
        let first_tile = if self.sprite_height() == 16 {
            s.tile_index & 0b1111_1110
        } else {
            s.tile_index
        };
        let tile = first_tile + (if row >= 8 {
            1int
        } else {
            0int
        });
        let address = tile * 16 + (row % 8) * 2;
        let bit = if s.attributes.bits & X_FLIP != 0 {
            column
        } else {
            7 - column
        };
        pixel_from_line_spec(self.vram[address], self.vram[address + 1], bit as u8)
    }

    /// Whether sprite `s` paints screen column `c`: it covers the column with a color number
    /// other than 0, and it is not behind a background or window color.
    pub open spec fn sprite_draws(self, s: Sprite, c: int) -> bool {
        &&& (c - s.x + 256) % 256 < 8
        &&& self.sprite_pixel(s, c) != Pixel::Zero
        &&& (s.attributes.bits & PRIORITY == 0 || !self.bg_priority(c))
    }

    /// The color that sprite `s` paints at column `c`, through OBP1 with DMG_PALETTE, else
    /// OBP0.
    pub open spec fn sprite_color(self, s: Sprite, c: int) -> ColoredPixel {
        let palette = if s.attributes.bits & DMG_PALETTE != 0 {
            self.r.obj_palette1
        } else {
            self.r.obj_palette0
        };
        palette.map[self.sprite_pixel(s, c).number() as int]
    }

    /// The sprite of `sprites` (in OAM order) that shows at column `c`: among those that
    /// paint it, the one with the smallest X, and of those the first.
    pub open spec fn top_sprite(self, sprites: Seq<Sprite>, c: int) -> Option<Sprite>
        decreases sprites.len(),
    {
        if sprites.len() == 0 {
            None
        } else {
            let before = self.top_sprite(sprites.drop_last(), c);
            let s = sprites.last();
            if self.sprite_draws(s, c) && (before is None || s.x < before->0.x) {
                Some(s)
            } else {
                before
            }
        }
    }

    /// The sprite that paints column `c` last when `order` is drawn front to back.
    pub open spec fn last_painter(self, order: Seq<Sprite>, c: int) -> Option<Sprite>
        decreases order.len(),
    {
        if order.len() == 0 {
            None
        } else if self.sprite_draws(order.last(), c) {
            Some(order.last())
        } else {
            self.last_painter(order.drop_last(), c)
        }
    }

    /// The color of column `c` of the current line once it is drawn over `base`.
    pub open spec fn line_color(self, base: ColoredPixel, c: int) -> ColoredPixel {
        match (if self.lcdc(OBJ_EN) {
            self.top_sprite(self.line_sprites(), c)
        } else {
            None
        }) {
            Some(s) => self.sprite_color(s, c),
            None => self.backdrop(base, c),
        }
    }

    /// The frame once the current line is drawn.
    pub open spec fn drawn_frame(self, frame: Seq<ColoredPixel>) -> Seq<ColoredPixel> {
        Seq::new(
            frame.len(),
            |i: int|
                if i / 160 == self.r.ly {
                    self.line_color(frame[i], i % 160)
                } else {
                    frame[i]
                },
        )
    }

    /// Inserting sprite `s` into a drawing order sorted by falling X, after the sprites with
    /// a greater X and before the others, changes the last painter of a column as adding
    /// `s` after the others in OAM order changes the top sprite.
    proof fn lemma_insert_painter(self, order: Seq<Sprite>, p: int, s: Sprite, c: int)
        requires
            0 <= p <= order.len(),
            forall|j: int| 0 <= j < p ==> order[j].x > s.x,
            forall|j: int| p <= j < order.len() ==> order[j].x <= s.x,
        ensures
            self.last_painter(order.insert(p, s), c) == (if self.sprite_draws(s, c) && (
            self.last_painter(order, c) is None || s.x < self.last_painter(order, c)->0.x) {
                Some(s)
            } else {
                self.last_painter(order, c)
            }),
        decreases order.len(),
    {
        let inserted = order.insert(p, s);
        if p == order.len() {
            assert(inserted.drop_last() =~= order);
            if self.last_painter(order, c) is Some {
                self.lemma_painter_in(order, c);
            }
        } else {
            let rest = order.drop_last();
            assert(inserted.drop_last() =~= rest.insert(p, s));
            assert(inserted.last() == order.last());
            self.lemma_insert_painter(rest, p, s, c);
        }
    }

    /// The last painter of a column is one of the sprites drawn.
    proof fn lemma_painter_in(self, order: Seq<Sprite>, c: int)
        ensures
            self.last_painter(order, c) matches Some(t) ==> exists|j: int| 0 <= j < order.len()
                && order[j] == t,
        decreases order.len(),
    {
        if order.len() > 0 && !self.sprite_draws(order.last(), c) {
            self.lemma_painter_in(order.drop_last(), c);
            match self.last_painter(order, c) {
                Some(t) => {
                    let j = choose|j: int| 0 <= j < order.drop_last().len() && order.drop_last()[j] == t;
                    assert(order[j] == t);
                },
                None => {},
            }
        } else if order.len() > 0 {
            assert(order[order.len() - 1] == order.last());
        }
    }

    /// Returns a `Pixel` from the tile data at the given coordinates.
    fn fetch_pixel_from_tile(&self, tile_map_address: u16, x: u8, y: u8) -> (r: Pixel)
        requires
            tile_map_address == 0x9800 || tile_map_address == 0x9C00,
        ensures
            r == self.map_pixel(tile_map_address, x, y),
    {
        let col = x as usize / 8;
        let row = y as usize / 8;
        let tile_id_address = tile_map_address as usize + row * 32 + col;
        let tile_id = self.vram[tile_id_address - VRAM_BEGIN as usize];
        let data_address: usize = if self.r.lcd_control.bits & TILE_SEL == TILE_SEL {
            0x8000 + tile_id as usize * 16
        } else if tile_id < 128 {
            0x8800 + (tile_id as usize + 128) * 16
        } else {
            0x8800 + (tile_id as usize - 128) * 16
        };
        let line = (y as usize % 8) * 2;
        let byte1 = self.vram[data_address + line - VRAM_BEGIN as usize];
        let byte2 = self.vram[data_address + line + 1 - VRAM_BEGIN as usize];
        pixel_from_line(byte1, byte2, 7 - x % 8)
    }

    /// Draws the background on the current scan line.
    fn draw_background_line(&self, line: &mut Vec<ColoredPixel>, bg_prio: &mut [bool; 160])
        requires
            old(line)@.len() == 160,
        ensures
            final(line)@.len() == 160,
            forall|c: int| 0 <= c < 160 ==> final(line)@[c] == self.r.bg_palette.map[self.bg_pixel(c).number() as int],
            forall|c: int| 0 <= c < 160 ==> final(bg_prio)[c] == (self.bg_pixel(c) != Pixel::Zero),
    {
        let tile_map_address = self.r.lcd_control.bg_tile_map_area();
        // Y position of the pixel in the tile map
        let scrolled_y = ((self.r.ly as u16 + self.r.scy as u16) % 256) as u8;
        let mut screen_x: u8 = 0;
        while screen_x < SCREEN_WIDTH
            invariant
                screen_x <= SCREEN_WIDTH,
                tile_map_address == self.bg_map(),
                scrolled_y == ((self.r.ly + self.r.scy) % 256) as u8,
                line@.len() == 160,
                forall|c: int| 0 <= c < screen_x ==> line@[c] == self.r.bg_palette.map[self.bg_pixel(c).number() as int],
                forall|c: int| 0 <= c < screen_x ==> bg_prio[c] == (self.bg_pixel(c) != Pixel::Zero),
            decreases SCREEN_WIDTH - screen_x,
        {
            // X position of the pixel in the tile map
            let scrolled_x = ((screen_x as u16 + self.r.scx as u16) % 256) as u8;
            let pixel = self.fetch_pixel_from_tile(tile_map_address, scrolled_x, scrolled_y);
            bg_prio[screen_x as usize] = pixel != Pixel::Zero;
            line.set(screen_x as usize, self.r.bg_palette.colorize(pixel));
            screen_x = screen_x + 1;
        }
    }

    /// Draws the window on the current scan line.
    fn draw_window_line(&self, line: &mut Vec<ColoredPixel>, bg_prio: &mut [bool; 160])
        requires
            old(line)@.len() == 160,
        ensures
            final(line)@.len() == 160,
            forall|c: int| 0 <= c < 160 ==> final(line)@[c] == if self.in_window(c) {
                self.r.bg_palette.map[self.window_pixel(c).number() as int]
            } else {
                old(line)@[c]
            },
            forall|c: int| 0 <= c < 160 ==> final(bg_prio)[c] == if self.in_window(c) {
                self.window_pixel(c) != Pixel::Zero
            } else {
                old(bg_prio)[c]
            },
    {
        if self.r.lcd_control.bits & WIN_EN != WIN_EN || self.r.wx >= WINDOW_X_MAX || self.r.wy >= WINDOW_Y_MAX {
            return;
        }
        // Y position of the pixel in the tile map
        let window_y = match self.wy_internal {
            Some(wy) => wy,
            None => return,
        };
        let ghost orig_line = line@;
        let ghost orig_prio = *bg_prio;
        let tile_map_address = self.r.lcd_control.window_tile_map_area();
        let window_x_start = self.r.wx.saturating_sub(7);
        let mut screen_x: u8 = window_x_start;
        while screen_x < SCREEN_WIDTH
            invariant
                window_x_start == self.window_start(),
                window_x_start <= screen_x <= SCREEN_WIDTH,
                self.window_drawn(),
                self.wy_internal == Some(window_y),
                tile_map_address == self.win_map(),
                line@.len() == 160,
                orig_line.len() == 160,
                forall|c: int| #![trigger line@[c]] 0 <= c < 160 ==> line@[c] == if self.in_window(c) && c < screen_x {
                    self.r.bg_palette.map[self.window_pixel(c).number() as int]
                } else {
                    orig_line[c]
                },
                forall|c: int| #![trigger bg_prio[c]] 0 <= c < 160 ==> bg_prio[c] == if self.in_window(c) && c < screen_x {
                    self.window_pixel(c) != Pixel::Zero
                } else {
                    orig_prio[c]
                },
            decreases SCREEN_WIDTH - screen_x,
        {
            // X position of the pixel in the tile map
            let window_x = screen_x - window_x_start;
            let pixel = self.fetch_pixel_from_tile(tile_map_address, window_x, window_y);
            assert(self.in_window(screen_x as int));
            assert(self.window_pixel(screen_x as int) == pixel);
            bg_prio[screen_x as usize] = pixel != Pixel::Zero;
            let ghost prev = line@;
            line.set(screen_x as usize, self.r.bg_palette.colorize(pixel));
            assert forall|c: int| 0 <= c < 160 implies line@[c] == if self.in_window(c) && c
                < screen_x + 1 {
                self.r.bg_palette.map[self.window_pixel(c).number() as int]
            } else {
                orig_line[c]
            } by {
                if c != screen_x {
                    assert(line@[c] == prev[c]);
                }
            }
            screen_x = screen_x + 1;
        }
    }

    /// Draws sprite `s` on the current scan line, behind the background and window colors
    /// when it asks for it.
    #[verifier::spinoff_prover]
    #[verifier::rlimit(40)]
    fn draw_sprite(&self, sprite: Sprite, size: u8, bg_prio: &[bool; 160], line: &mut Vec<ColoredPixel>)
        requires
            old(line)@.len() == 160,
            size == self.sprite_height(),
            self.on_line(sprite),
            forall|c: int| 0 <= c < 160 ==> bg_prio[c] == self.bg_priority(c),
        ensures
            final(line)@.len() == 160,
            forall|c: int| 0 <= c < 160 ==> final(line)@[c] == if self.sprite_draws(sprite, c) {
                self.sprite_color(sprite, c)
            } else {
                old(line)@[c]
            },
    {
        let palette = if sprite.attributes.bits & DMG_PALETTE != 0 {
            self.r.obj_palette1
        } else {
            self.r.obj_palette0
        };
        // Ignore bit 0 of tile index for 8x16 sprites
        let mut tile_num: usize = if size == 16 {
            (sprite.tile_index & 0b1111_1110) as usize
        } else {
            sprite.tile_index as usize
        };
        let sprite_line = ((self.r.ly as u16 + 256 - sprite.y as u16) % 256) as u8;
        let mut row: u8 = if sprite.attributes.bits & Y_FLIP != 0 {
            size - sprite_line - 1
        } else {
            sprite_line
        };
        if row >= 8 {
            tile_num = tile_num + 1;
            row = row - 8;
        }
        let offset = tile_num * 16 + row as usize * 2;
        let data1 = self.vram[offset];
        let data2 = self.vram[offset + 1];
        proof {
            reveal(PPU::sprite_pixel);
        }
        let ghost orig_line = line@;
        let mut x: u8 = 8;
        while x > 0
            invariant
                x <= 8,
                line@.len() == 160,
                orig_line.len() == 160,
                self.on_line(sprite),
                size == self.sprite_height(),
                forall|c: int| 0 <= c < 160 ==> bg_prio[c] == self.bg_priority(c),
                palette == (if sprite.attributes.bits & DMG_PALETTE != 0 {
                    self.r.obj_palette1
                } else {
                    self.r.obj_palette0
                }),
                forall|c: int| 0 <= c < 160 && (c - sprite.x + 256) % 256 < 8 ==> self.sprite_pixel(sprite, c)
                    == pixel_from_line_spec(data1, data2, (if sprite.attributes.bits & X_FLIP != 0 {
                    (c - sprite.x + 256) % 256
                } else {
                    7 - (c - sprite.x + 256) % 256
                }) as u8),
                forall|c: int| #![trigger line@[c]] 0 <= c < 160 ==> line@[c] == if (c - sprite.x + 256) % 256 < 8 - x
                    && self.sprite_draws(sprite, c) {
                    self.sprite_color(sprite, c)
                } else {
                    orig_line[c]
                },
            decreases x,
        {
            x = x - 1;
            let bit = if sprite.attributes.bits & X_FLIP != 0 {
                7 - x
            } else {
                x
            };
            let pixel = pixel_from_line(data1, data2, bit);
            let screen_x = ((sprite.x as u16 + 7 - x as u16) % 256) as u8;
            if screen_x < SCREEN_WIDTH && pixel != Pixel::Zero {
                if sprite.attributes.bits & PRIORITY == 0 || !bg_prio[screen_x as usize] {
                    let ghost prev = line@;
                    line.set(screen_x as usize, palette.colorize(pixel));
                    assert((screen_x - sprite.x + 256) % 256 == 7 - x);
                    assert forall|c: int| 0 <= c < 160 implies line@[c] == if (c - sprite.x + 256) % 256
                        < 8 - x && self.sprite_draws(sprite, c) {
                        self.sprite_color(sprite, c)
                    } else {
                        orig_line[c]
                    } by {
                        if c != screen_x {
                            assert(line@[c] == prev[c]);
                        }
                    }
                }
            }
            assert((screen_x - sprite.x + 256) % 256 == 7 - x);
        }
    }

    /// Draws all visible sprites on the current scan line: at most ten, the first in OAM
    /// order that cover the line; where they overlap, the one with the smallest X shows,
    /// and of those the first in OAM.
    fn draw_sprites(&self, bg_prio: &[bool; 160], line: &mut Vec<ColoredPixel>)
        requires
            old(line)@.len() == 160,
            forall|c: int| 0 <= c < 160 ==> bg_prio[c] == self.bg_priority(c),
        ensures
            final(line)@.len() == 160,
            forall|c: int| 0 <= c < 160 ==> final(line)@[c] == match self.top_sprite(self.line_sprites(), c) {
                Some(s) => self.sprite_color(s, c),
                None => old(line)@[c],
            },
    {
        let size: u8 = if self.r.lcd_control.bits & OBJ_SIZE == OBJ_SIZE {
            16
        } else {
            8
        };
        let mut sprites: Vec<Sprite> = Vec::new();
        let mut i: usize = 0;
        while i < 40
            invariant
                i <= 40,
                size == self.sprite_height(),
                sprites@ == self.sprites_upto(i as int),
                forall|j: int| 0 <= j < sprites@.len() ==> self.on_line(#[trigger] sprites@[j]),
            decreases 40 - i,
        {
            let y = ((self.oam[4 * i] as u16 + 240) % 256) as u8;
            let x = ((self.oam[4 * i + 1] as u16 + 248) % 256) as u8;
            let sprite_line = ((self.r.ly as u16 + 256 - y as u16) % 256) as u8;
            if sprite_line < size && sprites.len() < 10 {
                let attributes = SpriteAttributes::from_bits_truncate(self.oam[4 * i + 3]);
                sprites.push(Sprite::new(y, x, self.oam[4 * i + 2], attributes));
            }
            i = i + 1;
        }
        // Sprites are drawn by falling X, and of equal X the later OAM entry first: the
        // first of the lowest X is drawn last and shows on top.
        let mut order: Vec<Sprite> = Vec::new();
        let mut k: usize = 0;
        while k < sprites.len()
            invariant
                k <= sprites.len(),
                sprites@ == self.line_sprites(),
                forall|j: int| 0 <= j < sprites@.len() ==> self.on_line(#[trigger] sprites@[j]),
                forall|j: int| 0 <= j < order@.len() ==> self.on_line(#[trigger] order@[j]),
                forall|a: int, b: int| 0 <= a < b < order@.len() ==> order@[a].x >= order@[b].x,
                forall|c: int| #[trigger] self.last_painter(order@, c) == self.top_sprite(sprites@.take(k as int), c),
            decreases sprites.len() - k,
        {
            let s = sprites[k];
            let mut p: usize = 0;
            while p < order.len() && order[p].x > s.x
                invariant
                    p <= order@.len(),
                    forall|j: int| 0 <= j < p ==> order@[j].x > s.x,
                decreases order@.len() - p,
            {
                p = p + 1;
            }
            let ghost before = order@;
            proof {
                assert forall|j: int| p <= j < before.len() implies before[j].x <= s.x by {
                    assert(before[p as int].x <= s.x);
                }
                assert forall|c: int| #[trigger] self.last_painter(before.insert(p as int, s), c)
                    == self.top_sprite(sprites@.take(k + 1), c) by {
                    self.lemma_insert_painter(before, p as int, s, c);
                    assert(sprites@.take(k + 1).drop_last() =~= sprites@.take(k as int));
                }
            }
            order.insert(p, s);
            k = k + 1;
        }
        assert(sprites@.take(sprites@.len() as int) =~= sprites@);
        let ghost orig_line = line@;
        let mut j: usize = 0;
        while j < order.len()
            invariant
                j <= order@.len(),
                size == self.sprite_height(),
                line@.len() == 160,
                orig_line.len() == 160,
                forall|c: int| 0 <= c < 160 ==> bg_prio[c] == self.bg_priority(c),
                forall|i: int| 0 <= i < order@.len() ==> self.on_line(#[trigger] order@[i]),
                forall|c: int| #![trigger line@[c]] 0 <= c < 160 ==> line@[c] == match self.last_painter(order@.take(j as int), c) {
                    Some(t) => self.sprite_color(t, c),
                    None => orig_line[c],
                },
            decreases order@.len() - j,
        {
            let ghost prev = line@;
            self.draw_sprite(order[j], size, bg_prio, line);
            assert forall|c: int| 0 <= c < 160 implies line@[c] == match self.last_painter(order@.take(j + 1), c) {
                Some(t) => self.sprite_color(t, c),
                None => orig_line[c],
            } by {
                assert(order@.take(j + 1).drop_last() =~= order@.take(j as int));
                assert(prev[c] == match self.last_painter(order@.take(j as int), c) {
                    Some(t) => self.sprite_color(t, c),
                    None => orig_line[c],
                });
            }
            j = j + 1;
        }
        assert(order@.take(order@.len() as int) =~= order@);
    }

    /// Whether `other` has the same registers, memory, cycles and window line counter.
    pub open spec fn same_state(self, other: PPU) -> bool {
        &&& self.r == other.r
        &&& self.vram == other.vram
        &&& self.oam == other.oam
        &&& self.cycles == other.cycles
        &&& self.wy_internal == other.wy_internal
    }

    /// Whether `after` shows the frame of this unit with the current line drawn (and no
    /// frame when there is no display).
    pub open spec fn frame_drawn(self, after: PPU) -> bool {
        match (self.display, after.display) {
            (Some(f), Some(g)) => g.buffer@ == self.drawn_frame(f.buffer@),
            (None, None) => true,
            _ => false,
        }
    }

    /// The unit after the horizontal blank of a line: LY moves to the next line, which
    /// starts with an OAM scan, or after line 143 the vertical blank starts and a frame is
    /// complete; then LY is compared with LYC. Also gives the interrupts requested and
    /// whether a display is owed the frame.
    pub open spec fn after_hblank(self) -> (PPU, u8, bool) {
        let p = PPU { r: Registers { ly: (self.r.ly + 1) as u8, ..self.r }, ..self };
        if p.r.ly < SCREEN_HEIGHT {
            let q = p.switched(PPUMode::OAMScan);
            (q.compared(), p.mode_irqs(PPUMode::OAMScan) | q.compare_irqs(), false)
        } else {
            let q = p.switched(PPUMode::VBlank);
            (q.compared(), p.mode_irqs(PPUMode::VBlank) | q.compare_irqs(), self.display is Some)
        }
    }

    /// The unit after a line of the vertical blank: LY moves on, and after line 153 the next
    /// frame starts at line 0 with an OAM scan; then LY is compared with LYC.
    pub open spec fn after_vblank_line(self) -> (PPU, u8) {
        if self.r.ly + 1 > VBLANK_SCAN_LINE_MAX {
            let p = PPU { r: Registers { ly: 0, ..self.r }, ..self };
            let q = p.switched(PPUMode::OAMScan);
            (q.compared(), p.mode_irqs(PPUMode::OAMScan) | q.compare_irqs())
        } else {
            let q = PPU {
                r: Registers { ly: (self.r.ly + 1) as u8, ..self.r },
                cycles: (self.cycles + VBLANK_LINE_CYCLES) as isize,
                ..self
            };
            (q.compared(), q.compare_irqs())
        }
    }

    /// Whether the next step ends a pixel transfer and so draws the current line.
    pub open spec fn draws_on_step(self) -> bool {
        self.lcdc(LCD_EN) && self.cycles == 1 && self.mode() == PPUMode::PixelTransfer
    }

    /// The unit after one machine cycle (its frame aside), the interrupts requested and
    /// whether a display is owed a complete frame. An idle LCD changes nothing; else the
    /// mode's cycles count down, the STAT interrupt of the horizontal blank comes one cycle
    /// early, and when they run out the next mode starts: OAM scan, pixel transfer (which
    /// draws the line), horizontal blank, and after line 143 the vertical blank.
    pub open spec fn stepped(self) -> (PPU, u8, bool) {
        if !self.lcdc(LCD_EN) {
            (self, 0, false)
        } else {
            let mode = self.mode();
            let t = PPU { cycles: (self.cycles - 1) as isize, ..self };
            if t.cycles > 0 {
                (t, if t.cycles == 1 && mode == PPUMode::PixelTransfer && self.stat_has(H_BLANK_INT) {
                    0b0000_0010
                } else {
                    0
                }, false)
            } else {
                match mode {
                    PPUMode::OAMScan => (t.switched(PPUMode::PixelTransfer), 0, false),
                    PPUMode::PixelTransfer => (
                        PPU { wy_internal: t.next_window_line(), ..t }.switched(PPUMode::HBlank),
                        0,
                        false,
                    ),
                    PPUMode::HBlank => t.after_hblank(),
                    PPUMode::VBlank => {
                        let (p, irqs) = t.after_vblank_line();
                        (p, irqs, false)
                    },
                }
            }
        }
    }

    /// The frame holding the colors `colors`.
    pub open spec fn frame_of(colors: Seq<ColoredPixel>) -> FrameBuffer {
        FrameBuffer { buffer: choose|a: [ColoredPixel; 23040]| a@ == colors }
    }

    /// The unit after one machine cycle, its frame included: the line that ends its pixel
    /// transfer is drawn into the frame.
    pub open spec fn after_step(self) -> PPU {
        let p = self.stepped().0;
        PPU {
            display: if self.draws_on_step() {
                match self.display {
                    Some(f) => Some(Self::frame_of(self.drawn_frame(f.buffer@))),
                    None => None,
                }
            } else {
                self.display
            },
            ..p
        }
    }

    /// What `step` promises of the unit it leaves behind determines it: it is `after_step`.
    pub proof fn lemma_step_determined(self, after: PPU)
        requires
            after.same_state(self.stepped().0),
            if self.draws_on_step() {
                self.frame_drawn(after)
            } else {
                after.display == self.display
            },
        ensures
            after == self.after_step(),
    {
        broadcast use vstd::array::group_array_axioms;

        if self.draws_on_step() {
            match (self.display, after.display) {
                (Some(f), Some(g)) => {
                    let colors = self.drawn_frame(f.buffer@);
                    assert(g.buffer@ == colors);
                    let fr = Self::frame_of(colors);
                    assert(fr.buffer@ == colors);
                    assert(fr.buffer =~= g.buffer);
                    assert(fr == g);
                },
                _ => {},
            }
        }
        let p = self.stepped().0;
        assert(after.r == p.r && after.vram == p.vram && after.oam == p.oam && after.cycles
            == p.cycles && after.wy_internal == p.wy_internal);
        assert(after.display == self.after_step().display);
    }

    /// Draws background and window over `line`, and records in `bg_prio` the columns
    /// where they hide the sprites drawn behind them.
    fn draw_backdrop(&self, line: &mut Vec<ColoredPixel>) -> (bg_prio: [bool; 160])
        requires
            old(line)@.len() == 160,
        ensures
            final(line)@.len() == 160,
            forall|c: int|
                #![trigger final(line)@[c]]
                #![trigger bg_prio[c]]
                0 <= c < 160 ==> final(line)@[c] == self.backdrop(old(line)@[c], c)
                    && bg_prio[c] == self.bg_priority(c),
    {
        let mut bg_prio = no_priority();
        let ghost base = line@;
        let ghost zeros = bg_prio;
        let bg_on = self.r.lcd_control.bits & BG_EN == BG_EN;
        if bg_on {
            self.draw_background_line(line, &mut bg_prio);
        }
        let ghost drawn = line@;
        let ghost bg = bg_prio;
        if self.r.lcd_control.bits & WIN_EN == WIN_EN {
            self.draw_window_line(line, &mut bg_prio);
        }
        proof {
            reveal(PPU::bg_priority);
            assert forall|c: int| 0 <= c < 160 implies line@[c] == self.backdrop(base[c], c)
                && bg_prio[c] == self.bg_priority(c) by {
                assert(!zeros[c]);
                if bg_on {
                    assert(drawn[c] == self.r.bg_palette.map[self.bg_pixel(c).number() as int]);
                    assert(bg[c] == (self.bg_pixel(c) != Pixel::Zero));
                } else {
                    assert(drawn[c] == base[c]);
                    assert(bg[c] == zeros[c]);
                }
            }
        }
        bg_prio
    }

    /// Draws the current scan line into the frame and moves the window line counter on.
    fn draw_line(&mut self)
        requires
            old(self).r.ly < SCREEN_HEIGHT,
            old(self).wy_internal matches Some(v) ==> v < 255,
            old(self).display matches Some(f) ==> f.wf(),
        ensures
            final(self).same_state(PPU { wy_internal: old(self).next_window_line(), ..*old(self) }),
            old(self).frame_drawn(*final(self)),
    {
        let row_start = self.r.ly as usize * 160;
        let mut line: Vec<ColoredPixel> = Vec::new();
        let mut c: usize = 0;
        while c < 160
            invariant
                c <= 160,
                row_start == self.r.ly * 160,
                self.r.ly < SCREEN_HEIGHT,
                self.display matches Some(f) ==> f.wf(),
                line@.len() == c,
                forall|i: int| 0 <= i < c ==> line@[i] == match self.display {
                    Some(f) => f.buffer@[row_start + i],
                    None => ColoredPixel::White,
                },
            decreases 160 - c,
        {
            let color = match &self.display {
                Some(frame) => frame.buffer[row_start + c],
                None => ColoredPixel::White,
            };
            line.push(color);
            c = c + 1;
        }
        let ghost base = line@;
        // This slice is used to determine the priority of the background and window over
        // sprites.
        let bg_prio = self.draw_backdrop(&mut line);
        if self.r.lcd_control.bits & OBJ_EN == OBJ_EN {
            self.draw_sprites(&bg_prio, &mut line);
        }
        assert forall|c: int| 0 <= c < 160 implies line@[c] == self.line_color(base[c], c) by {}
        // The window line counter moves on once a window line is drawn.
        if self.r.lcd_control.bits & WIN_EN == WIN_EN && self.r.wx < WINDOW_X_MAX && self.r.wy < WINDOW_Y_MAX {
            if let Some(window_y) = self.wy_internal {
                self.wy_internal = Some(window_y + 1);
            }
        }
        let ghost drawn = *self;
        match self.display.take() {
            Some(mut frame) => {
                let ghost earlier = frame.buffer@;
                frame.write_line(self.r.ly, &line);
                assert(frame.buffer@ =~= old(self).drawn_frame(earlier));
                self.display = Some(frame);
            },
            None => {},
        }
    }

    /// Handles the `HBlank` mode, requests an OAM and/or STAT interrupt if needed, and says
    /// whether a display is owed the completed frame.
    fn handle_hblank(&mut self, int_reg: &mut InterruptRegister) -> (frame_ready: bool)
        requires
            old(self).r.ly < SCREEN_HEIGHT,
            old(self).cycles <= 0,
            old(self).cycles >= -1000,
        ensures
            ({
                let (p, irqs, ready) = old(self).after_hblank();
                *final(self) == p && final(int_reg)@ == old(int_reg)@ | irqs && frame_ready == ready
            }),
    {
        self.r.ly = self.r.ly + 1;
        let ghost p = *self;
        let ghost flags = old(int_reg)@;
        let frame_ready = if self.r.ly < SCREEN_HEIGHT {
            self.switch_mode(PPUMode::OAMScan, int_reg);
            false
        } else {
            self.switch_mode(PPUMode::VBlank, int_reg);
            self.display.is_some()
        };
        let ghost q = *self;
        let ghost mid = int_reg@;
        self.handle_coincidence_flag(int_reg);
        proof {
            let a = if p.r.ly < SCREEN_HEIGHT {
                p.mode_irqs(PPUMode::OAMScan)
            } else {
                p.mode_irqs(PPUMode::VBlank)
            };
            let b = q.compare_irqs();
            assert((flags | a) | b == flags | (a | b)) by (bit_vector);
        }
        frame_ready
    }

    /// Handles the `VBlank` mode, requests an VBLANK and/or STAT interrupt if needed.
    fn handle_vblank(&mut self, int_reg: &mut InterruptRegister)
        requires
            old(self).r.ly <= VBLANK_SCAN_LINE_MAX,
            old(self).cycles <= 0,
            old(self).cycles >= -1000,
        ensures
            ({
                let (p, irqs) = old(self).after_vblank_line();
                *final(self) == p && final(int_reg)@ == old(int_reg)@ | irqs
            }),
    {
        let ghost flags = old(int_reg)@;
        self.r.ly = self.r.ly + 1;
        if self.r.ly > VBLANK_SCAN_LINE_MAX {
            self.r.ly = 0;
            let ghost p = *self;
            self.switch_mode(PPUMode::OAMScan, int_reg);
            let ghost q = *self;
            self.handle_coincidence_flag(int_reg);
            proof {
                let a = p.mode_irqs(PPUMode::OAMScan);
                let b = q.compare_irqs();
                assert((flags | a) | b == flags | (a | b)) by (bit_vector);
            }
        } else {
            self.cycles = self.cycles + VBLANK_LINE_CYCLES as isize;
            self.handle_coincidence_flag(int_reg);
        }
    }

    /// Steps the PPU for one machine cycle; says whether a display is owed the frame that
    /// was just completed.
    #[verifier::spinoff_prover]
    pub fn step(&mut self, int_reg: &mut InterruptRegister) -> (frame_ready: bool)
        requires
            old(self).wf(),
        ensures
            final(self).wf(),
            ({
                let (p, irqs, ready) = old(self).stepped();
                &&& final(self).same_state(p)
                &&& final(int_reg)@ == old(int_reg)@ | irqs
                &&& frame_ready == ready
                &&& if old(self).draws_on_step() {
                    old(self).frame_drawn(*final(self))
                } else {
                    final(self).display == old(self).display
                }
            }),
    {
        let ghost flags = old(int_reg)@;
        assert(flags | 0 == flags) by (bit_vector);
        if self.r.lcd_control.bits & LCD_EN != LCD_EN {
            // Screen is off, PPU remains idle.
            return false;
        }
        let mode = self.r.lcd_stat.mode();
        let remaining = self.cycles - 1;
        if remaining == 1 && mode == PPUMode::PixelTransfer {
            // STAT mode=0 interrupt happens one cycle before the actual mode switch!
            if self.r.lcd_stat.bits & H_BLANK_INT == H_BLANK_INT {
                int_reg.insert(InterruptRegister::stat());
            }
        }
        if remaining > 0 {
            self.cycles = remaining;
            return false;
        }
        proof {
            let b = self.r.lcd_stat.bits;
            lemma_stat_bits(b, PPUMode::PixelTransfer);
            lemma_stat_bits(b, PPUMode::HBlank);
            lemma_stat_bits(b, PPUMode::OAMScan);
            lemma_stat_bits(b, PPUMode::VBlank);
            lemma_stat_bits(stat_with_mode(b, PPUMode::OAMScan), PPUMode::OAMScan);
            lemma_stat_bits(stat_with_mode(b, PPUMode::VBlank), PPUMode::VBlank);
        }
        match mode {
            // In this state, the PPU would scan the OAM (Objects Attribute Memory)
            // from 0xfe00 to 0xfe9f to mix sprite pixels in the current line later.
            PPUMode::OAMScan => {
                self.cycles = remaining;
                self.switch_mode(PPUMode::PixelTransfer, int_reg);
                false
            },
            PPUMode::PixelTransfer => {
                // The line is drawn as the pixel transfer ends.
                self.draw_line();
                self.cycles = remaining;
                self.switch_mode(PPUMode::HBlank, int_reg);
                false
            },
            // Nothing much to do here but wait the proper number of clock cycles.
            // A full scanline takes 456 clock cycles to complete. At the end of a
            // scanline, the PPU goes back to the initial OAM Search state.
            // When we reach line 144, we switch to VBlank state instead.
            PPUMode::HBlank => {
                self.cycles = remaining;
                self.handle_hblank(int_reg)
            },
            // Nothing much to do here either. VBlank is when the CPU is supposed to
            // do stuff that takes time. It takes as many cycles as would be needed
            // to keep displaying scanlines up to line 153.
            PPUMode::VBlank => {
                self.cycles = remaining;
                self.handle_vblank(int_reg);
                false
            },
        }
    }

    /// Switches the LCD mode and handles interrupts if needed.
    fn switch_mode(&mut self, mode: PPUMode, int_reg: &mut InterruptRegister)
        requires
            old(self).cycles + mode_cycles(mode) <= isize::MAX,
        ensures
            *final(self) == old(self).switched(mode),
            final(int_reg)@ == old(int_reg)@ | old(self).mode_irqs(mode),
    {
        self.r.lcd_stat.set_mode(mode);
        self.cycles = self.cycles + mode.cycles() as isize;
        let ghost before = old(int_reg)@;
        match mode {
            PPUMode::HBlank => {
                assert(before | 0 == before) by (bit_vector);
            },
            PPUMode::VBlank => {
                self.wy_internal = None;
                int_reg.insert(InterruptRegister::vblank());
                let both = self.r.lcd_stat.bits & V_BLANK_INT == V_BLANK_INT
                    || self.r.lcd_stat.bits & OAM_INT == OAM_INT;
                if self.r.lcd_stat.bits & V_BLANK_INT == V_BLANK_INT {
                    int_reg.insert(InterruptRegister::stat());
                }
                if self.r.lcd_stat.bits & OAM_INT == OAM_INT {
                    int_reg.insert(InterruptRegister::stat());
                }
                assert(((before | 1) | 2) | 2 == before | 3 && (before | 1) | 2 == before | 3) by (bit_vector);
            },
            PPUMode::OAMScan => {
                if self.r.lcd_stat.bits & OAM_INT == OAM_INT {
                    int_reg.insert(InterruptRegister::stat());
                } else {
                    assert(before | 0 == before) by (bit_vector);
                }
            },
            PPUMode::PixelTransfer => {
                assert(before | 0 == before) by (bit_vector);
                if self.r.lcd_control.bits & WIN_EN == WIN_EN && self.wy_internal.is_none()
                    && self.r.wy == self.r.ly {
                    self.wy_internal = Some(0);
                }
            },
        }
        proof {
            let m = mode.number();
            let b = old(self).r.lcd_stat.bits;
            assert(m < 4);
            assert(((b & 0b1111_1100) | m) & 0b0111_1111 & V_BLANK_INT == b & V_BLANK_INT) by (bit_vector)
                requires m < 4;
            assert(((b & 0b1111_1100) | m) & 0b0111_1111 & OAM_INT == b & OAM_INT) by (bit_vector)
                requires m < 4;
        }
    }

    /// Handles the coincidence flag, which is set when the LY register matches the LYC
    /// register.
    fn handle_coincidence_flag(&mut self, int_reg: &mut InterruptRegister)
        ensures
            *final(self) == old(self).compared(),
            final(int_reg)@ == old(int_reg)@ | old(self).compare_irqs(),
    {
        let ghost before = old(int_reg)@;
        if self.r.ly != self.r.lyc {
            self.r.lcd_stat.bits = self.r.lcd_stat.bits & !LYC_STAT;
            assert(before | 0 == before) by (bit_vector);
            return;
        }
        let b = self.r.lcd_stat.bits;
        self.r.lcd_stat.bits = b | LYC_STAT;
        assert((b | LYC_STAT) & LY_INT == b & LY_INT) by (bit_vector);
        if self.r.lcd_stat.bits & LY_INT == LY_INT {
            int_reg.insert(InterruptRegister::stat());
        } else {
            assert(before | 0 == before) by (bit_vector);
        }
    }
}

impl Clone for PPU {
    /// Clones everything except the display.
    fn clone(&self) -> (r: Self)
        ensures
            r.same_state(*self),
            r.display is None,
    {
        Self {
            r: self.r,
            vram: self.vram,
            oam: self.oam,
            cycles: self.cycles,
            wy_internal: self.wy_internal,
            display: None,
        }
    }
}

impl Default for PPU {
    fn default() -> (r: Self)
        ensures
            r.wf(),
            r.display is None,
            r.cycles == ACCESS_OAM_CYCLES,
            r.wy_internal is None,
            r.r.lcd_control.bits == 0 && r.r.lcd_stat.bits == 0 && r.r.ly == 0,
            forall|i: int| 0 <= i < 8192 ==> r.vram[i] == 0,
            forall|i: int| 0 <= i < 160 ==> r.oam[i] == 0,
    {
        PPU::new(None)
    }
}

} // verus!
