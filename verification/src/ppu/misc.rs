//! Pixels, colors, palettes and sprites.
use vstd::prelude::*;

verus! {

/// Represents an non-colorized Pixel.
#[derive(Copy, Clone, PartialEq, Eq, Structural, Debug)]
pub enum Pixel {
    Zero,
    One,
    Two,
    Three,
}

/// The pixel of the color number in the two lowest bits of `value`.
pub open spec fn pixel_of(value: u8) -> Pixel {
    let v = value % 4;
    if v == 0 {
        Pixel::Zero
    } else if v == 1 {
        Pixel::One
    } else if v == 2 {
        Pixel::Two
    } else {
        Pixel::Three
    }
}

impl Pixel {
    /// The color number of the pixel.
    pub open spec fn number(self) -> u8 {
        match self {
            Pixel::Zero => 0b00,
            Pixel::One => 0b01,
            Pixel::Two => 0b10,
            Pixel::Three => 0b11,
        }
    }

    /// The pixel of the color number in the two lowest bits of `value`.
    pub fn from_bits(value: u8) -> (r: Self)
        ensures
            r == pixel_of(value),
    {
        let v = value % 4;
        if v == 0 {
            Pixel::Zero
        } else if v == 1 {
            Pixel::One
        } else if v == 2 {
            Pixel::Two
        } else {
            Pixel::Three
        }
    }

    /// The color number of the pixel.
    pub fn bits(self) -> (r: u8)
        ensures
            r == self.number(),
    {
        match self {
            Pixel::Zero => 0b00,
            Pixel::One => 0b01,
            Pixel::Two => 0b10,
            Pixel::Three => 0b11,
        }
    }
}

impl Default for Pixel {
    fn default() -> (r: Self)
        ensures
            r == Pixel::Zero,
    {
        Pixel::Zero
    }
}

impl From<u8> for Pixel {
    fn from(value: u8) -> (r: Self) {
        Pixel::from_bits(value)
    }
}

impl vstd::std_specs::convert::FromSpecImpl<u8> for Pixel {
    open spec fn obeys_from_spec() -> bool {
        true
    }

    open spec fn from_spec(value: u8) -> Self {
        pixel_of(value)
    }
}

impl From<Pixel> for u8 {
    fn from(value: Pixel) -> (r: u8) {
        value.bits()
    }
}

impl vstd::std_specs::convert::FromSpecImpl<Pixel> for u8 {
    open spec fn obeys_from_spec() -> bool {
        true
    }

    open spec fn from_spec(value: Pixel) -> u8 {
        value.number()
    }
}

/// Defines a colorized Pixel created from a non-colorized Pixel with a Palette.
#[derive(Copy, Clone, PartialEq, Eq, Structural, Debug)]
pub enum ColoredPixel {
    White,
    LightGrey,
    DarkGrey,
    Black,
}

/// The color with the number in the two lowest bits of `value`.
pub open spec fn color_of(value: u8) -> ColoredPixel {
    let v = value % 4;
    if v == 0 {
        ColoredPixel::White
    } else if v == 1 {
        ColoredPixel::LightGrey
    } else if v == 2 {
        ColoredPixel::DarkGrey
    } else {
        ColoredPixel::Black
    }
}

impl ColoredPixel {
    /// The number of the color, 0 (white) to 3 (black).
    pub open spec fn number(self) -> u8 {
        match self {
            ColoredPixel::White => 0b00,
            ColoredPixel::LightGrey => 0b01,
            ColoredPixel::DarkGrey => 0b10,
            ColoredPixel::Black => 0b11,
        }
    }

    /// The color with the number in the two lowest bits of `value`.
    pub fn from_bits(value: u8) -> (r: Self)
        ensures
            r == color_of(value),
    {
        let v = value % 4;
        if v == 0 {
            ColoredPixel::White
        } else if v == 1 {
            ColoredPixel::LightGrey
        } else if v == 2 {
            ColoredPixel::DarkGrey
        } else {
            ColoredPixel::Black
        }
    }

    /// The number of the color.
    pub fn bits(self) -> (r: u8)
        ensures
            r == self.number(),
    {
        match self {
            ColoredPixel::White => 0b00,
            ColoredPixel::LightGrey => 0b01,
            ColoredPixel::DarkGrey => 0b10,
            ColoredPixel::Black => 0b11,
        }
    }
}

impl Default for ColoredPixel {
    fn default() -> (r: Self)
        ensures
            r == ColoredPixel::White,
    {
        ColoredPixel::White
    }
}

impl From<u8> for ColoredPixel {
    fn from(value: u8) -> (r: Self) {
        ColoredPixel::from_bits(value)
    }
}

impl vstd::std_specs::convert::FromSpecImpl<u8> for ColoredPixel {
    open spec fn obeys_from_spec() -> bool {
        true
    }

    open spec fn from_spec(value: u8) -> Self {
        color_of(value)
    }
}

impl From<ColoredPixel> for u8 {
    fn from(value: ColoredPixel) -> (r: u8) {
        value.bits()
    }
}

impl vstd::std_specs::convert::FromSpecImpl<ColoredPixel> for u8 {
    open spec fn obeys_from_spec() -> bool {
        true
    }

    open spec fn from_spec(value: ColoredPixel) -> u8 {
        value.number()
    }
}

/// Defines a Palette to colorize a Pixel
/// used by bgp, obp0 and obp1 registers.
#[derive(Copy, Clone, Debug)]
pub struct Palette {
    pub map: [ColoredPixel; 4],
}

/// The palette of a palette register: bits 2i+1..2i give the color of color number i.
pub open spec fn palette_of(value: u8) -> Palette {
    Palette {
        map: [
            color_of(value),
            color_of(value / 4),
            color_of(value / 16),
            color_of(value / 64),
        ],
    }
}

impl Palette {
    /// The color of `pixel` in this palette.
    pub fn colorize(&self, pixel: Pixel) -> (r: ColoredPixel)
        ensures
            r == self.map[pixel.number() as int],
    {
        self.map[pixel.bits() as usize]
    }

    /// Every two bits in the palette data byte represent a colour.
    /// Bits 7-6 maps to colour id 11, bits 5-4 map to colour id 10,
    /// bits 3-2 map to colour id 01 and bits 1-0 map to colour id 00.
    pub fn from_bits(value: u8) -> (r: Self)
        ensures
            r == palette_of(value),
    {
        Palette {
            map: [
                ColoredPixel::from_bits(value),
                ColoredPixel::from_bits(value / 4),
                ColoredPixel::from_bits(value / 16),
                ColoredPixel::from_bits(value / 64),
            ],
        }
    }

    /// The palette register value: color of number i in bits 2i+1..2i.
    pub open spec fn register(self) -> u8 {
        (self.map[0].number() + 4 * self.map[1].number() + 16 * self.map[2].number() + 64
            * self.map[3].number()) as u8
    }

    /// The palette register value.
    pub fn bits(&self) -> (r: u8)
        ensures
            r == self.register(),
    {
        self.map[0].bits() + 4 * self.map[1].bits() + 16 * self.map[2].bits() + 64 * self.map[3].bits()
    }
}

impl Default for Palette {
    fn default() -> (r: Self)
        ensures
            r.map[0] == ColoredPixel::White && r.map[1] == ColoredPixel::White && r.map[2]
                == ColoredPixel::White && r.map[3] == ColoredPixel::White,
    {
        Palette { map: [ColoredPixel::White, ColoredPixel::White, ColoredPixel::White, ColoredPixel::White] }
    }
}

impl From<u8> for Palette {
    fn from(value: u8) -> (r: Self) {
        Palette::from_bits(value)
    }
}

impl vstd::std_specs::convert::FromSpecImpl<u8> for Palette {
    open spec fn obeys_from_spec() -> bool {
        true
    }

    open spec fn from_spec(value: u8) -> Self {
        palette_of(value)
    }
}

impl From<Palette> for u8 {
    fn from(palette: Palette) -> (r: u8) {
        palette.bits()
    }
}

impl vstd::std_specs::convert::FromSpecImpl<Palette> for u8 {
    open spec fn obeys_from_spec() -> bool {
        true
    }

    open spec fn from_spec(palette: Palette) -> u8 {
        palette.register()
    }
}

/// Converting a pixel to its color number and back gives the same pixel, and converting
/// a byte to a pixel keeps its two lowest bits; the same holds for colors.
pub proof fn lemma_pixel_color_roundtrip(p: Pixel, c: ColoredPixel, value: u8)
    ensures
        pixel_of(p.number()) == p,
        pixel_of(value).number() == value % 4,
        color_of(c.number()) == c,
        color_of(value).number() == value % 4,
{
}

/// A palette register survives the conversion to a palette and back.
pub proof fn lemma_palette_roundtrip(value: u8)
    ensures
        palette_of(value).register() == value,
{
    let p = palette_of(value);
    assert(p.map[0].number() == value % 4);
    assert(p.map[1].number() == (value / 4) % 4);
    assert(p.map[2].number() == (value / 16) % 4);
    assert(p.map[3].number() == (value / 64) % 4);
    let v = value as int;
    assert(v % 4 + 4 * ((v / 4) % 4) + 16 * ((v / 16) % 4) + 64 * ((v / 64) % 4) == v) by {
        assert(v / 4 == 4 * (v / 16) + (v / 4) % 4);
        assert(v / 16 == 4 * (v / 64) + (v / 16) % 4);
        assert(v / 64 < 4);
    }
}

/// Represents the attributes of a sprite: bit 3 is the CGB bank, bit 4 the DMG palette,
/// bit 5 flips horizontally, bit 6 vertically, and bit 7 puts the sprite behind the
/// background.
#[derive(Copy, Clone, PartialEq, Eq, Structural, Debug)]
pub struct SpriteAttributes {
    pub bits: u8,
}

/// Attribute bit 4: the sprite uses OBP1 instead of OBP0.
pub const DMG_PALETTE: u8 = 0b0001_0000;

/// Attribute bit 5: the sprite is mirrored horizontally.
pub const X_FLIP: u8 = 0b0010_0000;

/// Attribute bit 6: the sprite is mirrored vertically.
pub const Y_FLIP: u8 = 0b0100_0000;

/// Attribute bit 7: the sprite is hidden behind background and window colors 1 to 3.
pub const PRIORITY: u8 = 0b1000_0000;

impl SpriteAttributes {
    /// The attributes of an OAM byte; its three lowest bits have no meaning and are dropped.
    pub fn from_bits_truncate(bits: u8) -> (r: Self)
        ensures
            r.bits == bits & 0b1111_1000,
    {
        SpriteAttributes { bits: bits & 0b1111_1000 }
    }
}

/// Represents a Sprite in the OAM memory.
#[derive(Copy, Clone, PartialEq, Eq, Structural, Debug)]
pub struct Sprite {
    pub x: u8,  // Object’s horizontal position on the screen + 8
    pub y: u8,  // Object’s vertical position on the screen + 16
    pub tile_index: u8,
    pub attributes: SpriteAttributes,
}

impl Sprite {
    /// A sprite from its four OAM bytes.
    pub fn new(y: u8, x: u8, tile_index: u8, attributes: SpriteAttributes) -> (r: Self)
        ensures
            r == (Sprite { y, x, tile_index, attributes }),
    {
        Self { y, x, tile_index, attributes }
    }
}

} // verus!
