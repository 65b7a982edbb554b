//! Registers of the Game Boy Color palettes.
use vstd::prelude::*;

verus! {

/// Represents the attributes of a background map in CGB mode: bits 0-2 select the palette,
/// bit 3 the bank, bit 5 flips horizontally, bit 6 vertically, bit 7 gives priority.
#[derive(Copy, Clone, PartialEq, Eq, Structural, Debug)]
pub struct BgMapAttributes {
    pub bits: u8,
}

/// This register is used to address a byte in the CGB’s bg or obj palette RAM.
/// Since there are 8 palettes, 8 palettes × 4 colors/palette × 2 bytes/color = 64 bytes
/// can be addressed. Bits 0-5 hold the address, bit 7 enables auto-increment.
#[derive(Copy, Clone, PartialEq, Eq, Structural, Debug)]
pub struct ColorSpec {
    pub bits: u8,
}

/// Bits 0-5 of the color specification: the address.
pub const ADDRESS_MASK: u8 = 0b0011_1111;

/// Bit 7 of the color specification: auto-increment.
pub const AUTO_INCREMENT: u8 = 0b1000_0000;

impl ColorSpec {
    /// The register with the given bits; bit 6, which has no meaning, is dropped.
    pub fn from_bits_truncate(bits: u8) -> (r: Self)
        ensures
            r.bits == bits & (ADDRESS_MASK | AUTO_INCREMENT),
    {
        ColorSpec { bits: bits & (ADDRESS_MASK | AUTO_INCREMENT) }
    }

    /// Returns the address part of the BCPs register.
    pub fn address(&self) -> (r: u8)
        ensures
            r == self.bits & ADDRESS_MASK,
    {
        self.bits & ADDRESS_MASK
    }

    /// Checks whether auto-increment is enabled and increments the address if so; the
    /// increment carries out of the address into the flag bits as the register arithmetic
    /// does.
    pub fn maybe_increment(&mut self)
        ensures
            final(self).bits == if old(self).bits & AUTO_INCREMENT == 0 {
                old(self).bits
            } else {
                ((old(self).bits & !ADDRESS_MASK) | (((old(self).bits & ADDRESS_MASK) + 1) as u8)) & (
                ADDRESS_MASK | AUTO_INCREMENT)
            },
    {
        if self.bits & AUTO_INCREMENT == 0 {
            return ;
        }
        let bits = self.bits;
        assert(bits & 0b0011_1111u8 <= 63) by (bit_vector);
        let value = self.bits & !ADDRESS_MASK | (self.address() + 1);
        *self = ColorSpec::from_bits_truncate(value);
    }
}

impl Default for ColorSpec {
    fn default() -> (r: Self)
        ensures
            r.bits == 0,
    {
        ColorSpec { bits: 0 }
    }
}

/// This register allows to read/write data to the CGBs background palette memory,
/// addressed through BCPS/BGPI. Each color is stored as little-endian RGB555.
#[derive(Copy, Clone, PartialEq, Eq, Structural, Debug)]
pub struct BgColorData {
    pub bits: u16,
}

/// Bits 0-4: red.
pub const RED_COLOR_MASK: u16 = 0b0000_0000_0001_1111;

/// Bits 5-9: green.
pub const GREEN_COLOR_MASK: u16 = 0b0000_0011_1110_0000;

/// Bits 10-14: blue.
pub const BLUE_COLOR_MASK: u16 = 0b0111_1100_0000_0000;

/// The bits of the three colors.
pub const COLOR_MASK: u16 = 0b0111_1111_1111_1111;

impl BgColorData {
    /// The register with the given bits; bit 15, which has no meaning, is dropped.
    pub fn from_bits_truncate(bits: u16) -> (r: Self)
        ensures
            r.bits == bits & COLOR_MASK,
    {
        BgColorData { bits: bits & COLOR_MASK }
    }

    /// Sets the bits of `value` that fall in the red field.
    pub fn set_red(&mut self, value: u8)
        ensures
            final(self).bits == (old(self).bits | (RED_COLOR_MASK & value as u16)) & COLOR_MASK,
    {
        let value = self.bits | (RED_COLOR_MASK & value as u16);
        *self = BgColorData::from_bits_truncate(value);
    }

    /// Sets the bits of `value` that fall in the green field.
    pub fn set_green(&mut self, value: u8)
        ensures
            final(self).bits == (old(self).bits | (GREEN_COLOR_MASK & value as u16)) & COLOR_MASK,
    {
        let value = self.bits | (GREEN_COLOR_MASK & value as u16);
        *self = BgColorData::from_bits_truncate(value);
    }

    /// Sets the bits of `value` that fall in the blue field.
    pub fn set_blue(&mut self, value: u8)
        ensures
            final(self).bits == (old(self).bits | (BLUE_COLOR_MASK & value as u16)) & COLOR_MASK,
    {
        let value = self.bits | (BLUE_COLOR_MASK & value as u16);
        *self = BgColorData::from_bits_truncate(value);
    }

    /// Returns the red component of the color.
    pub fn red(&self) -> (r: u8)
        ensures
            r == (self.bits & RED_COLOR_MASK) as u8,
    {
        (self.bits & RED_COLOR_MASK) as u8
    }

    /// Returns the green component of the color.
    pub fn green(&self) -> (r: u8)
        ensures
            r == ((self.bits & GREEN_COLOR_MASK) >> 5u16) as u8,
    {
        ((self.bits & GREEN_COLOR_MASK) >> 5) as u8
    }

    /// Returns the blue component of the color.
    pub fn blue(&self) -> (r: u8)
        ensures
            r == ((self.bits & BLUE_COLOR_MASK) >> 10u16) as u8,
    {
        ((self.bits & BLUE_COLOR_MASK) >> 10) as u8
    }
}

impl Default for BgColorData {
    fn default() -> (r: Self)
        ensures
            r.bits == 0,
    {
        BgColorData { bits: 0 }
    }
}

} // verus!
