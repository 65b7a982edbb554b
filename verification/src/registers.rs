//! The CPU mode select register (KEY0) of the Game Boy Color.
use vstd::prelude::*;

verus! {

/// Represents the CPU mode select register (KEY0) at 0xFF4C in CGB mode.
#[derive(Copy, Clone, PartialEq, Eq, Structural, Debug)]
pub struct CpuMode {
    pub bits: u8,
}

/// Bit 2 of KEY0: the CGB runs a monochrome game in DMG compatibility mode.
pub const DMG_COMPAT: u8 = 0b0000_0100;

impl CpuMode {
    /// The register with the known bits of `bits`: only DMG_COMPAT.
    pub fn from_bits_truncate(bits: u8) -> (r: Self)
        ensures
            r.bits == bits & DMG_COMPAT,
    {
        CpuMode { bits: bits & DMG_COMPAT }
    }

    /// The raw register value.
    pub fn bits(&self) -> (r: u8)
        ensures
            r == self.bits,
    {
        self.bits
    }
}

impl Default for CpuMode {
    /// DMG compatibility mode.
    fn default() -> (r: Self)
        ensures
            r.bits == DMG_COMPAT,
    {
        assert(0b0000_0100u8 & DMG_COMPAT == DMG_COMPAT) by (bit_vector);
        Self::from_bits_truncate(0b0000_0100)
    }
}

} // verus!
