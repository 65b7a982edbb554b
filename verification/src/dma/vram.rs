//! The VRAM DMA (HDMA) registers of the Game Boy Color.
use vstd::prelude::*;

verus! {

/// VRAM DMA source, high byte.
pub const CGB_HDMA1_VRAM_DMA_SRC: u16 = 0xFF51;

/// VRAM DMA source, low byte.
pub const CGB_HDMA2_VRAM_DMA_SRC: u16 = 0xFF52;

/// VRAM DMA destination, high byte.
pub const CGB_HDMA3_VRAM_DMA_DEST: u16 = 0xFF53;

/// VRAM DMA destination, low byte.
pub const CGB_HDMA4_VRAM_DMA_DEST: u16 = 0xFF54;

/// VRAM DMA length, mode and start.
pub const CGB_HDMA5_VRAM_DMA_MODE: u16 = 0xFF55;

/// The HDMA5 register: bits 0-6 hold the length in 16-byte blocks minus one, bit 7 the
/// transfer mode (1 = HBlank DMA, 0 = general purpose DMA).
#[derive(Copy, Clone, PartialEq, Eq, Structural, Debug)]
pub struct VRamDmaMode {
    pub bits: u8,
}

impl VRamDmaMode {
    /// The register with the given bits.
    pub fn from_bits_truncate(bits: u8) -> (r: Self)
        ensures
            r.bits == bits,
    {
        VRamDmaMode { bits }
    }

    /// Returns the length of the HDMA transfer in bytes, 16 to 2048.
    pub fn length(&self) -> (r: u16)
        ensures
            r == ((self.bits & 0b0111_1111) + 1) * 0x10,
            0x10 <= r <= 0x800,
    {
        let bits: u8 = self.bits;
        let blocks: u8 = bits & 0b0111_1111;
        assert(blocks <= 0x7F) by (bit_vector)
            requires
                blocks == bits & 0b0111_1111,
        ;
        (blocks as u16 + 1) * 0x10
    }

    /// Returns true if the transfer mode is General Purpose DMA.
    pub fn is_gdma(&self) -> (r: bool)
        ensures
            r == (self.bits & 0b1000_0000 == 0),
    {
        self.bits & 0b1000_0000 == 0
    }
}

impl Default for VRamDmaMode {
    fn default() -> (r: Self)
        ensures
            r.bits == 0xFF,
    {
        Self::from_bits_truncate(0xFF)
    }
}

/// The VRAM DMA registers.
#[derive(Copy, Clone, PartialEq, Eq, Structural, Debug)]
pub struct VRamDmaController {
    pub source_high: u8,  // HDMA1
    pub source_low: u8,  // HDMA2
    pub dest_high: u8,  // HDMA3
    pub dest_low: u8,  // HDMA4
    pub mode: VRamDmaMode,  // HDMA5 (length, mode, start)
    pub active: bool,
}

impl VRamDmaController {
    /// Writes one of the five HDMA registers: the low four bits of the source and
    /// destination and the top three bits of the destination are dropped.
    pub fn write(&mut self, address: u16, value: u8)
        requires
            CGB_HDMA1_VRAM_DMA_SRC <= address <= CGB_HDMA5_VRAM_DMA_MODE,
        ensures
            *final(self) == if address == CGB_HDMA1_VRAM_DMA_SRC {
                VRamDmaController { source_high: value, ..*old(self) }
            } else if address == CGB_HDMA2_VRAM_DMA_SRC {
                VRamDmaController { source_low: value & 0b1111_0000, ..*old(self) }
            } else if address == CGB_HDMA3_VRAM_DMA_DEST {
                VRamDmaController { dest_high: value & 0b0001_1111, ..*old(self) }
            } else if address == CGB_HDMA4_VRAM_DMA_DEST {
                VRamDmaController { dest_low: value & 0b1111_0000, ..*old(self) }
            } else {
                VRamDmaController { mode: VRamDmaMode { bits: value }, ..*old(self) }
            },
    {
        if address == CGB_HDMA1_VRAM_DMA_SRC {
            self.source_high = value
        } else if address == CGB_HDMA2_VRAM_DMA_SRC {
            self.source_low = value & 0b1111_0000
        } else if address == CGB_HDMA3_VRAM_DMA_DEST {
            self.dest_high = value & 0b0001_1111
        } else if address == CGB_HDMA4_VRAM_DMA_DEST {
            self.dest_low = value & 0b1111_0000
        } else {
            self.mode = VRamDmaMode::from_bits_truncate(value)
        }
    }

    /// Source address of the VRAM DMA transfer.
    pub fn source(&self) -> (r: u16)
        ensures
            r == self.source_high * 256 + self.source_low,
    {
        self.source_high as u16 * 256 + self.source_low as u16
    }

    /// Destination address of the VRAM DMA transfer.
    pub fn destination(&self) -> (r: u16)
        ensures
            r == self.dest_high * 256 + self.dest_low,
    {
        self.dest_high as u16 * 256 + self.dest_low as u16
    }
}

impl Default for VRamDmaController {
    fn default() -> (r: Self)
        ensures
            r == (VRamDmaController {
                source_high: 0xFF,
                source_low: 0xFF,
                dest_high: 0xFF,
                dest_low: 0xFF,
                mode: VRamDmaMode { bits: 0xFF },
                active: false,
            }),
    {
        Self {
            source_high: 0xFF,
            source_low: 0xFF,
            dest_high: 0xFF,
            dest_low: 0xFF,
            mode: VRamDmaMode::default(),
            active: false,
        }
    }
}

} // verus!
