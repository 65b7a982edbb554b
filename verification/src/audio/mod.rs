//! The registers of the audio processing unit; the sound itself is not generated.
use vstd::prelude::*;

verus! {

/// The first audio register.
pub const AUDIO_REGISTERS_START: u16 = 0xFF10;

/// The last audio register (the end of the wave pattern RAM).
pub const AUDIO_REGISTERS_END: u16 = 0xFF3F;

/// This register controls CH1’s period sweep functionality.
pub const AUDIO_SOUND_CHANNEL_1_SWEEP: u16 = 0xFF10;
pub const AUDIO_CHANNEL_1_LENGTH: u16 = 0xFF11;
pub const AUDIO_CHANNEL_1_VOLUME: u16 = 0xFF12;
pub const AUDIO_CHANNEL_1_PERIOD_LOW: u16 = 0xFF13;
pub const AUDIO_CHANNEL_1_PERIOD_HIGH: u16 = 0xFF14;
pub const AUDIO_CHANNEL_2_LENGTH: u16 = 0xFF16;
pub const AUDIO_CHANNEL_2_VOLUME: u16 = 0xFF17;
pub const AUDIO_CHANNEL_2_PERIOD_LOW: u16 = 0xFF18;
pub const AUDIO_CHANNEL_2_PERIOD_HIGH: u16 = 0xFF19;

/// This register controls CH3’s DAC.
pub const AUDIO_CHANNEL_3_DAC_ENABLE: u16 = 0xFF1A;
pub const AUDIO_CHANNEL_3_LENGTH: u16 = 0xFF1B;
pub const AUDIO_CHANNEL_3_VOLUME: u16 = 0xFF1C;
pub const AUDIO_CHANNEL_3_PERIOD_LOW: u16 = 0xFF1D;
pub const AUDIO_CHANNEL_3_PERIOD_HIGH: u16 = 0xFF1E;
pub const AUDIO_CHANNEL_4_LENGTH: u16 = 0xFF20;
pub const AUDIO_CHANNEL_4_VOLUME: u16 = 0xFF21;
pub const AUDIO_CHANNEL_4_FREQ: u16 = 0xFF22;
pub const AUDIO_CHANNEL_4_CONTROL: u16 = 0xFF23;
pub const AUDIO_MASTER_VOLUME: u16 = 0xFF24;
pub const AUDIO_SOUND_PANNING: u16 = 0xFF25;
pub const AUDIO_MASTER_CONTROL: u16 = 0xFF26;

/// Wave RAM is 16 bytes long; each byte holds two “samples”, each 4 bits.
pub const AUDIO_WAVE_PATTERN_START: u16 = 0xFF30;
pub const AUDIO_WAVE_PATTERN_END: u16 = 0xFF3F;

/// Whether `address` is in the audio register range.
pub open spec fn is_audio_address(address: u16) -> bool {
    AUDIO_REGISTERS_START <= address <= AUDIO_REGISTERS_END
}

/// Whether the address is one of the undocumented holes of the range, which hold nothing.
pub open spec fn is_unmapped_audio_address(address: u16) -> bool {
    address == 0xFF15 || address == 0xFF1F || (0xFF27 <= address <= 0xFF2F)
}

/// The bits that always read as 1 in the register at `address`.
pub open spec fn read_mask(address: u16) -> u8 {
    if address == AUDIO_SOUND_CHANNEL_1_SWEEP {
        0b1000_0000
    } else if address == AUDIO_CHANNEL_3_DAC_ENABLE {
        0b0111_1111
    } else if address == AUDIO_CHANNEL_3_VOLUME {
        0b1001_1111
    } else if address == AUDIO_CHANNEL_4_LENGTH {
        0b1100_0000
    } else if address == AUDIO_CHANNEL_4_CONTROL {
        0b0011_1111
    } else if address == AUDIO_MASTER_CONTROL {
        0b0111_1111
    } else {
        0
    }
}

/// The audio registers.
#[derive(Copy, Clone, Debug)]
pub struct AudioProcessor {
    pub r: [u8; 48],
}

impl AudioProcessor {
    /// The value a read of an audio register yields: the undocumented holes read 0xFF,
    /// the others their stored value with the bits that always read 1.
    pub open spec fn peek(self, address: u16) -> u8 {
        if is_unmapped_audio_address(address) {
            0xFF
        } else {
            self.r@[address - AUDIO_REGISTERS_START] | read_mask(address)
        }
    }

    /// The registers after `value` has been written to `address`; writes to the
    /// undocumented holes are dropped.
    pub open spec fn poked(self, address: u16, value: u8) -> Self {
        if is_unmapped_audio_address(address) {
            self
        } else {
            AudioProcessor {
                r: vstd::array::spec_array_update(self.r, address - AUDIO_REGISTERS_START, value),
            }
        }
    }

    /// Writes an audio register; writes to the undocumented holes are dropped.
    pub fn write(&mut self, address: u16, value: u8)
        requires
            is_audio_address(address),
        ensures
            *final(self) == old(self).poked(address, value),
            final(self).r@ == if is_unmapped_audio_address(address) {
                old(self).r@
            } else {
                old(self).r@.update(address - AUDIO_REGISTERS_START, value)
            },
    {
        broadcast use vstd::array::group_array_axioms;

        let offset = (address - AUDIO_REGISTERS_START) as usize;
        if address == 0xFF15 || address == 0xFF1F || (0xFF27 <= address && address <= 0xFF2F) {
            return ;  // undocumented
        }
        self.r[offset] = value;
        assert(self.r =~= vstd::array::spec_array_update(old(self).r, address - AUDIO_REGISTERS_START, value));
    }

    /// Reads an audio register.
    pub fn read(&mut self, address: u16) -> (r: u8)
        requires
            is_audio_address(address),
        ensures
            r == old(self).peek(address),
            *final(self) == *old(self),
    {
        broadcast use vstd::array::group_array_axioms;

        let offset = (address - AUDIO_REGISTERS_START) as usize;
        if address == 0xFF15 || address == 0xFF1F || (0xFF27 <= address && address <= 0xFF2F) {
            return 0xFF;  // undocumented
        }
        let mask: u8 = if address == AUDIO_SOUND_CHANNEL_1_SWEEP {
            0b1000_0000
        } else if address == AUDIO_CHANNEL_3_DAC_ENABLE {
            0b0111_1111
        } else if address == AUDIO_CHANNEL_3_VOLUME {
            0b1001_1111
        } else if address == AUDIO_CHANNEL_4_LENGTH {
            0b1100_0000
        } else if address == AUDIO_CHANNEL_4_CONTROL {
            0b0011_1111
        } else if address == AUDIO_MASTER_CONTROL {
            0b0111_1111
        } else {
            0
        };
        self.r[offset] | mask
    }
}

impl Default for AudioProcessor {
    fn default() -> (r: Self)
        ensures
            r.r@ == Seq::new(48, |i: int| 0u8),
    {
        broadcast use vstd::array::group_array_axioms;

        let r = [0u8; 48];
        assert(r@ =~= Seq::new(48, |i: int| 0u8));
        AudioProcessor { r }
    }
}

} // verus!
