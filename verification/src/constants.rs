//! The memory map of the Game Boy and the addresses of its hardware registers.
use vstd::prelude::*;

verus! {

/// The boot ROM occupies the very bottom 256 bytes of memory while it is active.
pub const BOOT_BEGIN: u16 = 0x0000;
pub const BOOT_END: u16 = 0x00FF;

/// The fixed ROM bank of the cartridge.
pub const ROM_LOW_BANK_BEGIN: u16 = 0x0000;
pub const ROM_LOW_BANK_END: u16 = 0x3FFF;

/// The switchable ROM bank of the cartridge.
pub const ROM_HIGH_BANK_BEGIN: u16 = 0x4000;
pub const ROM_HIGH_BANK_END: u16 = 0x7FFF;

/// Video RAM: tile data and tile maps.
pub const VRAM_BEGIN: u16 = 0x8000;
pub const VRAM_END: u16 = 0x9FFF;
pub const VRAM_SIZE: usize = 8192;

/// External RAM on the cartridge, if it has any.
pub const CRAM_BANK_BEGIN: u16 = 0xA000;
pub const CRAM_BANK_END: u16 = 0xBFFF;

/// Work RAM.
pub const WRAM_BEGIN: u16 = 0xC000;
pub const WRAM_END: u16 = 0xDFFF;
pub const WRAM_SIZE: usize = 8192;

/// Echo RAM, a mirror of the work RAM.
pub const ERAM_BEGIN: u16 = 0xE000;
pub const ERAM_END: u16 = 0xFDFF;
pub const ERAM_SIZE: usize = 7680;

/// Object attribute memory: the sprite table.
pub const OAM_BEGIN: u16 = 0xFE00;
pub const OAM_END: u16 = 0xFE9F;
pub const OAM_SIZE: usize = 160;

/// Not usable.
pub const UNUSED_BEGIN: u16 = 0xFEA0;
pub const UNUSED_END: u16 = 0xFEFF;

/// Hardware I/O registers.
pub const IO_BEGIN: u16 = 0xFF00;
pub const IO_END: u16 = 0xFF7F;
pub const IO_SIZE: usize = 128;

/// High RAM.
pub const HRAM_BEGIN: u16 = 0xFF80;
pub const HRAM_END: u16 = 0xFFFE;
pub const HRAM_SIZE: usize = 127;

pub const JOYPAD: u16 = 0xFF00;
pub const SERIAL_TRANSFER_DATA: u16 = 0xFF01;
pub const SERIAL_TRANSFER_CTRL: u16 = 0xFF02;
pub const TIMER_DIVIDER: u16 = 0xFF04;
pub const TIMER_COUNTER: u16 = 0xFF05;
pub const TIMER_MODULO: u16 = 0xFF06;
pub const TIMER_CTRL: u16 = 0xFF07;
pub const INTERRUPT_FLAG: u16 = 0xFF0F;
pub const PPU_DMA: u16 = 0xFF46;
pub const CGB_PREPARE_SPEED_SWITCH: u16 = 0xFF4D;
pub const BOOT_ROM_OFF: u16 = 0xFF50;
pub const CGB_WRAM_BANK: u16 = 0xFF70;
pub const PCM_AMPLITUDES12: u16 = 0xFF76;
pub const PCM_AMPLITUDES34: u16 = 0xFF77;
pub const INTERRUPT_ENABLE: u16 = 0xFFFF;

/// What a read of an unmapped or disabled location yields.
pub const UNDEFINED_READ: u8 = 0xFF;

} // verus!
