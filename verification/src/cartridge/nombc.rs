use crate::cartridge::{
    byte_at, is_cartridge_address, read_byte_offset, CartridgeConfig, CartridgeRam, SaveError,
    MAX_RAM_SIZE,
};
use crate::constants::{CRAM_BANK_BEGIN, CRAM_BANK_END, ROM_HIGH_BANK_END, UNDEFINED_READ};
use vstd::prelude::*;

verus! {

/// Small games of not more than 32 KiB ROM do not require a MBC chip for ROM banking.
/// The ROM is directly mapped to memory at 0x0000 - 0x7FFF.
/// Optionally up to 8 KiB of RAM could be connected at 0xA000 - 0xBFFF,
/// using a discrete logic decoder in place of a full MBC chip.
#[derive(Clone, Debug)]
pub struct NoMBC {
    pub config: CartridgeConfig,
    pub rom: Vec<u8>,
    pub ram: CartridgeRam,
}

impl NoMBC {
    /// A controller for `rom` with zeroed RAM of the configured size.
    pub fn new(config: CartridgeConfig, rom: Vec<u8>) -> (r: Self)
        requires
            config.ram_len() <= MAX_RAM_SIZE,
        ensures
            r.config == config,
            r.rom@ == rom@,
            r.ram@ == Seq::new(config.ram_len(), |i: int| 0u8),
    {
        Self { ram: CartridgeRam::new(config.ram_size()), rom, config }
    }

    /// The value a read of a cartridge address yields.
    pub open spec fn peek(self, address: u16) -> u8 {
        if address <= ROM_HIGH_BANK_END {
            byte_at(self.rom@, address as int)
        } else if self.ram@.len() == 0 {
            UNDEFINED_READ
        } else {
            byte_at(self.ram@, address - CRAM_BANK_BEGIN)
        }
    }

    /// Reads the ROM, or the RAM if there is any.
    pub fn read(&mut self, address: u16) -> (r: u8)
        requires
            is_cartridge_address(address),
        ensures
            r == old(self).peek(address),
            *final(self) == *old(self),
    {
        if address <= ROM_HIGH_BANK_END {
            read_byte_offset(&self.rom, 0, address)
        } else if self.ram.len() == 0 {
            UNDEFINED_READ
        } else {
            self.ram.read(0, address - CRAM_BANK_BEGIN)
        }
    }

    /// The state after `value` has been written to `address`: a bank register, or the
    /// RAM when the write reaches it.
    pub open spec fn written(self, address: u16, value: u8) -> Self {
        if CRAM_BANK_BEGIN <= address <= CRAM_BANK_END && self.ram@.len() != 0 {
            NoMBC { ram: self.ram.written(address - CRAM_BANK_BEGIN, value), ..self }
        } else {
            self
        }
    }

    /// Writes the RAM if there is any; writes to ROM have no effect.
    pub fn write(&mut self, address: u16, value: u8)
        ensures
            *final(self) == old(self).written(address, value),
    {
        if CRAM_BANK_BEGIN <= address && address <= CRAM_BANK_END {
            if self.ram.len() != 0 {
                self.ram.write(0, address - CRAM_BANK_BEGIN, value);
            }
        }
    }

    /// Replaces the RAM by a saved image of the same size.
    pub fn load_ram(&mut self, ram: Vec<u8>)
        requires
            ram.len() == old(self).ram@.len(),
        ensures
            final(self).ram@ == ram@,
            *final(self) == (NoMBC { ram: final(self).ram, ..*old(self) }),
    {
        self.ram.load(&ram);
    }

    /// A copy of the RAM, if it is battery-backed.
    pub fn save_ram(&self) -> (r: Result<Vec<u8>, SaveError>)
        ensures
            self.ram@.len() == 0 || !self.config.controller.battery() ==> r == Err::<Vec<u8>, SaveError>(SaveError::NoSaveSupport),
            self.ram@.len() != 0 && self.config.controller.battery() ==> (r matches Ok(ram) && ram@ == self.ram@),
    {
        if self.ram.len() == 0 || !self.config.controller.has_battery() {
            return Err(SaveError::NoSaveSupport);
        }
        Ok(self.ram.to_vec())
    }
}

} // verus!
