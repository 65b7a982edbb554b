use crate::cartridge::{
    bank_mask_spec, byte_at, is_cartridge_address, read_byte_offset, rom_bank_mask, CartridgeConfig,
    CartridgeRam, SaveError, MAX_RAM_SIZE, RAM_BANK_SIZE, ROM_BANK_SIZE,
};
use crate::constants::{
    CRAM_BANK_BEGIN, CRAM_BANK_END, ROM_HIGH_BANK_BEGIN, ROM_HIGH_BANK_END, ROM_LOW_BANK_END,
    UNDEFINED_READ,
};
use vstd::prelude::*;

verus! {

/// Before external RAM can be read or written,
/// it must be enabled by writing 0x0A to anywhere in this address space.
/// Any value with 0x0A in the lower 4 bits enables the RAM attached to the MBC,
/// and any other value disables the RAM.
pub const RAM_ENABLE_BEGIN: u16 = 0x0000;
pub const RAM_ENABLE_END: u16 = 0x1FFF;

/// This 5-bit register (range $01-$1F) selects the ROM bank number for the 4000–7FFF region.
/// Higher bits are discarded — writing $E1 (binary 11100001) to this register would select bank $01.
/// If this register is set to $00, it behaves as if it is set to $01.
pub const ROM_BANK_NUMBER_BEGIN: u16 = 0x2000;
pub const ROM_BANK_NUMBER_END: u16 = 0x3FFF;

/// This 2-bit register range can be used to select a RAM Bank in range from $00–$03 (32 KiB ram
/// carts only), or to specify the upper two bits (bits 5-6) of the ROM Bank number (1 MiB ROM or
/// larger carts only).
pub const RAM_BANK_NUMBER_BEGIN: u16 = 0x4000;
pub const RAM_BANK_NUMBER_END: u16 = 0x5FFF;

/// This 1-bit register selects between the two MBC1 banking modes.
pub const BANKING_MODE_SELECT_BEGIN: u16 = 0x6000;
pub const BANKING_MODE_SELECT_END: u16 = 0x7FFF;

/// This 1-bit register selects between the two MBC1 banking modes,
/// controlling the behaviour of the secondary 2-bit banking register (0x4000 - 0x5FFF).
#[derive(Copy, Clone, PartialEq, Eq, Structural, Debug)]
pub enum BankingMode {
    Simple,
    Advanced,
}

/// In its default configuration, MBC1 supports up to 512 KiB ROM with up to 32 KiB of banked RAM.
/// Cartridges with 1 MiB of ROM or more use the 2-bit register as the upper bits of the ROM
/// bank number.
#[derive(Clone, Debug)]
pub struct MBC1 {
    pub config: CartridgeConfig,
    pub rom: Vec<u8>,
    pub ram: CartridgeRam,
    pub low_rom_bank_offset: usize,  // current selected ROM bank offset for 0x0000 - 0x3FFF
    pub high_rom_bank_offset: usize,  // current selected ROM bank offset for 0x4000 - 0x7FFF
    pub ram_bank_offset: usize,  // current selected RAM bank offset for 0xA000 - 0xBFFF
    pub has_ram_access: bool,
    pub bank_low_bits: u8,  // lower 5 bits of the ROM bank number
    pub bank_high_bits: u8,  // RAM bank number or upper 2 bits of the ROM bank number
    pub banking_mode: BankingMode,
}

impl MBC1 {
    /// The state after the ROM bank offsets have been derived from the bank registers.
    /// With fewer than 32 banks only the lower register counts (masked to the ROM size);
    /// otherwise the upper two bits select the bank group, also for the low area in
    /// advanced mode.
    pub open spec fn with_rom_offsets(self) -> Self {
        if self.config.rom_banks < 32 {
            let low_bits = self.bank_low_bits & (bank_mask_spec(self.config.rom_banks as nat) as u8);
            MBC1 {
                low_rom_bank_offset: 0,
                bank_low_bits: low_bits,
                high_rom_bank_offset: (ROM_BANK_SIZE * low_bits) as usize,
                ..self
            }
        } else {
            let low_bank_nr = match self.banking_mode {
                BankingMode::Simple => 0u8,
                BankingMode::Advanced => (self.bank_high_bits << 5u8) as u8,
            };
            let high_bank_nr = ((self.bank_high_bits << 5u8) as u8) | self.bank_low_bits;
            MBC1 {
                low_rom_bank_offset: (ROM_BANK_SIZE * low_bank_nr) as usize,
                high_rom_bank_offset: (ROM_BANK_SIZE * high_bank_nr) as usize,
                ..self
            }
        }
    }

    /// The state after the RAM bank offset has been derived: only cartridges with four RAM
    /// banks in advanced mode switch RAM banks.
    pub open spec fn with_ram_offset(self) -> Self {
        MBC1 {
            ram_bank_offset: if self.config.ram_banks == 4 && self.banking_mode
                == BankingMode::Advanced {
                (RAM_BANK_SIZE * self.bank_high_bits) as usize
            } else {
                0
            },
            ..self
        }
    }

    /// The value a read of a cartridge address yields.
    pub open spec fn peek(self, address: u16) -> u8 {
        if address <= ROM_LOW_BANK_END {
            byte_at(self.rom@, self.low_rom_bank_offset + address)
        } else if address <= ROM_HIGH_BANK_END {
            byte_at(self.rom@, self.high_rom_bank_offset + (address - ROM_HIGH_BANK_BEGIN))
        } else if self.has_ram_access && self.ram@.len() != 0 {
            byte_at(self.ram@, self.ram_bank_offset + (address - CRAM_BANK_BEGIN))
        } else {
            UNDEFINED_READ
        }
    }

    /// The bank registers after `value` has been written to `address`; a write to the RAM
    /// area changes no register (see `write` for the RAM itself).
    pub open spec fn poke(self, address: u16, value: u8) -> Self {
        if address <= RAM_ENABLE_END {
            MBC1 { has_ram_access: value & 0b1111 == 0b1010, ..self }
        } else if address <= ROM_BANK_NUMBER_END {
            let low = value & 0b0001_1111;
            MBC1 { bank_low_bits: if low == 0 { 1 } else { low }, ..self }.with_rom_offsets()
        } else if address <= RAM_BANK_NUMBER_END {
            MBC1 { bank_high_bits: value & 0b11, ..self }.with_rom_offsets().with_ram_offset()
        } else if address <= BANKING_MODE_SELECT_END {
            MBC1 {
                banking_mode: if value & 0b1 == 0 {
                    BankingMode::Simple
                } else {
                    BankingMode::Advanced
                },
                ..self
            }.with_rom_offsets().with_ram_offset()
        } else {
            self
        }
    }

    /// A controller for `rom` in simple banking mode with bank 1 selected, RAM disabled
    /// and zeroed.
    pub fn new(config: CartridgeConfig, rom: Vec<u8>) -> (r: Self)
        requires
            config.ram_len() <= MAX_RAM_SIZE,
        ensures
            r.config == config,
            r.rom@ == rom@,
            r.ram@ == Seq::new(config.ram_len(), |i: int| 0u8),
            r.low_rom_bank_offset == 0,
            r.high_rom_bank_offset == ROM_HIGH_BANK_BEGIN,
            r.ram_bank_offset == 0,
            !r.has_ram_access,
            r.banking_mode == BankingMode::Simple,
            r.bank_low_bits == 1,
            r.bank_high_bits == 0,
    {
        Self {
            ram: CartridgeRam::new(config.ram_size()),
            low_rom_bank_offset: 0,
            high_rom_bank_offset: ROM_HIGH_BANK_BEGIN as usize,
            ram_bank_offset: 0,
            has_ram_access: false,
            banking_mode: BankingMode::Simple,
            bank_low_bits: 0b0000_0001,
            bank_high_bits: 0b0000_0000,
            rom,
            config,
        }
    }

    /// Updates the ROM banks offsets on the current banking mode.
    /// If the ROM is larger than 32 banks, we also use the upper 2 bits for the bank number,
    /// otherwise we only use the lower 5 bits.
    fn update_rom_offsets(&mut self)
        ensures
            *final(self) == old(self).with_rom_offsets(),
    {
        // If all ROM banks can be referenced with 5 bits
        // we don't consider the advanced banking mode
        if self.config.rom_banks < 32 {
            self.low_rom_bank_offset = 0;
            self.bank_low_bits = self.bank_low_bits & (rom_bank_mask(self.config.rom_banks) as u8);
            self.high_rom_bank_offset = ROM_BANK_SIZE * self.bank_low_bits as usize;
            return;
        }
        let low_bank_nr: u8 = match self.banking_mode {
            BankingMode::Simple => 0,
            BankingMode::Advanced => self.bank_high_bits << 5u8,
        };
        self.low_rom_bank_offset = ROM_BANK_SIZE * low_bank_nr as usize;

        let high_bank_nr: u8 = (self.bank_high_bits << 5u8) | self.bank_low_bits;
        self.high_rom_bank_offset = ROM_BANK_SIZE * high_bank_nr as usize;
    }

    /// Updates the RAM bank offset based on the current banking mode.
    /// Only cartridges with 4 banks support RAM banking.
    fn update_ram_offset(&mut self)
        ensures
            *final(self) == old(self).with_ram_offset(),
    {
        // RAM banking is only available with cartridges with 4 banks
        if self.config.ram_banks == 4 && self.banking_mode == BankingMode::Advanced {
            self.ram_bank_offset = RAM_BANK_SIZE * self.bank_high_bits as usize;
        } else {
            self.ram_bank_offset = 0;
        }
    }

    /// Reads the ROM through the selected banks, or the selected RAM bank if RAM is enabled.
    pub fn read(&mut self, address: u16) -> (r: u8)
        requires
            is_cartridge_address(address),
        ensures
            r == old(self).peek(address),
            *final(self) == *old(self),
    {
        if address <= ROM_LOW_BANK_END {
            read_byte_offset(&self.rom, self.low_rom_bank_offset, address)
        } else if address <= ROM_HIGH_BANK_END {
            read_byte_offset(&self.rom, self.high_rom_bank_offset, address - ROM_HIGH_BANK_BEGIN)
        } else if self.has_ram_access && self.ram.len() != 0 {
            self.ram.read(self.ram_bank_offset, address - CRAM_BANK_BEGIN)
        } else {
            UNDEFINED_READ
        }
    }

    /// The state after `value` has been written to `address`: a bank register, or the
    /// RAM when the write reaches it.
    pub open spec fn written(self, address: u16, value: u8) -> Self {
        if CRAM_BANK_BEGIN <= address <= CRAM_BANK_END && self.has_ram_access && self.ram@.len() != 0 {
            MBC1 { ram: self.ram.written(self.ram_bank_offset + (address - CRAM_BANK_BEGIN), value), ..self }
        } else {
            self.poke(address, value)
        }
    }

    /// Writes a bank register, or the selected RAM bank if RAM is enabled.
    pub fn write(&mut self, address: u16, value: u8)
        ensures
            *final(self) == old(self).written(address, value),
    {
        if address <= RAM_ENABLE_END {
            // Any value with 0x0A in the lower 4 bits enables ram, any other value disables it.
            self.has_ram_access = value & 0b1111 == 0b1010;
        } else if address <= ROM_BANK_NUMBER_END {
            // Sets the lower 5 bits of the ROM bank number.
            let low = value & 0b0001_1111;
            self.bank_low_bits = if low == 0 { 1 } else { low };
            self.update_rom_offsets();
        } else if address <= RAM_BANK_NUMBER_END {
            // Sets the upper 2 bits of the ROM bank number or the RAM bank number,
            // depending on the current banking mode.
            self.bank_high_bits = value & 0b11;
            self.update_rom_offsets();
            self.update_ram_offset();
        } else if address <= BANKING_MODE_SELECT_END {
            // Selects the banking mode.
            self.banking_mode = if value & 0b1 == 0 {
                BankingMode::Simple
            } else {
                BankingMode::Advanced
            };
            self.update_rom_offsets();
            self.update_ram_offset();
        } else if CRAM_BANK_BEGIN <= address && address <= CRAM_BANK_END {
            if self.has_ram_access && self.ram.len() != 0 {
                self.ram.write(self.ram_bank_offset, address - CRAM_BANK_BEGIN, value);
            }
        }
    }

    /// Replaces the RAM by a saved image of the same size.
    pub fn load_ram(&mut self, ram: Vec<u8>)
        requires
            ram.len() == old(self).ram@.len(),
        ensures
            final(self).ram@ == ram@,
            *final(self) == (MBC1 { ram: final(self).ram, ..*old(self) }),
    {
        self.ram.load(&ram);
    }

    /// A copy of the RAM, if it is battery-backed and not enabled for writing.
    pub fn save_ram(&self) -> (r: Result<Vec<u8>, SaveError>)
        ensures
            self.ram@.len() == 0 || !self.config.controller.battery() ==> r == Err::<Vec<u8>, SaveError>(SaveError::NoSaveSupport),
            self.ram@.len() != 0 && self.config.controller.battery() && self.has_ram_access ==> r == Err::<Vec<u8>, SaveError>(SaveError::RAMLocked),
            self.ram@.len() != 0 && self.config.controller.battery() && !self.has_ram_access ==> (r matches Ok(ram) && ram@ == self.ram@),
    {
        if self.ram.len() == 0 || !self.config.controller.has_battery() {
            return Err(SaveError::NoSaveSupport);
        }
        if self.has_ram_access {
            return Err(SaveError::RAMLocked);
        }
        Ok(self.ram.to_vec())
    }
}

} // verus!
