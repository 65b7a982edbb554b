use crate::cartridge::{
    bank_mask_spec, byte_at, is_cartridge_address, read_byte_offset, rom_bank_mask, CartridgeConfig,
    CartridgeRam, SaveError, MAX_RAM_SIZE, RAM_BANK_SIZE, ROM_BANK_SIZE,
};
use crate::constants::{
    CRAM_BANK_BEGIN, CRAM_BANK_END, ROM_HIGH_BANK_BEGIN, ROM_HIGH_BANK_END, ROM_LOW_BANK_END,
    UNDEFINED_READ,
};
use vstd::prelude::*;

verus! {

/// Mostly the same as for MBC1, a value of $0A will enable reading and writing to external RAM
/// and to the RTC Registers! A value of $00 will disable either.
pub const RAM_RTC_ENABLE_BEGIN: u16 = 0x0000;
pub const RAM_RTC_ENABLE_END: u16 = 0x1FFF;

/// Same as for MBC1, except that the whole 7 bits of the ROM Bank Number are written directly to
/// this address. As for the MBC1, writing a value of 0x00 will select Bank 0x01 instead.
pub const ROM_BANK_NUMBER_BEGIN: u16 = 0x2000;
pub const ROM_BANK_NUMBER_END: u16 = 0x3FFF;

/// Controls what is mapped into memory at 0xA000 - 0xBFFF.
/// 0x00 - 0x07: RAM bank.
/// 0x08 - 0x0C: RTC register.
pub const RAM_BANK_NUMBER_BEGIN: u16 = 0x4000;
pub const RAM_BANK_NUMBER_END: u16 = 0x5FFF;

/// When writing 0x00, and then 0x01 to this register, the current time becomes latched into the RTC
/// registers.
pub const LATCH_CLOCK_DATA_BEGIN: u16 = 0x6000;
pub const LATCH_CLOCK_DATA_END: u16 = 0x7FFF;

/// The RTC registers are used to keep track of play time.
/// See https://gbdev.io/pandocs/MBC3.html#clock-counter-registers
#[derive(Copy, Clone, PartialEq, Eq, Structural, Debug, Default)]
pub struct RTCRegisters {
    pub seconds: u8,
    pub minutes: u8,
    pub hours: u8,
    pub day_low: u8,
    pub day_high: u8,  // bit 0: day counter MSB, bit 6: halt, bit 7: day counter carry
}

/// Determines the current selected RAM bank or RTC register.
#[derive(Copy, Clone, PartialEq, Eq, Structural, Debug)]
pub enum RAMBankSelection {
    RAMBank(u8),
    Seconds,
    Minutes,
    Hours,
    DayLow,
    DayHigh,
}

/// The progress of the latch sequence (a write of 0x00, then of 0x01).
#[derive(Copy, Clone, PartialEq, Eq, Structural, Debug)]
pub enum RTCLatchState {
    Undefined,
    Pending,
    Latched,
}

/// Beside for the ability to access up to 2MB ROM (128 banks), and 32KB RAM (4 banks),
/// the MBC3 also includes a built-in Real Time Clock (RTC).
#[derive(Clone, Debug)]
pub struct MBC3 {
    pub config: CartridgeConfig,
    pub rom: Vec<u8>,
    pub ram: CartridgeRam,
    pub rtc: RTCRegisters,
    pub rom_bank_number: u8,  // Mapped ROM bank number for 0x4000 - 0x7FFF
    pub rtc_latch: RTCLatchState,  // RTC Latch for 0x6000 - 0x7FFF
    pub ram_bank_selection: RAMBankSelection,  // Mapped RAM bank number or RTC for 0xA000 - 0xBFFF
    pub has_ram_rtc_access: bool,
}

/// The RAM bank or clock register that a write of `value` to 0x4000 - 0x5FFF selects,
/// `None` for values that select nothing.
pub open spec fn selection_of(value: u8) -> Option<RAMBankSelection> {
    if value <= 0x07 {
        Some(RAMBankSelection::RAMBank(value))
    } else if value == 0x08 {
        Some(RAMBankSelection::Seconds)
    } else if value == 0x09 {
        Some(RAMBankSelection::Minutes)
    } else if value == 0x0A {
        Some(RAMBankSelection::Hours)
    } else if value == 0x0B {
        Some(RAMBankSelection::DayLow)
    } else if value == 0x0C {
        Some(RAMBankSelection::DayHigh)
    } else {
        None
    }
}

impl MBC3 {
    /// The value a read of a cartridge address yields.
    pub open spec fn peek(self, address: u16) -> u8 {
        if address <= ROM_LOW_BANK_END {
            byte_at(self.rom@, address as int)
        } else if address <= ROM_HIGH_BANK_END {
            byte_at(self.rom@, self.rom_bank_number * ROM_BANK_SIZE + (address - ROM_HIGH_BANK_BEGIN))
        } else if !self.has_ram_rtc_access {
            UNDEFINED_READ
        } else {
            match self.ram_bank_selection {
                RAMBankSelection::RAMBank(bank) => if self.ram@.len() == 0 {
                    UNDEFINED_READ
                } else {
                    byte_at(self.ram@, bank * RAM_BANK_SIZE + (address - CRAM_BANK_BEGIN))
                },
                RAMBankSelection::Seconds => self.rtc.seconds,
                RAMBankSelection::Minutes => self.rtc.minutes,
                RAMBankSelection::Hours => self.rtc.hours,
                RAMBankSelection::DayLow => self.rtc.day_low,
                RAMBankSelection::DayHigh => self.rtc.day_high,
            }
        }
    }

    /// The registers after `value` has been written to `address`; a write to the RAM area
    /// changes no register (see `write` for the RAM itself).
    pub open spec fn poke(self, address: u16, value: u8) -> Self {
        if address <= RAM_RTC_ENABLE_END {
            MBC3 { has_ram_rtc_access: value & 0b1111 == 0b1010, ..self }
        } else if address <= ROM_BANK_NUMBER_END {
            let number: u8 = if value & 0b0111_1111 == 0 { 1 } else { value & 0b0111_1111 };
            MBC3 {
                rom_bank_number: number & (bank_mask_spec(self.config.rom_banks as nat) as u8),
                ..self
            }
        } else if address <= RAM_BANK_NUMBER_END {
            match selection_of(value) {
                Some(selection) => MBC3 { ram_bank_selection: selection, ..self },
                None => self,
            }
        } else if address <= LATCH_CLOCK_DATA_END {
            MBC3 {
                rtc_latch: if value == 0x00 {
                    RTCLatchState::Pending
                } else if value == 0x01 && self.rtc_latch == RTCLatchState::Pending {
                    RTCLatchState::Latched
                } else {
                    RTCLatchState::Undefined
                },
                ..self
            }
        } else {
            self
        }
    }

    /// A controller for `rom` with bank 1 selected, RAM bank 0 selected, RAM and clock
    /// disabled, zeroed RAM and clock.
    pub fn new(config: CartridgeConfig, rom: Vec<u8>) -> (r: Self)
        requires
            config.ram_len() <= MAX_RAM_SIZE,
        ensures
            r.config == config,
            r.rom@ == rom@,
            r.ram@ == Seq::new(config.ram_len(), |i: int| 0u8),
            r.rtc == (RTCRegisters { seconds: 0, minutes: 0, hours: 0, day_low: 0, day_high: 0 }),
            r.rom_bank_number == 1,
            r.rtc_latch == RTCLatchState::Undefined,
            r.ram_bank_selection == RAMBankSelection::RAMBank(0),
            !r.has_ram_rtc_access,
    {
        Self {
            ram: CartridgeRam::new(config.ram_size()),
            rtc: RTCRegisters { seconds: 0, minutes: 0, hours: 0, day_low: 0, day_high: 0 },
            rom_bank_number: 1,
            rtc_latch: RTCLatchState::Undefined,
            ram_bank_selection: RAMBankSelection::RAMBank(0),
            has_ram_rtc_access: false,
            rom,
            config,
        }
    }

    /// Reads the ROM through the selected bank, or the selected RAM bank or clock register
    /// if they are enabled.
    pub fn read(&mut self, address: u16) -> (r: u8)
        requires
            is_cartridge_address(address),
        ensures
            r == old(self).peek(address),
            *final(self) == *old(self),
    {
        if address <= ROM_LOW_BANK_END {
            read_byte_offset(&self.rom, 0, address)
        } else if address <= ROM_HIGH_BANK_END {
            let offset = self.rom_bank_number as usize * ROM_BANK_SIZE;
            read_byte_offset(&self.rom, offset, address - ROM_HIGH_BANK_BEGIN)
        } else if !self.has_ram_rtc_access {
            UNDEFINED_READ
        } else {
            match self.ram_bank_selection {
                RAMBankSelection::RAMBank(bank) => {
                    if self.ram.len() == 0 {
                        UNDEFINED_READ
                    } else {
                        let offset = bank as usize * RAM_BANK_SIZE;
                        self.ram.read(offset, address - CRAM_BANK_BEGIN)
                    }
                },
                RAMBankSelection::Seconds => self.rtc.seconds,
                RAMBankSelection::Minutes => self.rtc.minutes,
                RAMBankSelection::Hours => self.rtc.hours,
                RAMBankSelection::DayLow => self.rtc.day_low,
                RAMBankSelection::DayHigh => self.rtc.day_high,
            }
        }
    }

    /// The state after `value` has been written to `address`: a control register, or the
    /// selected RAM bank when the write reaches it.
    pub open spec fn written(self, address: u16, value: u8) -> Self {
        match self.ram_bank_selection {
            RAMBankSelection::RAMBank(bank) => if CRAM_BANK_BEGIN <= address <= CRAM_BANK_END
                && self.has_ram_rtc_access && self.ram@.len() != 0 {
                MBC3 { ram: self.ram.written(bank * RAM_BANK_SIZE + (address - CRAM_BANK_BEGIN), value), ..self }
            } else {
                self.poke(address, value)
            },
            _ => self.poke(address, value),
        }
    }

    /// Writes a control register, or the selected RAM bank if it is enabled.
    pub fn write(&mut self, address: u16, value: u8)
        ensures
            *final(self) == old(self).written(address, value),
    {
        if address <= RAM_RTC_ENABLE_END {
            self.has_ram_rtc_access = value & 0b1111 == 0b1010;
        } else if address <= ROM_BANK_NUMBER_END {
            let number: u8 = if value & 0b0111_1111 == 0 { 1 } else { value & 0b0111_1111 };
            self.rom_bank_number = number & (rom_bank_mask(self.config.rom_banks) as u8);
        } else if address <= RAM_BANK_NUMBER_END {
            self.ram_bank_selection = if value <= 0x07 {
                RAMBankSelection::RAMBank(value)
            } else if value == 0x08 {
                RAMBankSelection::Seconds
            } else if value == 0x09 {
                RAMBankSelection::Minutes
            } else if value == 0x0A {
                RAMBankSelection::Hours
            } else if value == 0x0B {
                RAMBankSelection::DayLow
            } else if value == 0x0C {
                RAMBankSelection::DayHigh
            } else {
                return ;
            };
        } else if address <= LATCH_CLOCK_DATA_END {
            self.rtc_latch = if value == 0x00 {
                RTCLatchState::Pending
            } else if value == 0x01 && self.rtc_latch == RTCLatchState::Pending {
                RTCLatchState::Latched
            } else {
                RTCLatchState::Undefined
            };
        } else if CRAM_BANK_BEGIN <= address && address <= CRAM_BANK_END {
            if !self.has_ram_rtc_access {
                return ;
            }
            match self.ram_bank_selection {
                RAMBankSelection::RAMBank(bank) => {
                    if self.ram.len() != 0 {
                        let offset = bank as usize * RAM_BANK_SIZE;
                        self.ram.write(offset, address - CRAM_BANK_BEGIN, value);
                    }
                },
                _ => {},
            }
        }
    }

    /// Replaces the RAM by a saved image of the same size.
    pub fn load_ram(&mut self, ram: Vec<u8>)
        requires
            ram.len() == old(self).ram@.len(),
        ensures
            final(self).ram@ == ram@,
            *final(self) == (MBC3 { ram: final(self).ram, ..*old(self) }),
    {
        self.ram.load(&ram);
    }

    /// A copy of the RAM, if it is battery-backed.
    pub fn save_ram(&self) -> (r: Result<Vec<u8>, SaveError>)
        ensures
            self.ram@.len() == 0 || !self.config.controller.battery() ==> r == Err::<Vec<u8>, SaveError>(SaveError::NoSaveSupport),
            self.ram@.len() != 0 && self.config.controller.battery() ==> (r matches Ok(ram) && ram@ == self.ram@),
    {
        if self.ram.len() == 0 || !self.config.controller.has_battery() {
            return Err(SaveError::NoSaveSupport);
        }
        Ok(self.ram.to_vec())
    }
}

} // verus!
