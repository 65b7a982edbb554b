use crate::cartridge::mbc1::MBC1;
use crate::cartridge::mbc3::{RAMBankSelection, MBC3};
use crate::cartridge::mbc5::MBC5;
use crate::cartridge::nombc::NoMBC;
use crate::cartridge::{byte_at, is_cartridge_address, CartridgeConfig, ControllerType, SaveError, MAX_RAM_SIZE, RAM_BANK_SIZE};
use crate::constants::CRAM_BANK_BEGIN;
use crate::constants::CRAM_BANK_END;
use crate::constants::{ROM_HIGH_BANK_BEGIN, ROM_HIGH_BANK_END};
use vstd::prelude::*;

verus! {

/// The memory bank controller of a cartridge, which maps its ROM and RAM banks into the
/// address space.
#[derive(Clone, Debug)]
pub enum BankController {
    NoMBC(NoMBC),
    MBC1(MBC1),
    MBC3(MBC3),
    MBC5(MBC5),
}

/// Creates the bank controller for `config` over the ROM image `rom`; MBC2 and MBC7 have
/// none.
pub fn new(config: CartridgeConfig, rom: Vec<u8>) -> (r: BankController)
    requires
        config.controller.is_implemented(),
        config.ram_len() <= MAX_RAM_SIZE,
    ensures
        r.config() == config,
        r.rom() == rom@,
        r.ram() == Seq::new(config.ram_len(), |i: int| 0u8),
        match config.controller {
            ControllerType::NoMBC { .. } => r is NoMBC,
            ControllerType::MBC1 { .. } => r matches BankController::MBC1(c) && c.bank_low_bits == 1
                && c.bank_high_bits == 0 && !c.has_ram_access && c.low_rom_bank_offset == 0
                && c.high_rom_bank_offset == ROM_HIGH_BANK_BEGIN && c.ram_bank_offset == 0,
            ControllerType::MBC3 { .. } => r matches BankController::MBC3(c) && c.rom_bank_number
                == 1 && !c.has_ram_rtc_access,
            _ => r matches BankController::MBC5(c) && c.rom_bank_number == 1 && !c.has_ram_access,
        },
        forall|address: u16| #![trigger r.peek(address)]
            address <= ROM_HIGH_BANK_END ==> r.peek(address) == byte_at(rom@, address as int),
{
    match config.controller {
        ControllerType::NoMBC { .. } => BankController::NoMBC(NoMBC::new(config, rom)),
        ControllerType::MBC1 { .. } => BankController::MBC1(MBC1::new(config, rom)),
        ControllerType::MBC3 { .. } => BankController::MBC3(MBC3::new(config, rom)),
        _ => BankController::MBC5(MBC5::new(config, rom)),
    }
}

impl BankController {
    /// The configuration the controller was made with.
    pub open spec fn config(self) -> CartridgeConfig {
        match self {
            BankController::NoMBC(c) => c.config,
            BankController::MBC1(c) => c.config,
            BankController::MBC3(c) => c.config,
            BankController::MBC5(c) => c.config,
        }
    }

    /// The ROM image.
    pub open spec fn rom(self) -> Seq<u8> {
        match self {
            BankController::NoMBC(c) => c.rom@,
            BankController::MBC1(c) => c.rom@,
            BankController::MBC3(c) => c.rom@,
            BankController::MBC5(c) => c.rom@,
        }
    }

    /// The RAM image.
    pub open spec fn ram(self) -> Seq<u8> {
        match self {
            BankController::NoMBC(c) => c.ram@,
            BankController::MBC1(c) => c.ram@,
            BankController::MBC3(c) => c.ram@,
            BankController::MBC5(c) => c.ram@,
        }
    }

    /// The value a read of a cartridge address yields.
    pub open spec fn peek(self, address: u16) -> u8 {
        match self {
            BankController::NoMBC(c) => c.peek(address),
            BankController::MBC1(c) => c.peek(address),
            BankController::MBC3(c) => c.peek(address),
            BankController::MBC5(c) => c.peek(address),
        }
    }

    /// The state after `value` has been written to `address`.
    pub open spec fn written(self, address: u16, value: u8) -> Self {
        match self {
            BankController::NoMBC(c) => BankController::NoMBC(c.written(address, value)),
            BankController::MBC1(c) => BankController::MBC1(c.written(address, value)),
            BankController::MBC3(c) => BankController::MBC3(c.written(address, value)),
            BankController::MBC5(c) => BankController::MBC5(c.written(address, value)),
        }
    }

    /// The index into the RAM image that a read or write of the cartridge RAM address
    /// `address` reaches, or `None` while the RAM is disabled, absent or (on an MBC3)
    /// replaced by a clock register.
    pub open spec fn ram_slot(self, address: u16) -> Option<int> {
        let offset = address - CRAM_BANK_BEGIN;
        match self {
            BankController::NoMBC(c) => if c.ram@.len() != 0 {
                Some(offset)
            } else {
                None
            },
            BankController::MBC1(c) => if c.has_ram_access && c.ram@.len() != 0 {
                Some(c.ram_bank_offset + offset)
            } else {
                None
            },
            BankController::MBC3(c) => match c.ram_bank_selection {
                RAMBankSelection::RAMBank(bank) => if c.has_ram_rtc_access && c.ram@.len() != 0 {
                    Some(bank * RAM_BANK_SIZE + offset)
                } else {
                    None
                },
                _ => None,
            },
            BankController::MBC5(c) => if c.has_ram_access && c.ram@.len() != 0 {
                Some(c.ram_bank_number * RAM_BANK_SIZE + offset)
            } else {
                None
            },
        }
    }

    /// Reading cartridge RAM gives back the byte last written there: after a write to an
    /// address that reaches the RAM image, a read of it yields the written value; a write
    /// that reaches no RAM leaves the RAM image unchanged.
    pub proof fn lemma_ram_read_back(self, address: u16, value: u8)
        requires
            CRAM_BANK_BEGIN <= address <= CRAM_BANK_END,
        ensures
            self.ram_slot(address) matches Some(i) && 0 <= i < self.ram().len() ==> self.written(
                address,
                value,
            ).peek(address) == value,
            self.ram_slot(address) is None ==> self.written(address, value).ram() == self.ram(),
            self.written(address, value).config() == self.config(),
            self.written(address, value).rom() == self.rom(),
    {
        match self {
            BankController::NoMBC(c) => c.ram.lemma_written_view(address - CRAM_BANK_BEGIN, value),
            BankController::MBC1(c) => c.ram.lemma_written_view(
                c.ram_bank_offset + (address - CRAM_BANK_BEGIN),
                value,
            ),
            BankController::MBC3(c) => match c.ram_bank_selection {
                RAMBankSelection::RAMBank(bank) => c.ram.lemma_written_view(
                    bank * RAM_BANK_SIZE + (address - CRAM_BANK_BEGIN),
                    value,
                ),
                _ => {},
            },
            BankController::MBC5(c) => c.ram.lemma_written_view(
                c.ram_bank_number * RAM_BANK_SIZE + (address - CRAM_BANK_BEGIN),
                value,
            ),
        }
    }

    /// The size of the RAM image in bytes.
    pub fn ram_len(&self) -> (r: usize)
        ensures
            r == self.ram().len(),
    {
        match self {
            BankController::NoMBC(c) => c.ram.len(),
            BankController::MBC1(c) => c.ram.len(),
            BankController::MBC3(c) => c.ram.len(),
            BankController::MBC5(c) => c.ram.len(),
        }
    }

    /// Reads a byte from the given address.
    pub fn read(&mut self, address: u16) -> (r: u8)
        requires
            is_cartridge_address(address),
        ensures
            r == old(self).peek(address),
            *final(self) == *old(self),
    {
        match self {
            BankController::NoMBC(c) => c.read(address),
            BankController::MBC1(c) => c.read(address),
            BankController::MBC3(c) => c.read(address),
            BankController::MBC5(c) => c.read(address),
        }
    }

    /// Writes a byte to the given address.
    pub fn write(&mut self, address: u16, value: u8)
        ensures
            *final(self) == old(self).written(address, value),
    {
        match self {
            BankController::NoMBC(c) => c.write(address, value),
            BankController::MBC1(c) => c.write(address, value),
            BankController::MBC3(c) => c.write(address, value),
            BankController::MBC5(c) => c.write(address, value),
        }
    }

    /// Loads the given RAM, of the size of the current one, into the controller.
    pub fn load_ram(&mut self, ram: Vec<u8>)
        requires
            ram.len() == old(self).ram().len(),
        ensures
            final(self).ram() == ram@,
            final(self).config() == old(self).config(),
            final(self).rom() == old(self).rom(),
    {
        match self {
            BankController::NoMBC(c) => c.load_ram(ram),
            BankController::MBC1(c) => c.load_ram(ram),
            BankController::MBC3(c) => c.load_ram(ram),
            BankController::MBC5(c) => c.load_ram(ram),
        }
    }

    /// What a snapshot of the RAM gives: nothing without battery-backed RAM, nothing from
    /// an MBC1 while its RAM is enabled for writing, else the RAM image.
    pub open spec fn saved(self) -> Result<Seq<u8>, SaveError> {
        if self.ram().len() == 0 || !self.config().controller.battery() {
            Err(SaveError::NoSaveSupport)
        } else {
            match self {
                BankController::MBC1(c) => if c.has_ram_access {
                    Err(SaveError::RAMLocked)
                } else {
                    Ok(self.ram())
                },
                _ => Ok(self.ram()),
            }
        }
    }

    /// Creates a snapshot of the RAM, if the controller has battery powered RAM.
    pub fn save_ram(&self) -> (r: Result<Vec<u8>, SaveError>)
        ensures
            match self.saved() {
                Ok(ram) => r matches Ok(v) && v@ == ram,
                Err(e) => r == Err::<Vec<u8>, SaveError>(e),
            },
    {
        match self {
            BankController::NoMBC(c) => c.save_ram(),
            BankController::MBC1(c) => c.save_ram(),
            BankController::MBC3(c) => c.save_ram(),
            BankController::MBC5(c) => c.save_ram(),
        }
    }
}

} // verus!
