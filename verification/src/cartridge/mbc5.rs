use crate::cartridge::{
    bank_mask_spec, byte_at, is_cartridge_address, read_byte_offset, rom_bank_mask, CartridgeConfig,
    CartridgeRam, SaveError, MAX_RAM_SIZE, RAM_BANK_SIZE, ROM_BANK_SIZE,
};
use crate::constants::{
    CRAM_BANK_BEGIN, CRAM_BANK_END, ROM_HIGH_BANK_BEGIN, ROM_HIGH_BANK_END, ROM_LOW_BANK_END,
    UNDEFINED_READ,
};
use vstd::prelude::*;

verus! {

/// Mostly the same as for MBC1. Writing $0A will enable reading and writing to external RAM.
/// Writing $00 will disable it.
pub const RAM_ENABLE_BEGIN: u16 = 0x0000;
pub const RAM_ENABLE_END: u16 = 0x1FFF;

/// The 8 least significant bits of the ROM bank number go here.
/// Writing 0 will indeed give bank 0 on MBC5, unlike other MBCs.
pub const ROM_BANK_LOW_BITS_BEGIN: u16 = 0x2000;
pub const ROM_BANK_LOW_BITS_END: u16 = 0x2FFF;

/// The 9th bit of the ROM bank number goes here.
pub const ROM_BANK_HIGH_BIT_BEGIN: u16 = 0x3000;
pub const ROM_BANK_HIGH_BIT_END: u16 = 0x3FFF;

/// As for the MBC1s RAM Banking Mode, writing a value in the range $00-$0F maps the corresponding
/// external RAM bank (if any) into the memory area at A000-BFFF.
pub const RAM_BANK_NUMBER_BEGIN: u16 = 0x4000;
pub const RAM_BANK_NUMBER_END: u16 = 0x5FFF;

/// It can map up to 64 MBits (8 MiB) of ROM.
/// MBC5 (Memory Bank Controller 5) is the 5th generation MBC.
#[derive(Clone, Debug)]
pub struct MBC5 {
    pub config: CartridgeConfig,
    pub rom: Vec<u8>,
    pub ram: CartridgeRam,
    pub rom_bank_number: u16,  // current selected ROM bank number for 0x4000 - 0x7FFF
    pub ram_bank_number: u8,  // current selected RAM bank number for 0xA000 - 0xBFFF
    pub has_ram_access: bool,
}

/// How the two ROM bank registers combine with a bank number `n` below 0x100: the low
/// register replaces its low 8 bits by `v`, the high register ORs bit 0 of `h` in as bit 8.
proof fn lemma_bank_bits(n: u16, v: u8, h: u8)
    requires
        n < 0x100,
    ensures
        ((n & 0xFF00) | (v as u16 & 0x00FF)) == v as u16,
        h & 1 == 1 ==> (n | (((h & 0b1) as u16) << 8u16)) == n + 0x100,
        h & 1 == 0 ==> (n | (((h & 0b1) as u16) << 8u16)) == n,
{
    let w = v as u16;
    assert(((n & 0xFF00) | (w & 0x00FF)) == w && (h & 1 == 1 ==> (n | (((h & 0b1) as u16)
        << 8u16)) == n + 0x100) && (h & 1 == 0 ==> (n | (((h & 0b1) as u16) << 8u16)) == n))
        by (bit_vector)
        requires
            n < 0x100,
            w < 0x100,
    ;
}

impl MBC5 {
    /// The value a read of a cartridge address yields.
    pub open spec fn peek(self, address: u16) -> u8 {
        if address <= ROM_LOW_BANK_END {
            byte_at(self.rom@, address as int)
        } else if address <= ROM_HIGH_BANK_END {
            byte_at(self.rom@, self.rom_bank_number * ROM_BANK_SIZE + (address - ROM_HIGH_BANK_BEGIN))
        } else if self.has_ram_access && self.ram@.len() != 0 {
            byte_at(self.ram@, self.ram_bank_number * RAM_BANK_SIZE + (address - CRAM_BANK_BEGIN))
        } else {
            UNDEFINED_READ
        }
    }

    /// The registers after `value` has been written to `address`; a write to the RAM area
    /// changes no register (see `write` for the RAM itself).
    pub open spec fn poke(self, address: u16, value: u8) -> Self {
        let mask = bank_mask_spec(self.config.rom_banks as nat) as u16;
        if address <= RAM_ENABLE_END {
            MBC5 { has_ram_access: value & 0b1111 == 0b1010, ..self }
        } else if address <= ROM_BANK_LOW_BITS_END {
            MBC5 {
                rom_bank_number: ((self.rom_bank_number & 0xFF00) | (value as u16 & 0x00FF)) & mask,
                ..self
            }
        } else if address <= ROM_BANK_HIGH_BIT_END {
            MBC5 {
                rom_bank_number: (self.rom_bank_number | (((value & 0b1) as u16) << 8u16)) & mask,
                ..self
            }
        } else if address <= RAM_BANK_NUMBER_END {
            MBC5 { ram_bank_number: value & 0b0000_1111, ..self }
        } else {
            self
        }
    }

    /// The low ROM bank register takes all 8 bits of the written value: while bit 8 of the
    /// bank number is clear, writing any `v` below the number of ROM banks selects bank
    /// `v`, and reads of 0x4000-0x7FFF then show byte `offset` of bank `v`.
    pub proof fn lemma_low_bank_select(self, address: u16, v: u8, offset: u16)
        requires
            ROM_BANK_LOW_BITS_BEGIN <= address <= ROM_BANK_LOW_BITS_END,
            self.rom_bank_number < 0x100,
            (v as int) < self.config.rom_banks,
            offset < 0x4000,
        ensures
            self.poke(address, v).rom_bank_number == v,
            self.poke(address, v).peek((ROM_HIGH_BANK_BEGIN + offset) as u16) == byte_at(
                self.rom@,
                v * 0x4000 + offset,
            ),
    {
        let n = self.rom_bank_number;
        let w = v as u16;
        lemma_bank_bits(n, v, 0);
        crate::cartridge::lemma_bank_mask_covers(self.config.rom_banks as nat);
        crate::cartridge::lemma_bank_mask_fits(self.config.rom_banks);
        crate::cartridge::lemma_bank_mask_keeps(self.config.rom_banks as nat, w);
    }

    /// The high ROM bank register supplies bit 8 of the bank number: writing a value with
    /// bit 0 set selects the bank 0x100 above the current one, when the ROM has it; a
    /// value with bit 0 clear leaves a bank below 0x100 selected.
    pub proof fn lemma_high_bank_select(self, address: u16, value: u8)
        requires
            ROM_BANK_HIGH_BIT_BEGIN <= address <= ROM_BANK_HIGH_BIT_END,
            self.rom_bank_number < 0x100,
            self.rom_bank_number + 0x100 < self.config.rom_banks,
        ensures
            value & 1 == 1 ==> self.poke(address, value).rom_bank_number == self.rom_bank_number
                + 0x100,
            value & 1 == 0 ==> self.poke(address, value).rom_bank_number == self.rom_bank_number,
    {
        let n = self.rom_bank_number;
        let t: u16 = (n + 0x100) as u16;
        lemma_bank_bits(n, 0, value);
        crate::cartridge::lemma_bank_mask_covers(self.config.rom_banks as nat);
        crate::cartridge::lemma_bank_mask_fits(self.config.rom_banks);
        crate::cartridge::lemma_bank_mask_keeps(self.config.rom_banks as nat, t);
        crate::cartridge::lemma_bank_mask_keeps(self.config.rom_banks as nat, n);
    }

    /// A controller for `rom` with bank 1 selected, RAM bank 0 selected, RAM disabled and
    /// zeroed.
    pub fn new(config: CartridgeConfig, rom: Vec<u8>) -> (r: Self)
        requires
            config.ram_len() <= MAX_RAM_SIZE,
        ensures
            r.config == config,
            r.rom@ == rom@,
            r.ram@ == Seq::new(config.ram_len(), |i: int| 0u8),
            r.rom_bank_number == 1,
            r.ram_bank_number == 0,
            !r.has_ram_access,
    {
        Self {
            ram: CartridgeRam::new(config.ram_size()),
            rom_bank_number: 1,
            ram_bank_number: 0,
            has_ram_access: false,
            config,
            rom,
        }
    }

    /// Reads the ROM through the selected bank, or the selected RAM bank if RAM is enabled.
    pub fn read(&mut self, address: u16) -> (r: u8)
        requires
            is_cartridge_address(address),
        ensures
            r == old(self).peek(address),
            *final(self) == *old(self),
    {
        if address <= ROM_LOW_BANK_END {
            read_byte_offset(&self.rom, 0, address)
        } else if address <= ROM_HIGH_BANK_END {
            let offset = self.rom_bank_number as usize * ROM_BANK_SIZE;
            read_byte_offset(&self.rom, offset, address - ROM_HIGH_BANK_BEGIN)
        } else if self.has_ram_access && self.ram.len() != 0 {
            let offset = self.ram_bank_number as usize * RAM_BANK_SIZE;
            self.ram.read(offset, address - CRAM_BANK_BEGIN)
        } else {
            UNDEFINED_READ
        }
    }

    /// The state after `value` has been written to `address`: a bank register, or the
    /// RAM when the write reaches it.
    pub open spec fn written(self, address: u16, value: u8) -> Self {
        if CRAM_BANK_BEGIN <= address <= CRAM_BANK_END && self.has_ram_access && self.ram@.len() != 0 {
            MBC5 { ram: self.ram.written(self.ram_bank_number * RAM_BANK_SIZE + (address - CRAM_BANK_BEGIN), value), ..self }
        } else {
            self.poke(address, value)
        }
    }

    /// Writes a control register, or the selected RAM bank if RAM is enabled.
    pub fn write(&mut self, address: u16, value: u8)
        ensures
            *final(self) == old(self).written(address, value),
    {
        if address <= RAM_ENABLE_END {
            // Any value with 0x0A in the lower 4 bits enables ram, any other value disables it.
            self.has_ram_access = value & 0b1111 == 0b1010;
        } else if address <= ROM_BANK_LOW_BITS_END {
            // Sets the lower 8 bits of the ROM bank number.
            let mask = rom_bank_mask(self.config.rom_banks) as u16;
            self.rom_bank_number = ((self.rom_bank_number & 0xFF00) | (value as u16 & 0x00FF)) & mask;
        } else if address <= ROM_BANK_HIGH_BIT_END {
            // Sets the upper 1 bit of the ROM bank number.
            let mask = rom_bank_mask(self.config.rom_banks) as u16;
            self.rom_bank_number = (self.rom_bank_number | (((value & 0b1) as u16) << 8u16)) & mask;
        } else if address <= RAM_BANK_NUMBER_END {
            self.ram_bank_number = value & 0b0000_1111;
        } else if CRAM_BANK_BEGIN <= address && address <= CRAM_BANK_END {
            if self.has_ram_access && self.ram.len() != 0 {
                let offset = self.ram_bank_number as usize * RAM_BANK_SIZE;
                self.ram.write(offset, address - CRAM_BANK_BEGIN, value);
            }
        }
    }

    /// Replaces the RAM by a saved image of the same size.
    pub fn load_ram(&mut self, ram: Vec<u8>)
        requires
            ram.len() == old(self).ram@.len(),
        ensures
            final(self).ram@ == ram@,
            *final(self) == (MBC5 { ram: final(self).ram, ..*old(self) }),
    {
        self.ram.load(&ram);
    }

    /// A copy of the RAM, if it is battery-backed.
    pub fn save_ram(&self) -> (r: Result<Vec<u8>, SaveError>)
        ensures
            self.ram@.len() == 0 || !self.config.controller.battery() ==> r == Err::<Vec<u8>, SaveError>(SaveError::NoSaveSupport),
            self.ram@.len() != 0 && self.config.controller.battery() ==> (r matches Ok(ram) && ram@ == self.ram@),
    {
        if self.ram.len() == 0 || !self.config.controller.has_battery() {
            return Err(SaveError::NoSaveSupport);
        }
        Ok(self.ram.to_vec())
    }
}

} // verus!
