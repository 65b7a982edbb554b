//! A plain cartridge: ROM banks switched by an MBC1 or MBC2 controller, and four banks of
//! cartridge RAM.
use crate::cartridge::alphanumeric_chars;
use crate::constants::{CRAM_BANK_BEGIN, CRAM_BANK_END};
use crate::text::push_char;
use crate::utils::bit_spec;
use vstd::array::spec_array_update;
use vstd::prelude::*;

verus! {

/// This area of memory contains the cartridge title
pub const CARTRIDGE_TITLE_BEGIN: u16 = 0x0134;

pub const CARTRIDGE_TITLE_END: u16 = 0x0142;

/// Byte 0x0143 of the header unlocks the CGB features.
pub const CARTRIDGE_CGB_FLAG: u16 = 0x0143;

/// This address contains the cartridge type and what kind of hardware is present.
pub const CARTRIDGE_TYPE: u16 = 0x0147;

/// The size of a switchable ROM bank.
pub const ROM_BANK_SIZE: usize = 0x4000;

/// The size of a RAM bank.
pub const RAM_BANK_SIZE: usize = 0x2000;

/// The size of the cartridge RAM: four banks.
pub const RAM_SIZE: usize = 0x8000;

/// The bank controllers that this cartridge knows.
#[derive(Copy, Clone, PartialEq, Eq, Structural, Debug)]
pub enum BankingMode {
    NoMBC,
    MBC1,
    MBC2,
}

/// A cartridge type that this cartridge does not implement.
#[derive(Copy, Clone, PartialEq, Eq, Structural, Debug)]
pub struct UnsupportedType {
    pub cartridge_type: u8,
}

/// The bank controller of a cartridge type: 0x00 has none, 0x01 to 0x03 are MBC1, 0x05
/// and 0x06 MBC2.
pub open spec fn banking_of(value: u8) -> Option<BankingMode> {
    if value == 0x00 {
        Some(BankingMode::NoMBC)
    } else if 0x01 <= value <= 0x03 {
        Some(BankingMode::MBC1)
    } else if value == 0x05 || value == 0x06 {
        Some(BankingMode::MBC2)
    } else {
        None
    }
}

impl BankingMode {
    /// The bank controller of a cartridge type, or the type when it is not implemented.
    pub fn try_from(value: u8) -> (r: Result<Self, UnsupportedType>)
        ensures
            match banking_of(value) {
                Some(mode) => r == Ok::<Self, UnsupportedType>(mode),
                None => r == Err::<Self, UnsupportedType>(UnsupportedType { cartridge_type: value }),
            },
    {
        if value == 0x00 {
            Ok(BankingMode::NoMBC)
        } else if 0x01 <= value && value <= 0x03 {
            Ok(BankingMode::MBC1)
        } else if value == 0x05 || value == 0x06 {
            Ok(BankingMode::MBC2)
        } else {
            Err(UnsupportedType { cartridge_type: value })
        }
    }

    /// The name of the controller.
    pub fn name(&self) -> (s: &'static str)
        ensures
            s@ == match self {
                BankingMode::NoMBC => "None"@,
                BankingMode::MBC1 => "MBC1"@,
                BankingMode::MBC2 => "MBC2"@,
            },
    {
        match self {
            BankingMode::NoMBC => "None",
            BankingMode::MBC1 => "MBC1",
            BankingMode::MBC2 => "MBC2",
        }
    }
}

/// The uppercase hexadecimal digit for `d` (0 to 15).
pub open spec fn upper_hex_digit(d: int) -> char {
    if d < 10 {
        ('0' as int + d) as char
    } else {
        ('A' as int + d - 10) as char
    }
}

/// Contains the cartridge header information.
#[derive(Clone, Debug)]
pub struct CartridgeHeader {
    pub title: String,
    pub banking: BankingMode,
    pub cgb_flag: u8,
}

impl CartridgeHeader {
    /// Reads the header: the title, the bank controller and the CGB flag.
    pub fn try_from(buf: &[u8]) -> (r: Result<Self, UnsupportedType>)
        requires
            buf.len() > CARTRIDGE_TYPE,
        ensures
            match banking_of(buf@[CARTRIDGE_TYPE as int]) {
                Some(mode) => r matches Ok(h) && h.title@ == Self::title_of(buf@) && h.banking
                    == mode && h.cgb_flag == buf@[CARTRIDGE_CGB_FLAG as int],
                None => r == Err::<Self, UnsupportedType>(
                    UnsupportedType { cartridge_type: buf@[CARTRIDGE_TYPE as int] },
                ),
            },
    {
        let title = CartridgeHeader::parse_title(buf);
        let banking = match BankingMode::try_from(buf[CARTRIDGE_TYPE as usize]) {
            Ok(mode) => mode,
            Err(e) => return Err(e),
        };
        Ok(Self { title, banking, cgb_flag: buf[CARTRIDGE_CGB_FLAG as usize] })
    }

    /// The title in the header: its ASCII letters and digits.
    pub open spec fn title_of(buf: Seq<u8>) -> Seq<char> {
        alphanumeric_chars(buf.subrange(CARTRIDGE_TITLE_BEGIN as int, CARTRIDGE_TITLE_END + 1))
    }

    /// Returns the cartridge title from the cartridge header.
    pub fn parse_title(buf: &[u8]) -> (title: String)
        requires
            buf.len() > CARTRIDGE_TITLE_END,
        ensures
            title@ == Self::title_of(buf@),
    {
        let mut title = String::new();
        let mut i: usize = CARTRIDGE_TITLE_BEGIN as usize;
        while i <= CARTRIDGE_TITLE_END as usize
            invariant
                CARTRIDGE_TITLE_BEGIN <= i <= CARTRIDGE_TITLE_END + 1,
                buf.len() > CARTRIDGE_TITLE_END,
                title@ == alphanumeric_chars(buf@.subrange(CARTRIDGE_TITLE_BEGIN as int, i as int)),
            decreases CARTRIDGE_TITLE_END + 1 - i,
        {
            let b = buf[i];
            assert(buf@.subrange(CARTRIDGE_TITLE_BEGIN as int, i + 1).drop_last() =~= buf@.subrange(
                CARTRIDGE_TITLE_BEGIN as int,
                i as int,
            ));
            if (0x30 <= b && b <= 0x39) || (0x41 <= b && b <= 0x5A) || (0x61 <= b && b <= 0x7A) {
                push_char(&mut title, b as char);
            }
            i = i + 1;
        }
        title
    }

    /// `Title: <title> (banking: <controller>, cgb_flag: 0x<two uppercase digits>)`.
    pub fn to_string(&self) -> (s: String)
        ensures
            s@ == "Title: "@ + self.title@ + " (banking: "@ + match self.banking {
                BankingMode::NoMBC => "None"@,
                BankingMode::MBC1 => "MBC1"@,
                BankingMode::MBC2 => "MBC2"@,
            } + ", cgb_flag: 0x"@ + seq![
                upper_hex_digit((self.cgb_flag / 16) as int),
                upper_hex_digit((self.cgb_flag % 16) as int),
            ] + ")"@,
    {
        let mut s = String::from_str("Title: ");
        s.append(self.title.as_str());
        s.append(" (banking: ");
        s.append(self.banking.name());
        s.append(", cgb_flag: 0x");
        push_char(&mut s, upper_hex_char(self.cgb_flag / 16));
        push_char(&mut s, upper_hex_char(self.cgb_flag % 16));
        s.append(")");
        s
    }
}

/// The uppercase hexadecimal digit for `d`.
fn upper_hex_char(d: u8) -> (c: char)
    requires
        d < 16,
    ensures
        c == upper_hex_digit(d as int),
{
    if d < 10 {
        (0x30 + d) as char
    } else {
        (0x41 + d - 10) as char
    }
}

/// Contains all data for a cartridge
#[derive(Clone, Debug)]
pub struct Cartridge {
    pub header: CartridgeHeader,
    pub rom: Vec<u8>,
    pub ram: [u8; 0x8000],
    pub cur_rom_bank: u8,
    pub cur_ram_bank: u8,
    pub enable_ram: bool,
    // This variable is responsible for how to act when the game writes to
    // memory address 0x4000-0x6000
    pub rom_banking: bool,
}

/// The ROM bank after bank number `bank` is selected: bank 0 selects bank 1.
pub open spec fn sanitized(bank: u8) -> u8 {
    if bank == 0 {
        1
    } else {
        bank
    }
}

impl Cartridge {
    /// The RAM bank is one of the four.
    pub open spec fn wf(self) -> bool {
        self.cur_ram_bank < 4
    }

    /// Whether a write of `value` to the controller's RAM enable range (0x0000-0x1FFF) is
    /// one this cartridge handles: MBC2 needs bit 4 of the address clear, and the low
    /// nibble of the value must enable (0xA) or disable (0x0) the RAM.
    pub open spec fn handles_ram_enable(self, address: u16, value: u8) -> bool {
        !(self.header.banking == BankingMode::MBC2 && bit_spec(address as u8, 4))
            && (value & 0x0F == 0x0A || value & 0x0F == 0x00)
    }

    /// Whether a write of `value` to `address` is one this cartridge handles: a
    /// controller register or cartridge RAM.
    pub open spec fn can_write(self, address: u16, value: u8) -> bool {
        ||| address <= 0x1FFF && (self.header.banking != BankingMode::NoMBC ==> self.handles_ram_enable(
            address,
            value,
        ))
        ||| 0x2000 <= address <= 0x7FFF
        ||| CRAM_BANK_BEGIN <= address <= CRAM_BANK_END
    }

    /// The cartridge after `value` is written to the controller register at `address`:
    /// RAM enable, the low bits of the ROM bank (four with MBC2, five with MBC1), the high
    /// bits of the ROM bank or the RAM bank (MBC1), and the ROM/RAM banking mode (MBC1).
    pub open spec fn banked(self, address: u16, value: u8) -> Cartridge {
        let mbc = self.header.banking != BankingMode::NoMBC;
        let mbc1 = self.header.banking == BankingMode::MBC1;
        if address <= 0x1FFF {
            if mbc {
                Cartridge { enable_ram: value & 0x0F == 0x0A, ..self }
            } else {
                self
            }
        } else if address <= 0x3FFF {
            if self.header.banking == BankingMode::MBC2 {
                Cartridge { cur_rom_bank: sanitized(value & 0x0F), ..self }
            } else if mbc1 {
                Cartridge { cur_rom_bank: sanitized((self.cur_rom_bank & 0xE0) | (value & 0x1F)), ..self }
            } else {
                self
            }
        } else if address <= 0x5FFF {
            if !mbc1 {
                self
            } else if self.rom_banking {
                Cartridge { cur_rom_bank: sanitized((self.cur_rom_bank & 0x1F) | (value & 0xE0)), ..self }
            } else {
                Cartridge { cur_ram_bank: value & 0x03, ..self }
            }
        } else if mbc1 {
            let rom_banking = value & 0x01 == 0;
            Cartridge {
                rom_banking,
                cur_ram_bank: if rom_banking {
                    0
                } else {
                    self.cur_ram_bank
                },
                ..self
            }
        } else {
            self
        }
    }

    /// The index in the ROM image of the byte that `address` reads.
    pub open spec fn rom_index(self, address: u16) -> int {
        if address <= 0x3FFF {
            address as int
        } else {
            (address - 0x4000) + self.cur_rom_bank * ROM_BANK_SIZE
        }
    }

    /// The index in the RAM of the byte at `address`.
    pub open spec fn ram_index(self, address: u16) -> int {
        (address - CRAM_BANK_BEGIN) + self.cur_ram_bank * RAM_BANK_SIZE
    }

    /// Creates a cartridge from a ROM image, starting at ROM bank 1, RAM bank 0, with the
    /// RAM disabled and ROM banking selected.
    pub fn from_rom(rom: Vec<u8>) -> (r: Result<Self, UnsupportedType>)
        requires
            rom.len() > CARTRIDGE_TYPE,
        ensures
            match banking_of(rom@[CARTRIDGE_TYPE as int]) {
                Some(mode) => r matches Ok(c) && c.wf() && c.header.banking == mode
                    && c.header.title@ == CartridgeHeader::title_of(rom@) && c.header.cgb_flag
                    == rom@[CARTRIDGE_CGB_FLAG as int] && c.rom@ == rom@ && c.cur_rom_bank == 1
                    && c.cur_ram_bank == 0 && !c.enable_ram && c.rom_banking && forall|i: int|
                    0 <= i < RAM_SIZE ==> c.ram[i] == 0,
                None => r == Err::<Self, UnsupportedType>(
                    UnsupportedType { cartridge_type: rom@[CARTRIDGE_TYPE as int] },
                ),
            },
    {
        let header = match CartridgeHeader::try_from(rom.as_slice()) {
            Ok(header) => header,
            Err(e) => return Err(e),
        };
        Ok(Self {
            header,
            rom,
            ram: [0u8; 0x8000],
            cur_rom_bank: 1,
            cur_ram_bank: 0,
            enable_ram: false,
            rom_banking: true,
        })
    }

    /// Handles a write to the bank controller's registers (0x0000-0x7FFF).
    fn handle_banking(&mut self, address: u16, value: u8)
        requires
            address <= 0x7FFF,
            old(self).can_write(address, value),
        ensures
            *final(self) == old(self).banked(address, value),
    {
        if address <= 0x1FFF {
            // Do RAM enable
            if self.header.banking == BankingMode::MBC1 || self.header.banking == BankingMode::MBC2 {
                self.toggle_ram_banking(address, value);
            }
        } else if address <= 0x3FFF {
            // Do ROM bank change
            match self.header.banking {
                BankingMode::MBC1 | BankingMode::MBC2 => self.change_low_rom_bank(value),
                // ROM banking requested, but Cartridge only uses 1 ROM bank. Safe to ignore.
                BankingMode::NoMBC => {},
            }
        } else if address <= 0x5FFF {
            // Do ROM or RAM bank change
            // There is no RAM bank in MBC2 so we always use RAM bank 0
            if self.header.banking != BankingMode::MBC1 {
                return;
            }
            if self.rom_banking {
                self.change_hi_rom_bank(value);
                return;
            }
            self.cur_ram_bank = value & 0x03;
        } else {
            // Select whether we are doing ROM or RAM banking
            if self.header.banking == BankingMode::MBC1 {
                self.change_rom_ram_mode(value);
            }
        }
    }

    /// Enables or disables the cartridge RAM.
    fn toggle_ram_banking(&mut self, address: u16, value: u8)
        requires
            old(self).handles_ram_enable(address, value),
        ensures
            *final(self) == (Cartridge { enable_ram: value & 0x0F == 0x0A, ..*old(self) }),
    {
        // If MBC1 is enabled, the lower nibble must be equal to 0b1010 to enable cartridge RAM.
        if value & 0b1111 == 0b1010 {
            self.enable_ram = true;
        } else {
            self.enable_ram = false;
        }
    }

    /// Change ROM banking mode (lower 5 bits)
    fn change_low_rom_bank(&mut self, value: u8)
        ensures
            *final(self) == (Cartridge {
                cur_rom_bank: if old(self).header.banking == BankingMode::MBC2 {
                    sanitized(value & 0x0F)
                } else {
                    sanitized((old(self).cur_rom_bank & 0xE0) | (value & 0x1F))
                },
                ..*old(self)
            }),
    {
        if self.header.banking == BankingMode::MBC2 {
            self.cur_rom_bank = value & 0x0F;
            self.sanitize_rom_bank();
            return;
        }
        // Turn of the 5 lower bits of the current bank
        // and turn of the higher 5 bits of the passed value
        self.cur_rom_bank = (self.cur_rom_bank & 0xE0) | (value & 0x1F);
        self.sanitize_rom_bank();
    }

    /// Change ROM banking mode (bits 5 & 6)
    fn change_hi_rom_bank(&mut self, value: u8)
        ensures
            *final(self) == (Cartridge {
                cur_rom_bank: sanitized((old(self).cur_rom_bank & 0x1F) | (value & 0xE0)),
                ..*old(self)
            }),
    {
        // Turn of the upper 3 bits of the current bank
        // and turn of the lower 5 bits of the passed value
        self.cur_rom_bank = (self.cur_rom_bank & 0x1F) | (value & 0xE0);
        self.sanitize_rom_bank();
    }

    /// Selects either ROM or RAM banking mode
    fn change_rom_ram_mode(&mut self, value: u8)
        ensures
            *final(self) == (Cartridge {
                rom_banking: value & 0x01 == 0,
                cur_ram_bank: if value & 0x01 == 0 {
                    0
                } else {
                    old(self).cur_ram_bank
                },
                ..*old(self)
            }),
    {
        // The bit 0 defines whether we enable ROM banking
        self.rom_banking = (value & 0x01) == 0;
        if self.rom_banking {
            self.cur_ram_bank = 0;
        }
    }

    /// Bank 0 cannot be selected as the switchable ROM bank: it becomes bank 1.
    fn sanitize_rom_bank(&mut self)
        ensures
            *final(self) == (Cartridge { cur_rom_bank: sanitized(old(self).cur_rom_bank), ..*old(self) }),
    {
        if self.cur_rom_bank == 0 {
            self.cur_rom_bank = 1;
        }
    }

    /// Writes a controller register or a byte of the current RAM bank.
    pub fn write(&mut self, address: u16, value: u8)
        requires
            old(self).wf(),
            old(self).can_write(address, value),
        ensures
            final(self).wf(),
            *final(self) == if address <= 0x7FFF {
                old(self).banked(address, value)
            } else {
                Cartridge {
                    ram: spec_array_update(old(self).ram, old(self).ram_index(address), value),
                    ..*old(self)
                }
            },
    {
        if address <= 0x7FFF {
            assert(value & 0x03 < 4) by (bit_vector);
            self.handle_banking(address, value);
        } else {
            let offset = self.cur_ram_bank as usize * RAM_BANK_SIZE;
            self.ram[(address - CRAM_BANK_BEGIN) as usize + offset] = value;
        }
    }

    /// Reads a byte of ROM bank 0, of the current ROM bank, or of the current RAM bank.
    pub fn read(&self, address: u16) -> (r: u8)
        requires
            self.wf(),
            address <= 0x7FFF || (CRAM_BANK_BEGIN <= address <= CRAM_BANK_END),
            address <= 0x7FFF ==> self.rom_index(address) < self.rom@.len(),
        ensures
            r == if address <= 0x7FFF {
                self.rom@[self.rom_index(address)]
            } else {
                self.ram[self.ram_index(address)]
            },
    {
        if address <= 0x3FFF {
            self.rom[address as usize]
        } else if address <= 0x7FFF {
            let offset = self.cur_rom_bank as usize * ROM_BANK_SIZE;
            self.rom[(address - 0x4000) as usize + offset]
        } else {
            let offset = self.cur_ram_bank as usize * RAM_BANK_SIZE;
            self.ram[(address - CRAM_BANK_BEGIN) as usize + offset]
        }
    }
}

} // verus!
