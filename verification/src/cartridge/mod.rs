//! Cartridges: the header that describes them, and the memory bank controllers that map
//! their ROM and RAM into the address space.
pub mod basic;
pub mod controller;
pub mod mbc1;
pub mod mbc3;
pub mod mbc5;
pub mod nombc;

use crate::cartridge::controller::BankController;
use crate::constants::{CRAM_BANK_BEGIN, CRAM_BANK_END, ROM_HIGH_BANK_END, UNDEFINED_READ};
use crate::text::{hex_digit, hex_digits, push_char};
use vstd::prelude::*;

verus! {

/// This area of memory contains the cartridge title.
pub const CARTRIDGE_TITLE_BEGIN: u16 = 0x0134;
pub const CARTRIDGE_TITLE_END: u16 = 0x0142;

/// This address contains the cartridge type and what kind of hardware is present.
/// See https://gbdev.io/pandocs/The_Cartridge_Header.html#0147--cartridge-type
pub const CARTRIDGE_TYPE: u16 = 0x0147;

/// This byte indicates how much ROM is present on the cartridge.
pub const CARTRIDGE_ROM_SIZE: u16 = 0x0148;

/// This byte indicates how much RAM is present on the cartridge.
pub const CARTRIDGE_RAM_SIZE: u16 = 0x0149;

/// This byte contains an 8-bit checksum computed from the cartridge header bytes 0x0134 – 0x014C.
pub const CARTRIDGE_HEADER_CHECKSUM: u16 = 0x014D;

/// These bytes contain a 16-bit (big-endian) checksum simply computed as the sum of all
/// the bytes of the cartridge ROM (except these two checksum bytes).
pub const CARTRIDGE_GLOBAL_CHECKSUM1: u16 = 0x014E;
pub const CARTRIDGE_GLOBAL_CHECKSUM2: u16 = 0x014F;

pub const ROM_BANK_SIZE: usize = 16384;
pub const RAM_BANK_SIZE: usize = 8192;

/// Why a ROM image cannot be used as a cartridge.
#[derive(Copy, Clone, PartialEq, Eq, Structural, Debug)]
pub enum CartridgeError {
    /// The cartridge type byte names no known controller.
    UnsupportedControllerType(u8),
    /// The RAM size byte is not one of the defined codes.
    UnsupportedRamSize(u8),
    /// The ROM size byte is not one of the defined codes.
    UnsupportedRomSize(u8),
    /// The image ends before the global checksum.
    TooSmall,
    /// The global checksum stored in the header differs from the one computed.
    ChecksumMismatch { expected: u16, calculated: u16 },
}

/// Why the cartridge RAM cannot be saved or restored.
#[derive(Copy, Clone, PartialEq, Eq, Structural, Debug)]
pub enum SaveError {
    /// The cartridge does not support saving.
    NoSaveSupport,
    /// The save file is not compatible with the current cartridge.
    InvalidChecksum,
    /// The save file is empty or malformed.
    MalformedFile,
    /// The RAM is enabled for writing, so its content may be in the middle of a change.
    RAMLocked,
}

/// Whether `address` lies in one of the two areas a cartridge maps: ROM (0x0000 - 0x7FFF)
/// and external RAM (0xA000 - 0xBFFF).
pub open spec fn is_cartridge_address(address: u16) -> bool {
    address <= ROM_HIGH_BANK_END || CRAM_BANK_BEGIN <= address <= CRAM_BANK_END
}

/// The byte at `index` of a ROM or RAM image; a location past its end reads as
/// `UNDEFINED_READ`.
pub open spec fn byte_at(data: Seq<u8>, index: int) -> u8 {
    if 0 <= index < data.len() {
        data[index]
    } else {
        UNDEFINED_READ
    }
}

/// The image with the byte at `index` replaced; a write past its end changes nothing.
pub open spec fn with_byte(data: Seq<u8>, index: int, value: u8) -> Seq<u8> {
    if 0 <= index < data.len() {
        data.update(index, value)
    } else {
        data
    }
}

/// Reads the byte at `offset + index` of a ROM image, `UNDEFINED_READ` past the end.
pub(crate) fn read_byte_offset(data: &Vec<u8>, offset: usize, index: u16) -> (r: u8)
    ensures
        r == byte_at(data@, offset + index),
{
    match offset.checked_add(index as usize) {
        Some(i) => if i < data.len() {
            data[i]
        } else {
            UNDEFINED_READ
        },
        None => {
            assert(data@.len() == data.len());
            UNDEFINED_READ
        },
    }
}

/// The largest cartridge RAM: 16 banks of 8 KiB.
pub const MAX_RAM_SIZE: usize = 131072;

/// The RAM of a cartridge: a fixed store of which the first `len` bytes are in use.
#[derive(Copy, Clone, Debug)]
pub struct CartridgeRam {
    pub data: [u8; MAX_RAM_SIZE],
    pub len: usize,
}

impl View for CartridgeRam {
    type V = Seq<u8>;

    /// The bytes in use.
    open spec fn view(&self) -> Seq<u8> {
        self.data@.take(self.size() as int)
    }
}

impl CartridgeRam {
    /// The number of bytes in use (never more than the store holds).
    pub open spec fn size(self) -> nat {
        if self.len <= MAX_RAM_SIZE {
            self.len as nat
        } else {
            MAX_RAM_SIZE as nat
        }
    }

    /// The RAM after `value` has been written at `index`; a write past the end is dropped.
    pub open spec fn written(self, index: int, value: u8) -> Self {
        if 0 <= index < self.size() {
            CartridgeRam { data: vstd::array::spec_array_update(self.data, index, value), ..self }
        } else {
            self
        }
    }

    /// A write changes the bytes in use as `with_byte` says.
    pub proof fn lemma_written_view(self, index: int, value: u8)
        ensures
            self.written(index, value)@ == with_byte(self@, index, value),
    {
        broadcast use vstd::array::group_array_axioms;

        if 0 <= index < self.size() {
            assert(self.written(index, value)@ =~= with_byte(self@, index, value));
        }
    }

    /// `len` zeroed bytes.
    pub fn new(len: usize) -> (r: Self)
        requires
            len <= MAX_RAM_SIZE,
        ensures
            r.len == len,
            r@ == Seq::new(len as nat, |i: int| 0u8),
    {
        let data = [0u8; MAX_RAM_SIZE];
        let r = CartridgeRam { data, len };
        assert(r@ =~= Seq::new(len as nat, |i: int| 0u8));
        r
    }

    /// The number of bytes in use.
    pub fn len(&self) -> (r: usize)
        ensures
            r == self@.len(),
    {
        if self.len <= MAX_RAM_SIZE {
            self.len
        } else {
            MAX_RAM_SIZE
        }
    }

    /// Reads the byte at `offset + index`, `UNDEFINED_READ` past the end.
    pub fn read(&self, offset: usize, index: u16) -> (r: u8)
        ensures
            r == byte_at(self@, offset + index),
    {
        let len = self.len();
        match offset.checked_add(index as usize) {
            Some(i) => if i < len {
                self.data[i]
            } else {
                UNDEFINED_READ
            },
            None => UNDEFINED_READ,
        }
    }

    /// Writes the byte at `offset + index`; a write past the end is dropped.
    pub fn write(&mut self, offset: usize, index: u16, value: u8)
        ensures
            *final(self) == old(self).written(offset + index, value),
    {
        broadcast use vstd::array::group_array_axioms;

        let len = self.len();
        match offset.checked_add(index as usize) {
            Some(i) => if i < len {
                self.data[i] = value;
                assert(self.data =~= vstd::array::spec_array_update(old(self).data, i as int, value));
            },
            None => {},
        }
    }

    /// Replaces the bytes in use by a saved image of the same size.
    pub fn load(&mut self, ram: &Vec<u8>)
        requires
            ram.len() == old(self)@.len(),
        ensures
            final(self)@ == ram@,
            final(self).len == old(self).len,
    {
        let n = ram.len();
        let mut i: usize = 0;
        while i < n
            invariant
                n == ram.len(),
                n == self@.len(),
                self.len == old(self).len,
                i <= n,
                forall|j: int| 0 <= j < i ==> self@[j] == ram@[j],
            decreases n - i,
        {
            self.data[i] = ram[i];
            i = i + 1;
        }
        assert(self@ =~= ram@);
    }

    /// A copy of the bytes in use.
    pub fn to_vec(&self) -> (v: Vec<u8>)
        ensures
            v@ == self@,
    {
        let n = self.len();
        let mut v: Vec<u8> = Vec::new();
        let mut i: usize = 0;
        while i < n
            invariant
                n == self@.len(),
                i <= n,
                v@ == self@.take(i as int),
            decreases n - i,
        {
            v.push(self.data[i]);
            assert(v@ =~= self@.take(i as int + 1));
            i = i + 1;
        }
        assert(self@.take(n as int) =~= self@);
        v
    }
}

/// The controller type of the cartridge.
/// See https://gbdev.io/pandocs/The_Cartridge_Header.html#0147--cartridge-type
#[derive(Copy, Clone, PartialEq, Eq, Structural, Debug)]
pub enum ControllerType {
    NoMBC { battery: bool },
    MBC1 { battery: bool },
    MBC2 { battery: bool },
    MBC3 { battery: bool },
    MBC5 { battery: bool },
    MBC7 { battery: bool },
}

/// The controller type that the cartridge type byte `value` stands for.
pub open spec fn controller_type_of(value: u8) -> Option<ControllerType> {
    if value == 0x00 || value == 0x08 {
        Some(ControllerType::NoMBC { battery: false })
    } else if value == 0x09 {
        Some(ControllerType::NoMBC { battery: true })
    } else if value == 0x01 || value == 0x02 {
        Some(ControllerType::MBC1 { battery: false })
    } else if value == 0x03 {
        Some(ControllerType::MBC1 { battery: true })
    } else if value == 0x05 {
        Some(ControllerType::MBC2 { battery: false })
    } else if value == 0x06 {
        Some(ControllerType::MBC2 { battery: true })
    } else if value == 0x0F || value == 0x10 || value == 0x12 || value == 0x13 {
        Some(ControllerType::MBC3 { battery: true })
    } else if value == 0x11 {
        Some(ControllerType::MBC3 { battery: false })
    } else if value == 0x19 || value == 0x1A || value == 0x1C || value == 0x1D {
        Some(ControllerType::MBC5 { battery: false })
    } else if value == 0x1B || value == 0x1E {
        Some(ControllerType::MBC5 { battery: true })
    } else if value == 0x22 {
        Some(ControllerType::MBC7 { battery: true })
    } else {
        None
    }
}

/// The cartridge type byte at 0x147, family by family: 0x00, 0x08 and 0x09 are cartridges
/// without bank controller, 0x01-0x03 MBC1, 0x05-0x06 MBC2, 0x0F-0x13 MBC3, 0x19-0x1E MBC5
/// and 0x22 MBC7; every other byte is refused. A battery is present for 0x03, 0x06,
/// 0x09, 0x0F, 0x10, 0x12, 0x13, 0x1B, 0x1E and 0x22 only.
pub proof fn lemma_cartridge_type_table(value: u8)
    ensures
        (controller_type_of(value) matches Some(t) && t is NoMBC) <==> (value == 0x00 || value
            == 0x08 || value == 0x09),
        (controller_type_of(value) matches Some(t) && t is MBC1) <==> (0x01 <= value <= 0x03),
        (controller_type_of(value) matches Some(t) && t is MBC2) <==> (0x05 <= value <= 0x06),
        (controller_type_of(value) matches Some(t) && t is MBC3) <==> (0x0F <= value <= 0x13),
        (controller_type_of(value) matches Some(t) && t is MBC5) <==> (0x19 <= value <= 0x1E),
        (controller_type_of(value) matches Some(t) && t is MBC7) <==> value == 0x22,
        controller_type_of(value) is None <==> !(value == 0x00 || value == 0x08 || value == 0x09
            || (0x01 <= value <= 0x03) || (0x05 <= value <= 0x06) || (0x0F <= value <= 0x13) || (
        0x19 <= value <= 0x1E) || value == 0x22),
        controller_type_of(value) matches Some(t) ==> (t.battery() <==> (value == 0x03 || value
            == 0x06 || value == 0x09 || value == 0x0F || value == 0x10 || value == 0x12 || value
            == 0x13 || value == 0x1B || value == 0x1E || value == 0x22)),
{
}

impl ControllerType {
    /// Whether the controller has battery-backed RAM.
    pub open spec fn battery(self) -> bool {
        match self {
            ControllerType::NoMBC { battery } => battery,
            ControllerType::MBC1 { battery } => battery,
            ControllerType::MBC2 { battery } => battery,
            ControllerType::MBC3 { battery } => battery,
            ControllerType::MBC5 { battery } => battery,
            ControllerType::MBC7 { battery } => battery,
        }
    }

    /// Whether a bank controller of this type can be created (MBC2 and MBC7 cannot).
    pub open spec fn is_implemented(self) -> bool {
        !(self is MBC2) && !(self is MBC7)
    }

    /// Whether a bank controller of this type can be created (MBC2 and MBC7 cannot).
    pub fn is_supported(&self) -> (r: bool)
        ensures
            r == self.is_implemented(),
    {
        match self {
            ControllerType::MBC2 { .. } => false,
            ControllerType::MBC7 { .. } => false,
            _ => true,
        }
    }

    /// Returns true if the controller type has battery-backed RAM.
    pub fn has_battery(&self) -> (r: bool)
        ensures
            r == self.battery(),
    {
        match self {
            ControllerType::NoMBC { battery } => *battery,
            ControllerType::MBC1 { battery } => *battery,
            ControllerType::MBC2 { battery } => *battery,
            ControllerType::MBC3 { battery } => *battery,
            ControllerType::MBC5 { battery } => *battery,
            ControllerType::MBC7 { battery } => *battery,
        }
    }

    /// The controller type for the cartridge type byte of the header.
    pub fn try_from(value: u8) -> (r: Result<ControllerType, CartridgeError>)
        ensures
            r == match controller_type_of(value) {
                Some(t) => Ok(t),
                None => Err(CartridgeError::UnsupportedControllerType(value)),
            },
    {
        let mode = if value == 0x00 || value == 0x08 {
            ControllerType::NoMBC { battery: false }
        } else if value == 0x09 {
            ControllerType::NoMBC { battery: true }
        } else if value == 0x01 || value == 0x02 {
            ControllerType::MBC1 { battery: false }
        } else if value == 0x03 {
            ControllerType::MBC1 { battery: true }
        } else if value == 0x05 {
            ControllerType::MBC2 { battery: false }
        } else if value == 0x06 {
            ControllerType::MBC2 { battery: true }
        } else if value == 0x0F || value == 0x10 || value == 0x12 || value == 0x13 {
            ControllerType::MBC3 { battery: true }
        } else if value == 0x11 {
            ControllerType::MBC3 { battery: false }
        } else if value == 0x19 || value == 0x1A || value == 0x1C || value == 0x1D {
            ControllerType::MBC5 { battery: false }
        } else if value == 0x1B || value == 0x1E {
            ControllerType::MBC5 { battery: true }
        } else if value == 0x22 {
            ControllerType::MBC7 { battery: true }
        } else {
            return Err(CartridgeError::UnsupportedControllerType(value));
        };
        Ok(mode)
    }
}

/// The number of 8 KiB RAM banks for the RAM size byte of the header.
pub open spec fn ram_banks_of(ram_size: u8) -> Option<u16> {
    if ram_size == 0x00 || ram_size == 0x01 {
        Some(0)
    } else if ram_size == 0x02 {
        Some(1)
    } else if ram_size == 0x03 {
        Some(4)
    } else if ram_size == 0x04 {
        Some(16)
    } else if ram_size == 0x05 {
        Some(8)
    } else {
        None
    }
}

/// The number of 16 KiB ROM banks for the ROM size byte of the header: 2^(code + 1)
/// for the codes 0 to 8.
pub open spec fn rom_banks_of(rom_size: u8) -> Option<u16> {
    if rom_size == 0 {
        Some(2)
    } else if rom_size == 1 {
        Some(4)
    } else if rom_size == 2 {
        Some(8)
    } else if rom_size == 3 {
        Some(16)
    } else if rom_size == 4 {
        Some(32)
    } else if rom_size == 5 {
        Some(64)
    } else if rom_size == 6 {
        Some(128)
    } else if rom_size == 7 {
        Some(256)
    } else if rom_size == 8 {
        Some(512)
    } else {
        None
    }
}

/// Contains the configuration of the cartridge. This includes the controller type,
/// ROM size, RAM size, and the number of banks.
#[derive(Copy, Clone, PartialEq, Eq, Structural, Debug)]
pub struct CartridgeConfig {
    pub controller: ControllerType,
    pub rom_banks: u16,
    pub ram_banks: u16,
}

impl CartridgeConfig {
    /// The configuration for the controller and the ROM and RAM size bytes of the header;
    /// an unknown RAM size is reported before an unknown ROM size.
    pub fn new(controller: ControllerType, rom_size: u8, ram_size: u8) -> (r: Result<Self, CartridgeError>)
        ensures
            r == match (ram_banks_of(ram_size), rom_banks_of(rom_size)) {
                (None, _) => Err(CartridgeError::UnsupportedRamSize(ram_size)),
                (Some(_), None) => Err(CartridgeError::UnsupportedRomSize(rom_size)),
                (Some(ram_banks), Some(rom_banks)) => Ok(
                    CartridgeConfig { controller, rom_banks, ram_banks },
                ),
            },
    {
        let ram_banks: u16 = if ram_size == 0x00 || ram_size == 0x01 {
            0
        } else if ram_size == 0x02 {
            1
        } else if ram_size == 0x03 {
            4
        } else if ram_size == 0x04 {
            16
        } else if ram_size == 0x05 {
            8
        } else {
            return Err(CartridgeError::UnsupportedRamSize(ram_size));
        };
        // This can be expressed as 2^(value + 1) up until 512 KiB
        let rom_banks: u16 = if rom_size == 0x00 {
            2
        } else if rom_size == 0x01 {
            4
        } else if rom_size == 0x02 {
            8
        } else if rom_size == 0x03 {
            16
        } else if rom_size == 0x04 {
            32
        } else if rom_size == 0x05 {
            64
        } else if rom_size == 0x06 {
            128
        } else if rom_size == 0x07 {
            256
        } else if rom_size == 0x08 {
            512
        } else {
            return Err(CartridgeError::UnsupportedRomSize(rom_size));
        };
        Ok(Self { controller, rom_banks, ram_banks })
    }

    /// The size of the cartridge RAM in bytes.
    pub open spec fn ram_len(self) -> nat {
        (self.ram_banks * RAM_BANK_SIZE) as nat
    }

    /// The size of the cartridge RAM in bytes.
    pub fn ram_size(&self) -> (r: usize)
        ensures
            r == self.ram_len(),
    {
        self.ram_banks as usize * RAM_BANK_SIZE
    }

    /// Returns true if the cartridge has at least one battery-backed RAM bank.
    pub fn is_savable(&self) -> (r: bool)
        ensures
            r == (self.ram_banks > 0 && self.controller.battery()),
    {
        self.ram_banks > 0 && self.controller.has_battery()
    }
}

/// The mask that keeps a ROM bank number within the smallest power of two that holds
/// `rom_banks` banks: 2^k - 1 for the number k of significant bits of `rom_banks`.
pub open spec fn bank_mask_spec(rom_banks: nat) -> nat
    decreases rom_banks,
{
    if rom_banks == 0 {
        0
    } else {
        2 * bank_mask_spec(rom_banks / 2) + 1
    }
}

/// The mask covers every bank: it is at least the number of banks, less than twice that
/// number, and one below a power of two, so masking keeps a bank number in range of the
/// smallest power of two that holds all banks.
pub proof fn lemma_bank_mask_covers(rom_banks: nat)
    requires
        rom_banks > 0,
    ensures
        rom_banks <= bank_mask_spec(rom_banks) < 2 * rom_banks,
        crate::utils::is_power_of_two(bank_mask_spec(rom_banks) + 1),
    decreases rom_banks,
{
    if rom_banks / 2 > 0 {
        lemma_bank_mask_covers(rom_banks / 2);
        let m = bank_mask_spec(rom_banks / 2);
        assert(bank_mask_spec(rom_banks) + 1 == 2 * (m + 1));
        crate::utils::lemma_double_power_of_two(m + 1);
    } else {
        assert(bank_mask_spec(rom_banks / 2) == 0);
        assert(crate::utils::is_power_of_two(2)) by {
            crate::utils::lemma_double_power_of_two(1);
        }
    }
}

/// The mask stays below every power of two above the number of banks.
pub proof fn lemma_bank_mask_below(rom_banks: nat, k: nat)
    requires
        rom_banks < crate::utils::pow2_spec(k),
    ensures
        bank_mask_spec(rom_banks) < crate::utils::pow2_spec(k),
    decreases k,
{
    if rom_banks > 0 {
        assert(k > 0);
        lemma_bank_mask_below(rom_banks / 2, (k - 1) as nat);
    }
}

/// A bank number no larger than the mask passes through the mask unchanged.
pub proof fn lemma_bank_mask_keeps(rom_banks: nat, v: u16)
    requires
        rom_banks > 0,
        v <= bank_mask_spec(rom_banks),
        bank_mask_spec(rom_banks) <= 0xFFFF,
    ensures
        v & (bank_mask_spec(rom_banks) as u16) == v,
    decreases rom_banks,
{
    let m = bank_mask_spec(rom_banks / 2);
    let h: u16 = v / 2;
    if rom_banks / 2 > 0 {
        lemma_bank_mask_keeps(rom_banks / 2, h);
    }
    let mm = m as u16;
    assert(v & ((mm * 2 + 1) as u16) == v) by (bit_vector)
        requires
            h == v / 2,
            h & mm == h || (mm == 0 && h == 0),
            mm <= 0x7FFF,
    ;
    assert((bank_mask_spec(rom_banks) as u16) == (mm * 2 + 1) as u16);
}

/// Any number of banks that fits a `u16` has a mask that fits one too.
pub proof fn lemma_bank_mask_fits(rom_banks: u16)
    ensures
        bank_mask_spec(rom_banks as nat) <= 0xFFFF,
{
    reveal_with_fuel(crate::utils::pow2_spec, 17);
    assert(crate::utils::pow2_spec(16) == 65536);
    lemma_bank_mask_below(rom_banks as nat, 16);
}

/// This function masks the ROM Bank Number to the number of banks in the cartridge.
pub fn rom_bank_mask(rom_banks: u16) -> (r: u32)
    ensures
        r == bank_mask_spec(rom_banks as nat),
        rom_banks > 0 ==> r < 2 * rom_banks,
        rom_banks == 0 ==> r == 0,
    decreases rom_banks,
{
    if rom_banks == 0 {
        0
    } else {
        2 * rom_bank_mask(rom_banks / 2) + 1
    }
}

/// The sum of the bytes of `buf`, leaving out the two global checksum bytes.
pub open spec fn checksum_sum(buf: Seq<u8>) -> int
    decreases buf.len(),
{
    if buf.len() == 0 {
        0
    } else {
        let i = buf.len() - 1;
        checksum_sum(buf.drop_last()) + if i == CARTRIDGE_GLOBAL_CHECKSUM1 || i
            == CARTRIDGE_GLOBAL_CHECKSUM2 {
            0
        } else {
            buf.last() as int
        }
    }
}

/// Calculates the global checksum by adding all bytes from the given cartridge buffer except
/// the two checksum bytes, wrapping around at 16 bits.
pub fn calculate_global_checksum(buf: &[u8]) -> (r: u16)
    ensures
        r == checksum_sum(buf@) % 0x10000,
{
    let mut sum: u32 = 0;
    let mut i: usize = 0;
    while i < buf.len()
        invariant
            i <= buf.len(),
            sum == checksum_sum(buf@.take(i as int)) % 0x10000,
        decreases buf.len() - i,
    {
        let ghost before = checksum_sum(buf@.take(i as int));
        assert(buf@.take(i as int + 1).drop_last() =~= buf@.take(i as int));
        if i != CARTRIDGE_GLOBAL_CHECKSUM1 as usize && i != CARTRIDGE_GLOBAL_CHECKSUM2 as usize {
            proof {
                vstd::arithmetic::div_mod::lemma_add_mod_noop_right(buf[i as int] as int, before, 0x10000);
            }
            sum = (sum + buf[i] as u32) % 0x10000;
        }
        i = i + 1;
    }
    assert(buf@.take(i as int) =~= buf@);
    sum as u16
}

/// The global checksum stored in the header: big-endian at 0x014E and 0x014F.
pub open spec fn stored_checksum(buf: Seq<u8>) -> u16 {
    (buf[CARTRIDGE_GLOBAL_CHECKSUM1 as int] * 256 + buf[CARTRIDGE_GLOBAL_CHECKSUM2 as int]) as u16
}

/// Validates the global checksum of the given buffer containing the whole cartridge.
pub fn verify_checksum(buf: &[u8]) -> (r: Result<(), CartridgeError>)
    requires
        buf.len() != CARTRIDGE_GLOBAL_CHECKSUM2,
    ensures
        buf.len() < CARTRIDGE_GLOBAL_CHECKSUM2 ==> r == Err::<(), CartridgeError>(CartridgeError::TooSmall),
        buf.len() > CARTRIDGE_GLOBAL_CHECKSUM2 ==> r == if stored_checksum(buf@) == checksum_sum(buf@)
            % 0x10000 {
            Ok(())
        } else {
            Err(
                CartridgeError::ChecksumMismatch {
                    expected: stored_checksum(buf@),
                    calculated: (checksum_sum(buf@) % 0x10000) as u16,
                },
            )
        },
{
    if buf.len() < CARTRIDGE_GLOBAL_CHECKSUM2 as usize {
        return Err(CartridgeError::TooSmall);
    }
    let byte1 = buf[CARTRIDGE_GLOBAL_CHECKSUM1 as usize];
    let byte2 = buf[CARTRIDGE_GLOBAL_CHECKSUM2 as usize];

    let checksum = byte1 as u16 * 256 + byte2 as u16;
    let calculated_checksum = calculate_global_checksum(buf);
    if checksum == calculated_checksum {
        return Ok(());
    }
    Err(CartridgeError::ChecksumMismatch { expected: checksum, calculated: calculated_checksum })
}

/// Whether `b` is an ASCII letter or digit.
pub open spec fn is_alphanumeric(b: u8) -> bool {
    (0x30 <= b <= 0x39) || (0x41 <= b <= 0x5A) || (0x61 <= b <= 0x7A)
}

/// The ASCII letters and digits among `bytes`, in order.
pub open spec fn alphanumeric_chars(bytes: Seq<u8>) -> Seq<char>
    decreases bytes.len(),
{
    if bytes.len() == 0 {
        Seq::empty()
    } else {
        alphanumeric_chars(bytes.drop_last()) + if is_alphanumeric(bytes.last()) {
            seq![bytes.last() as char]
        } else {
            Seq::empty()
        }
    }
}

/// The title of the cartridge: the letters and digits of the title area of the header,
/// or `Unnamed` when there are none.
pub open spec fn title_of(buf: Seq<u8>) -> Seq<char> {
    let title = alphanumeric_chars(
        buf.subrange(CARTRIDGE_TITLE_BEGIN as int, CARTRIDGE_TITLE_END + 1),
    );
    if title.len() == 0 {
        "Unnamed"@
    } else {
        title
    }
}

/// The configuration that the header of `buf` describes, or why it describes none: an
/// unknown cartridge type, RAM size or ROM size, checked in this order.
pub open spec fn config_of(buf: Seq<u8>) -> Result<CartridgeConfig, CartridgeError> {
    let type_code = buf[CARTRIDGE_TYPE as int];
    let rom_code = buf[CARTRIDGE_ROM_SIZE as int];
    let ram_code = buf[CARTRIDGE_RAM_SIZE as int];
    match controller_type_of(type_code) {
        None => Err(CartridgeError::UnsupportedControllerType(type_code)),
        Some(controller) => match (ram_banks_of(ram_code), rom_banks_of(rom_code)) {
            (None, _) => Err(CartridgeError::UnsupportedRamSize(ram_code)),
            (Some(_), None) => Err(CartridgeError::UnsupportedRomSize(rom_code)),
            (Some(ram_banks), Some(rom_banks)) => Ok(CartridgeConfig { controller, rom_banks, ram_banks }),
        },
    }
}

/// Contains the cartridge header information.
/// See https://gbdev.io/pandocs/The_Cartridge_Header.html
#[derive(Clone, Debug)]
pub struct CartridgeHeader {
    pub title: String,
    pub config: CartridgeConfig,
    pub header_checksum: u8,
    pub global_checksum: u16,
}

impl CartridgeHeader {
    /// Parses the header of the ROM image `buf`: an unknown cartridge type, RAM size or
    /// ROM size (checked in this order) is an error.
    pub fn try_from(buf: &[u8]) -> (r: Result<Self, CartridgeError>)
        requires
            buf.len() > CARTRIDGE_GLOBAL_CHECKSUM2,
        ensures
            match config_of(buf@) {
                Err(e) => r == Err::<Self, CartridgeError>(e),
                Ok(config) => r matches Ok(header) && header.title@ == title_of(buf@) && header.config
                    == config && header.header_checksum == buf@[CARTRIDGE_HEADER_CHECKSUM as int]
                    && header.global_checksum == stored_checksum(buf@),
            },
    {
        let controller = match ControllerType::try_from(buf[CARTRIDGE_TYPE as usize]) {
            Ok(controller) => controller,
            Err(e) => return Err(e),
        };
        let config = match CartridgeConfig::new(
            controller,
            buf[CARTRIDGE_ROM_SIZE as usize],
            buf[CARTRIDGE_RAM_SIZE as usize],
        ) {
            Ok(config) => config,
            Err(e) => return Err(e),
        };
        Ok(
            Self {
                title: CartridgeHeader::parse_title(buf),
                config,
                header_checksum: buf[CARTRIDGE_HEADER_CHECKSUM as usize],
                global_checksum: buf[CARTRIDGE_GLOBAL_CHECKSUM1 as usize] as u16 * 256
                    + buf[CARTRIDGE_GLOBAL_CHECKSUM2 as usize] as u16,
            },
        )
    }

    /// Returns the cartridge title from the cartridge header.
    pub fn parse_title(buf: &[u8]) -> (title: String)
        requires
            buf.len() > CARTRIDGE_TITLE_END,
        ensures
            title@ == title_of(buf@),
    {
        let mut title = String::new();
        let mut i: usize = CARTRIDGE_TITLE_BEGIN as usize;
        while i <= CARTRIDGE_TITLE_END as usize
            invariant
                CARTRIDGE_TITLE_BEGIN <= i <= CARTRIDGE_TITLE_END + 1,
                buf.len() > CARTRIDGE_TITLE_END,
                title@ == alphanumeric_chars(buf@.subrange(CARTRIDGE_TITLE_BEGIN as int, i as int)),
            decreases CARTRIDGE_TITLE_END + 1 - i,
        {
            let b = buf[i];
            assert(buf@.subrange(CARTRIDGE_TITLE_BEGIN as int, i + 1).drop_last() =~= buf@.subrange(
                CARTRIDGE_TITLE_BEGIN as int,
                i as int,
            ));
            if (0x30 <= b && b <= 0x39) || (0x41 <= b && b <= 0x5A) || (0x61 <= b && b <= 0x7A) {
                push_char(&mut title, b as char);
            }
            i = i + 1;
        }
        if title.unicode_len() == 0 {
            String::from_str("Unnamed")
        } else {
            title
        }
    }
}

/// `title` with each space replaced by an underscore.
pub open spec fn underscored(title: Seq<char>) -> Seq<char> {
    title.map_values(|c: char| if c == ' ' { '_' } else { c })
}

/// A save file that a cartridge writes loads back into a cartridge with the same header
/// and RAM size: its last byte is the header checksum that loading checks, and the rest is
/// the RAM as it was saved.
pub proof fn lemma_savefile_roundtrip(saved_from: Cartridge, loaded_into: Cartridge)
    requires
        saved_from.controller.saved() is Ok,
        loaded_into.header == saved_from.header,
    ensures
        ({
            let data = saved_from.controller.saved()->Ok_0.push(saved_from.header.header_checksum);
            &&& data.len() > 0
            &&& data.last() == loaded_into.header.header_checksum
            &&& data.drop_last() == saved_from.controller.ram()
        }),
{
    let ram = saved_from.controller.saved()->Ok_0;
    assert(ram.push(saved_from.header.header_checksum).drop_last() =~= ram);
}

/// Holds all relevant cartridge information data.
#[derive(Clone, Debug)]
pub struct Cartridge {
    pub header: CartridgeHeader,
    pub controller: BankController,
}

impl Cartridge {
    /// Creates the cartridge for a ROM image: an image that ends before the global
    /// checksum is too small, and a header that names an unknown controller or size is an
    /// error. A mismatching global checksum is accepted.
    pub fn try_from(rom: Vec<u8>) -> (r: Result<Self, CartridgeError>)
        requires
            rom.len() != CARTRIDGE_GLOBAL_CHECKSUM2,
            rom.len() > CARTRIDGE_GLOBAL_CHECKSUM2 ==> (config_of(rom@) matches Ok(config)
                ==> config.controller.is_implemented()),
        ensures
            rom.len() < CARTRIDGE_GLOBAL_CHECKSUM2 ==> r == Err::<Self, CartridgeError>(CartridgeError::TooSmall),
            rom.len() > CARTRIDGE_GLOBAL_CHECKSUM2 ==> match config_of(rom@) {
                Err(e) => r == Err::<Self, CartridgeError>(e),
                Ok(config) => r matches Ok(c) && c.header.title@ == title_of(rom@) && c.header.config
                    == config && c.header.header_checksum == rom@[CARTRIDGE_HEADER_CHECKSUM as int]
                    && c.header.global_checksum == stored_checksum(rom@) && c.controller.config()
                    == config && c.controller.rom() == rom@ && c.controller.ram() == Seq::new(
                    config.ram_len(),
                    |i: int| 0u8,
                ),
            },
    {
        if rom.len() < CARTRIDGE_GLOBAL_CHECKSUM2 as usize {
            return Err(CartridgeError::TooSmall);
        }
        let header = match CartridgeHeader::try_from(rom.as_slice()) {
            Ok(header) => header,
            Err(e) => return Err(e),
        };
        let controller = controller::new(header.config, rom);
        Ok(Self { controller, header })
    }

    /// Reads a byte of the cartridge ROM or RAM.
    pub fn read(&mut self, address: u16) -> (r: u8)
        requires
            is_cartridge_address(address),
        ensures
            r == old(self).controller.peek(address),
            *final(self) == *old(self),
    {
        self.controller.read(address)
    }

    /// Writes a byte to a bank register or the cartridge RAM.
    pub fn write(&mut self, address: u16, value: u8)
        ensures
            *final(self) == (Cartridge { controller: old(self).controller.written(address, value), ..*old(self) }),
    {
        self.controller.write(address, value)
    }

    /// Restores the RAM from the content of a save file: the RAM image followed by the
    /// header checksum of the cartridge it belongs to. An empty file is malformed, and a
    /// file of another cartridge has an invalid checksum.
    pub fn load_savefile(&mut self, data: Vec<u8>) -> (r: Result<(), SaveError>)
        requires
            data.len() > 0 && data@.last() == old(self).header.header_checksum ==> data.len() - 1
                == old(self).controller.ram().len(),
        ensures
            data.len() == 0 ==> r == Err::<(), SaveError>(SaveError::MalformedFile) && *final(self) == *old(self),
            data.len() > 0 && data@.last() != old(self).header.header_checksum ==> r == Err::<(), SaveError>(SaveError::InvalidChecksum)
                && *final(self) == *old(self),
            data.len() > 0 && data@.last() == old(self).header.header_checksum ==> r == Ok::<(), SaveError>(())
                && final(self).controller.ram() == data@.drop_last() && final(self).controller.rom()
                == old(self).controller.rom() && final(self).controller.config() == old(self).controller.config()
                && final(self).header == old(self).header,
    {
        let mut data = data;
        let checksum = match data.pop() {
            Some(checksum) => checksum,
            None => return Err(SaveError::MalformedFile),
        };
        if checksum != self.header.header_checksum {
            return Err(SaveError::InvalidChecksum);
        }
        self.controller.load_ram(data);
        Ok(())
    }

    /// The content of a save file: a dump of the RAM and the one byte header checksum.
    pub fn savefile(&self) -> (r: Result<Vec<u8>, SaveError>)
        ensures
            match self.controller.saved() {
                Ok(ram) => r matches Ok(data) && data@ == ram.push(self.header.header_checksum),
                Err(e) => r == Err::<Vec<u8>, SaveError>(e),
            },
    {
        let mut data = match self.controller.save_ram() {
            Ok(ram) => ram,
            Err(e) => return Err(e),
        };
        data.push(self.header.header_checksum);
        Ok(data)
    }

    /// Returns the name of the autosave file based on the cartridge title and header
    /// checksum: the title with spaces replaced by underscores, then `_`, the checksum as
    /// two hexadecimal digits and `_autosave.sav`.
    pub fn autosave_filename(&self) -> (name: String)
        ensures
            name@ == underscored(self.header.title@) + "_"@ + hex_digits(
                self.header.header_checksum as nat,
                2,
            ) + "_autosave.sav"@,
    {
        let title = self.header.title.as_str();
        let len = title.unicode_len();
        let mut name = String::new();
        let mut i: usize = 0;
        while i < len
            invariant
                i <= len,
                len == title@.len(),
                title@ == self.header.title@,
                name@ == underscored(title@.take(i as int)),
            decreases len - i,
        {
            let c = title.get_char(i);
            push_char(&mut name, if c == ' ' { '_' } else { c });
            assert(underscored(title@.take(i as int + 1)) =~= underscored(title@.take(i as int)).push(
                if c == ' ' { '_' } else { c },
            ));
            i = i + 1;
        }
        assert(title@.take(len as int) =~= title@);
        let checksum = self.header.header_checksum;
        name.append("_");
        name.append(hex_digit(checksum / 16));
        name.append(hex_digit(checksum % 16));
        name.append("_autosave.sav");
        proof {
            let v = checksum as nat;
            assert(hex_digits(v / 16 / 16, 0) =~= Seq::<char>::empty());
            assert(hex_digits(v / 16, 1) =~= hex_digit_text_of(v / 16));
        }
        name
    }
}

/// The hexadecimal digit of a nibble.
pub open spec fn hex_digit_text_of(d: nat) -> Seq<char> {
    crate::text::hex_digit_text((d % 16) as int)
}

} // verus!
