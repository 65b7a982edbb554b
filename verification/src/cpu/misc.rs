//! Operands of the instruction set in the flat encoding, where every indirect addressing
//! mode is a variant of its own, over any byte-addressable memory.
use crate::bus::SubSystem;
use crate::cpu::registers::Registers;
use crate::cpu::CPU;
use crate::text::{concat, concat3, hex_text, hex_u16, hex_u8};
use vstd::prelude::*;

pub use crate::cpu::ops::{JumpCondition, JumpTarget, Register, ResetCode};

verus! {

/// Defines paired registers that can be used in instructions to read and write from.
#[derive(Copy, Clone, PartialEq, Eq, Structural, Debug)]
pub enum PairedRegister {
    AF,
    BC,
    DE,
    HL,
    SP,
}

impl PairedRegister {
    /// The value held by this register pair.
    pub open spec fn get(self, r: Registers) -> u16 {
        match self {
            PairedRegister::AF => r.af(),
            PairedRegister::BC => r.bc(),
            PairedRegister::DE => r.de(),
            PairedRegister::HL => r.hl(),
            PairedRegister::SP => r.sp,
        }
    }

    /// The registers with this pair replaced by `value`.
    pub open spec fn put(self, r: Registers, value: u16) -> Registers {
        match self {
            PairedRegister::AF => r.with_af(value),
            PairedRegister::BC => r.with_bc(value),
            PairedRegister::DE => r.with_de(value),
            PairedRegister::HL => r.with_hl(value),
            PairedRegister::SP => Registers { sp: value, ..r },
        }
    }

    /// Read from register.
    pub fn read(&self, cpu: &mut CPU) -> (value: u16)
        ensures
            value == self.get(old(cpu).r),
            *final(cpu) == *old(cpu),
    {
        match self {
            PairedRegister::AF => cpu.r.get_af(),
            PairedRegister::BC => cpu.r.get_bc(),
            PairedRegister::DE => cpu.r.get_de(),
            PairedRegister::HL => cpu.r.get_hl(),
            PairedRegister::SP => cpu.r.sp,
        }
    }

    /// Write value to register.
    pub fn write(&self, cpu: &mut CPU, value: u16)
        ensures
            *final(cpu) == (CPU { r: self.put(old(cpu).r, value), ..*old(cpu) }),
    {
        match self {
            PairedRegister::AF => cpu.r.set_af(value),
            PairedRegister::BC => cpu.r.set_bc(value),
            PairedRegister::DE => cpu.r.set_de(value),
            PairedRegister::HL => cpu.r.set_hl(value),
            PairedRegister::SP => cpu.r.sp = value,
        }
    }

    /// The assembly name of the register pair.
    pub open spec fn text(self) -> Seq<char> {
        match self {
            PairedRegister::AF => "AF"@,
            PairedRegister::BC => "BC"@,
            PairedRegister::DE => "DE"@,
            PairedRegister::HL => "HL"@,
            PairedRegister::SP => "SP"@,
        }
    }

    /// The assembly name of the register pair.
    pub fn to_string(&self) -> (s: String)
        ensures
            s@ == self.text(),
    {
        match self {
            PairedRegister::AF => String::from_str("AF"),
            PairedRegister::BC => String::from_str("BC"),
            PairedRegister::DE => String::from_str("DE"),
            PairedRegister::HL => String::from_str("HL"),
            PairedRegister::SP => String::from_str("SP"),
        }
    }
}

/// A byte that can be read and written: a register or the memory at HL.
#[derive(Copy, Clone, PartialEq, Eq, Structural, Debug)]
pub enum ByteTarget {
    R(Register),
    HLI,
}

impl ByteTarget {
    /// Reads the referring value from the CPU or memory.
    pub fn read<T: SubSystem>(&self, cpu: &mut CPU, bus: &mut T) -> (value: u8)
        ensures
            value == match self {
                ByteTarget::R(reg) => reg.get(old(cpu).r),
                ByteTarget::HLI => old(bus).peek(old(cpu).r.hl()),
            },
            *final(cpu) == *old(cpu),
            *final(bus) == *old(bus),
    {
        match self {
            ByteTarget::R(reg) => reg.read(cpu),
            ByteTarget::HLI => bus.read(cpu.r.get_hl()),
        }
    }

    /// Writes to the referring register or memory location.
    pub fn write<T: SubSystem>(&self, cpu: &mut CPU, bus: &mut T, value: u8)
        ensures
            match self {
                ByteTarget::R(reg) => *final(cpu) == (CPU { r: reg.put(old(cpu).r, value), ..*old(cpu) })
                    && *final(bus) == *old(bus),
                ByteTarget::HLI => *final(cpu) == *old(cpu) && *final(bus) == old(bus).poke(
                    old(cpu).r.hl(),
                    value,
                ),
            },
    {
        match self {
            ByteTarget::R(reg) => reg.write(cpu, value),
            ByteTarget::HLI => bus.write(cpu.r.get_hl(), value),
        }
    }

    /// The assembly operand.
    pub open spec fn text(self) -> Seq<char> {
        match self {
            ByteTarget::R(reg) => reg.text(),
            ByteTarget::HLI => "(HL)"@,
        }
    }

    /// The assembly operand.
    pub fn to_string(&self) -> (s: String)
        ensures
            s@ == self.text(),
    {
        match self {
            ByteTarget::R(reg) => reg.to_string(),
            ByteTarget::HLI => String::from_str("(HL)"),
        }
    }
}

/// A word that can be written: a register pair or two bytes of memory.
#[derive(Copy, Clone, PartialEq, Eq, Structural, Debug)]
pub enum WordTarget {
    R(PairedRegister),
    D16I(u16),  // value refers to memory at address from the next 16 bits
}

impl WordTarget {
    /// Writes to the referring register, or to memory: the low byte at the address and
    /// the high byte right after it.
    pub fn write<T: SubSystem>(&self, cpu: &mut CPU, bus: &mut T, value: u16)
        requires
            self matches WordTarget::D16I(address) ==> address < 0xFFFF,
        ensures
            match self {
                WordTarget::R(reg) => *final(cpu) == (CPU { r: reg.put(old(cpu).r, value), ..*old(cpu) })
                    && *final(bus) == *old(bus),
                WordTarget::D16I(address) => *final(cpu) == *old(cpu) && *final(bus) == old(
                    bus,
                ).poke(*address, (value % 256) as u8).poke((*address + 1) as u16, (value / 256) as u8),
            },
    {
        match self {
            WordTarget::R(reg) => reg.write(cpu, value),
            WordTarget::D16I(address) => {
                bus.write(*address, (value % 256) as u8);
                bus.write(*address + 1, (value / 256) as u8)
            },
        }
    }

    /// The assembly operand.
    pub open spec fn text(self) -> Seq<char> {
        match self {
            WordTarget::R(reg) => reg.text(),
            WordTarget::D16I(address) => "("@ + hex_text(address as nat, 4) + ")"@,
        }
    }

    /// The assembly operand.
    pub fn to_string(&self) -> (s: String)
        ensures
            s@ == self.text(),
    {
        match self {
            WordTarget::R(reg) => reg.to_string(),
            WordTarget::D16I(address) => concat3("(", hex_u16(*address).as_str(), ")"),
        }
    }
}

/// An address in memory, taken from a register pair, an immediate or the I/O page.
#[derive(Copy, Clone, PartialEq, Eq, Structural, Debug)]
pub enum IndirectByteRef {
    BCI,  // value refers to memory at address from BC register
    DEI,  // value refers to memory at address from DE register
    HLI,  // value refers to memory at address from HL register
    D16I(u16),  // value refers to memory at address from the next 16 bits
    CI,  // value refers to memory at address from C register | 0xFF00
    D8I(u8),  // value refers to memory at the address from the next 8 bits | 0xFF00
}

impl IndirectByteRef {
    /// The address this reference points to.
    pub open spec fn address(self, r: Registers) -> u16 {
        match self {
            IndirectByteRef::BCI => r.bc(),
            IndirectByteRef::DEI => r.de(),
            IndirectByteRef::HLI => r.hl(),
            IndirectByteRef::D16I(address) => address,
            IndirectByteRef::CI => (0xFF00 + r.c) as u16,
            IndirectByteRef::D8I(offset) => (0xFF00 + offset) as u16,
        }
    }

    /// Resolves and returns the referring address.
    pub fn resolve(&self, cpu: &mut CPU) -> (address: u16)
        ensures
            address == self.address(old(cpu).r),
            *final(cpu) == *old(cpu),
    {
        match self {
            IndirectByteRef::BCI => cpu.r.get_bc(),
            IndirectByteRef::DEI => cpu.r.get_de(),
            IndirectByteRef::D16I(address) => *address,
            IndirectByteRef::HLI => cpu.r.get_hl(),
            IndirectByteRef::CI => 0xFF00 + cpu.r.c as u16,
            IndirectByteRef::D8I(offset) => 0xFF00 + *offset as u16,
        }
    }

    /// The assembly operand: the address in parentheses.
    pub open spec fn text(self) -> Seq<char> {
        match self {
            IndirectByteRef::BCI => "(BC)"@,
            IndirectByteRef::DEI => "(DE)"@,
            IndirectByteRef::HLI => "(HL)"@,
            IndirectByteRef::D16I(address) => "("@ + hex_text(address as nat, 4) + ")"@,
            IndirectByteRef::CI => "(C)"@,
            IndirectByteRef::D8I(offset) => "("@ + hex_text((0xFF00 + offset) as nat, 4) + ")"@,
        }
    }

    /// The assembly operand: the address in parentheses.
    pub fn to_string(&self) -> (s: String)
        ensures
            s@ == self.text(),
    {
        match self {
            IndirectByteRef::BCI => String::from_str("(BC)"),
            IndirectByteRef::DEI => String::from_str("(DE)"),
            IndirectByteRef::HLI => String::from_str("(HL)"),
            IndirectByteRef::D16I(address) => concat3("(", hex_u16(*address).as_str(), ")"),
            IndirectByteRef::CI => String::from_str("(C)"),
            IndirectByteRef::D8I(offset) => concat3("(", hex_u16(0xFF00 + *offset as u16).as_str(), ")"),
        }
    }
}

/// Defines a source we can read from to get a byte value.
#[derive(Copy, Clone, PartialEq, Eq, Structural, Debug)]
pub enum ByteSource {
    R(Register),
    D8(u8),  // value comes from the next 8 bits
    BCI,  // value refers to memory at address from BC register
    DEI,  // value refers to memory at address from DE register
    HLI,  // value refers to memory at address from HL register
    D16I(u16),  // value refers to memory at address from the next 16 bits
    CI,  // value refers to memory at address from C register | 0xFF00
    D8I(u8),  // value refers to memory at the address from the next 8 bits | 0xFF00
}

impl ByteSource {
    /// The memory reference of an indirect source, `None` for a register or an immediate.
    pub open spec fn indirect(self) -> Option<IndirectByteRef> {
        match self {
            ByteSource::BCI => Some(IndirectByteRef::BCI),
            ByteSource::DEI => Some(IndirectByteRef::DEI),
            ByteSource::HLI => Some(IndirectByteRef::HLI),
            ByteSource::D16I(address) => Some(IndirectByteRef::D16I(address)),
            ByteSource::CI => Some(IndirectByteRef::CI),
            ByteSource::D8I(offset) => Some(IndirectByteRef::D8I(offset)),
            _ => None,
        }
    }

    /// The value this source yields with registers `r` and memory `bus`.
    pub open spec fn value<T: SubSystem>(self, r: Registers, bus: T) -> u8 {
        match self {
            ByteSource::R(reg) => reg.get(r),
            ByteSource::D8(value) => value,
            _ => bus.peek(self.indirect().unwrap().address(r)),
        }
    }

    /// Read byte from the CPU or memory.
    pub fn read<T: SubSystem>(&self, cpu: &mut CPU, bus: &mut T) -> (value: u8)
        ensures
            value == self.value(old(cpu).r, *old(bus)),
            *final(cpu) == *old(cpu),
            *final(bus) == *old(bus),
    {
        match self {
            ByteSource::R(reg) => reg.read(cpu),
            ByteSource::D8(value) => *value,
            ByteSource::BCI => bus.read(cpu.r.get_bc()),
            ByteSource::DEI => bus.read(cpu.r.get_de()),
            ByteSource::HLI => bus.read(cpu.r.get_hl()),
            ByteSource::D16I(address) => bus.read(*address),
            ByteSource::CI => bus.read(0xFF00 + cpu.r.c as u16),
            ByteSource::D8I(offset) => bus.read(0xFF00 + *offset as u16),
        }
    }

    /// The assembly operand.
    pub open spec fn text(self) -> Seq<char> {
        match self {
            ByteSource::R(reg) => reg.text(),
            ByteSource::D8(value) => hex_text(value as nat, 2),
            _ => self.indirect().unwrap().text(),
        }
    }

    /// The assembly operand.
    pub fn to_string(&self) -> (s: String)
        ensures
            s@ == self.text(),
    {
        match self {
            ByteSource::R(reg) => reg.to_string(),
            ByteSource::D8(value) => hex_u8(*value),
            ByteSource::BCI => IndirectByteRef::BCI.to_string(),
            ByteSource::DEI => IndirectByteRef::DEI.to_string(),
            ByteSource::HLI => IndirectByteRef::HLI.to_string(),
            ByteSource::D16I(address) => IndirectByteRef::D16I(*address).to_string(),
            ByteSource::CI => IndirectByteRef::CI.to_string(),
            ByteSource::D8I(offset) => IndirectByteRef::D8I(*offset).to_string(),
        }
    }
}

/// Defines the source of a word value.
#[derive(Copy, Clone, PartialEq, Eq, Structural, Debug)]
pub enum WordSource {
    R(PairedRegister),
    D16(u16),  // value comes from the next 16 bits
}

impl WordSource {
    /// Resolves the referring value.
    pub fn read(&self, cpu: &mut CPU) -> (value: u16)
        ensures
            value == match self {
                WordSource::R(reg) => reg.get(old(cpu).r),
                WordSource::D16(word) => *word,
            },
            *final(cpu) == *old(cpu),
    {
        match self {
            WordSource::R(reg) => reg.read(cpu),
            WordSource::D16(word) => *word,
        }
    }

    /// The assembly operand.
    pub open spec fn text(self) -> Seq<char> {
        match self {
            WordSource::R(reg) => reg.text(),
            WordSource::D16(word) => hex_text(word as nat, 4),
        }
    }

    /// The assembly operand.
    pub fn to_string(&self) -> (s: String)
        ensures
            s@ == self.text(),
    {
        match self {
            WordSource::R(reg) => reg.to_string(),
            WordSource::D16(word) => hex_u16(*word),
        }
    }
}

/// Defines the possible load operations.
#[derive(Copy, Clone, PartialEq, Eq, Structural, Debug)]
pub enum Load {
    Byte(ByteTarget, ByteSource),
    Word(WordTarget, WordSource),
    // Store the source in the memory location the reference points to.
    IndirectFrom(IndirectByteRef, ByteSource),
    // Store A in the memory location, then increment the reference.
    IndirectFromAInc(IndirectByteRef),
    // Store A in the memory location, then decrement the reference.
    IndirectFromADec(IndirectByteRef),
    // Load A from the source, then increment the reference.
    FromIndirectAInc(ByteSource),
    // Load A from the source, then decrement the reference.
    FromIndirectADec(ByteSource),
    IndirectFromWord(WordTarget, WordSource),
    // Put SP plus 8 bit immediate value into target.
    IndirectFromSPi8(WordTarget, i8),
}

impl Load {
    /// The operands of the load in assembly.
    pub open spec fn text(self) -> Seq<char> {
        match self {
            Load::Byte(target, source) => target.text() + ", "@ + source.text(),
            Load::Word(target, source) => target.text() + ", "@ + source.text(),
            Load::IndirectFrom(target, source) => target.text() + ", "@ + source.text(),
            Load::IndirectFromAInc(target) => target.text() + "+, A"@,
            Load::IndirectFromADec(target) => target.text() + "-, A"@,
            Load::FromIndirectAInc(source) => "A, "@ + source.text() + "+"@,
            Load::FromIndirectADec(source) => "A, "@ + source.text() + "-"@,
            Load::IndirectFromWord(target, source) => target.text() + ", "@ + source.text(),
            Load::IndirectFromSPi8(target, value) => target.text() + ", SP + "@ + hex_text(
                (value as u8) as nat,
                2,
            ),
        }
    }

    /// The operands of the load in assembly.
    pub fn to_string(&self) -> (s: String)
        ensures
            s@ == self.text(),
    {
        match self {
            Load::Byte(target, source) => concat3(target.to_string().as_str(), ", ", source.to_string().as_str()),
            Load::Word(target, source) => concat3(target.to_string().as_str(), ", ", source.to_string().as_str()),
            Load::IndirectFrom(target, source) => concat3(target.to_string().as_str(), ", ", source.to_string().as_str()),
            Load::IndirectFromAInc(target) => concat(target.to_string().as_str(), "+, A"),
            Load::IndirectFromADec(target) => concat(target.to_string().as_str(), "-, A"),
            Load::FromIndirectAInc(source) => concat3("A, ", source.to_string().as_str(), "+"),
            Load::FromIndirectADec(source) => concat3("A, ", source.to_string().as_str(), "-"),
            Load::IndirectFromWord(target, source) => concat3(target.to_string().as_str(), ", ", source.to_string().as_str()),
            Load::IndirectFromSPi8(target, value) => concat3(target.to_string().as_str(), ", SP + ", hex_u8(*value as u8).as_str()),
        }
    }
}

} // verus!
