use crate::bus::SubSystem;
use crate::cpu::registers::{FlagsRegister, Registers};
use crate::cpu::CPU;
use crate::text::{hex_text, hex_u16, hex_u8, signed_hex, signed_hex_text};
use vstd::prelude::*;

verus! {

/// Defines an operation on the 8-bit registers of the CPU.
#[derive(Copy, Clone, PartialEq, Eq, Structural, Debug)]
pub enum Register {
    A,
    B,
    C,
    D,
    E,
    H,
    L,
}

impl Register {
    /// The value held by this register.
    pub open spec fn get(self, r: Registers) -> u8 {
        match self {
            Register::A => r.a,
            Register::B => r.b,
            Register::C => r.c,
            Register::D => r.d,
            Register::E => r.e,
            Register::H => r.h,
            Register::L => r.l,
        }
    }

    /// The registers with this register replaced by `value`.
    pub open spec fn put(self, r: Registers, value: u8) -> Registers {
        match self {
            Register::A => Registers { a: value, ..r },
            Register::B => Registers { b: value, ..r },
            Register::C => Registers { c: value, ..r },
            Register::D => Registers { d: value, ..r },
            Register::E => Registers { e: value, ..r },
            Register::H => Registers { h: value, ..r },
            Register::L => Registers { l: value, ..r },
        }
    }

    /// Reads value from the register.
    pub fn read(&self, cpu: &CPU) -> (value: u8)
        ensures
            value == self.get(cpu.r),
    {
        match self {
            Register::A => cpu.r.a,
            Register::B => cpu.r.b,
            Register::C => cpu.r.c,
            Register::D => cpu.r.d,
            Register::E => cpu.r.e,
            Register::H => cpu.r.h,
            Register::L => cpu.r.l,
        }
    }

    /// The assembly name of the register.
    pub open spec fn text(self) -> Seq<char> {
        match self {
            Register::A => "A"@,
            Register::B => "B"@,
            Register::C => "C"@,
            Register::D => "D"@,
            Register::E => "E"@,
            Register::H => "H"@,
            Register::L => "L"@,
        }
    }

    /// The assembly name of the register.
    pub fn to_string(&self) -> (s: String)
        ensures
            s@ == self.text(),
    {
        match self {
            Register::A => String::from_str("A"),
            Register::B => String::from_str("B"),
            Register::C => String::from_str("C"),
            Register::D => String::from_str("D"),
            Register::E => String::from_str("E"),
            Register::H => String::from_str("H"),
            Register::L => String::from_str("L"),
        }
    }

    /// Writes value to the register.
    pub fn write(&self, cpu: &mut CPU, value: u8)
        ensures
            *final(cpu) == (CPU { r: self.put(old(cpu).r, value), ..*old(cpu) }),
    {
        match self {
            Register::A => cpu.r.a = value,
            Register::B => cpu.r.b = value,
            Register::C => cpu.r.c = value,
            Register::D => cpu.r.d = value,
            Register::E => cpu.r.e = value,
            Register::H => cpu.r.h = value,
            Register::L => cpu.r.l = value,
        }
    }
}

/// Defines an operation on word registers of the CPU.
#[derive(Copy, Clone, PartialEq, Eq, Structural, Debug)]
pub enum WordRegister {
    AF,
    BC,
    DE,
    HL,
    SP,
}

impl WordRegister {
    /// The value held by this register pair.
    pub open spec fn get(self, r: Registers) -> u16 {
        match self {
            WordRegister::AF => r.af(),
            WordRegister::BC => r.bc(),
            WordRegister::DE => r.de(),
            WordRegister::HL => r.hl(),
            WordRegister::SP => r.sp,
        }
    }

    /// The registers with this register pair replaced by `value`.
    pub open spec fn put(self, r: Registers, value: u16) -> Registers {
        match self {
            WordRegister::AF => r.with_af(value),
            WordRegister::BC => r.with_bc(value),
            WordRegister::DE => r.with_de(value),
            WordRegister::HL => r.with_hl(value),
            WordRegister::SP => Registers { sp: value, ..r },
        }
    }

    /// Read from register.
    pub fn read(&self, cpu: &CPU) -> (value: u16)
        ensures
            value == self.get(cpu.r),
    {
        match self {
            WordRegister::AF => cpu.r.get_af(),
            WordRegister::BC => cpu.r.get_bc(),
            WordRegister::DE => cpu.r.get_de(),
            WordRegister::HL => cpu.r.get_hl(),
            WordRegister::SP => cpu.r.sp,
        }
    }

    /// The assembly name of the register pair.
    pub open spec fn text(self) -> Seq<char> {
        match self {
            WordRegister::AF => "AF"@,
            WordRegister::BC => "BC"@,
            WordRegister::DE => "DE"@,
            WordRegister::HL => "HL"@,
            WordRegister::SP => "SP"@,
        }
    }

    /// The assembly name of the register pair.
    pub fn to_string(&self) -> (s: String)
        ensures
            s@ == self.text(),
    {
        match self {
            WordRegister::AF => String::from_str("AF"),
            WordRegister::BC => String::from_str("BC"),
            WordRegister::DE => String::from_str("DE"),
            WordRegister::HL => String::from_str("HL"),
            WordRegister::SP => String::from_str("SP"),
        }
    }

    /// Write value to register.
    pub fn write(&self, cpu: &mut CPU, value: u16)
        ensures
            *final(cpu) == (CPU { r: self.put(old(cpu).r, value), ..*old(cpu) }),
    {
        match self {
            WordRegister::AF => cpu.r.set_af(value),
            WordRegister::BC => cpu.r.set_bc(value),
            WordRegister::DE => cpu.r.set_de(value),
            WordRegister::HL => cpu.r.set_hl(value),
            WordRegister::SP => cpu.r.sp = value,
        }
    }
}

/// Defines a source which yields an address that can be used to read or write a byte value.
#[derive(Copy, Clone, PartialEq, Eq, Structural, Debug)]
pub enum ByteRef {
    R(WordRegister),  // value refers to memory at address from one of the paired registers
    D16(u16),  // value refers to memory at address from the next 16 bits
    C,  // value refers to memory at address from C register | 0xFF00
    D8(u8),  // value refers to memory at the address from the next 8 bits | 0xFF00
}

impl ByteRef {
    /// The address this reference points to.
    pub open spec fn address(self, r: Registers) -> u16 {
        match self {
            ByteRef::R(reg) => reg.get(r),
            ByteRef::D16(address) => address,
            ByteRef::C => (0xFF00 + r.c) as u16,
            ByteRef::D8(offset) => (0xFF00 + offset) as u16,
        }
    }

    /// The assembly operand: the register pair or the address in parentheses.
    pub open spec fn text(self) -> Seq<char> {
        match self {
            ByteRef::R(reg) => "("@ + reg.text() + ")"@,
            ByteRef::D16(address) => "("@ + hex_text(address as nat, 4) + ")"@,
            ByteRef::C => "(C)"@,
            ByteRef::D8(offset) => "("@ + hex_text((0xFF00 + offset) as nat, 4) + ")"@,
        }
    }

    /// The assembly operand: the register pair or the address in parentheses.
    pub fn to_string(&self) -> (s: String)
        ensures
            s@ == self.text(),
    {
        match self {
            ByteRef::C => String::from_str("(C)"),
            _ => {
                let inner = match self {
                    ByteRef::R(reg) => reg.to_string(),
                    ByteRef::D16(address) => hex_u16(*address),
                    _ => hex_u16(0xFF00 + self.offset() as u16),
                };
                let mut s = String::from_str("(");
                s.append(inner.as_str());
                s.append(")");
                s
            },
        }
    }

    /// The offset of a `D8` reference, 0 for the others.
    fn offset(&self) -> (r: u8)
        ensures
            self matches ByteRef::D8(o) ==> r == o,
    {
        match self {
            ByteRef::D8(offset) => *offset,
            _ => 0,
        }
    }

    /// Resolves and returns the referring address.
    pub fn resolve(&self, cpu: &CPU) -> (address: u16)
        ensures
            address == self.address(cpu.r),
    {
        match self {
            ByteRef::R(reg) => reg.read(cpu),
            ByteRef::D16(address) => *address,
            ByteRef::C => 0xFF00 + cpu.r.c as u16,
            ByteRef::D8(offset) => 0xFF00 + *offset as u16,
        }
    }
}

/// Defines a register or memory location that can be read and written.
#[derive(Copy, Clone, PartialEq, Eq, Structural, Debug)]
pub enum ByteTarget {
    R(Register),
    I(ByteRef),
}

impl ByteTarget {
    /// The assembly operand.
    pub open spec fn text(self) -> Seq<char> {
        match self {
            ByteTarget::R(reg) => reg.text(),
            ByteTarget::I(indirect) => indirect.text(),
        }
    }

    /// The assembly operand.
    pub fn to_string(&self) -> (s: String)
        ensures
            s@ == self.text(),
    {
        match self {
            ByteTarget::R(reg) => reg.to_string(),
            ByteTarget::I(indirect) => indirect.to_string(),
        }
    }

    /// Reads the referring value from the CPU or memory.
    pub fn read<T: SubSystem>(&self, cpu: &CPU, bus: &mut T) -> (value: u8)
        ensures
            value == match self {
                ByteTarget::R(reg) => reg.get(cpu.r),
                ByteTarget::I(indirect) => old(bus).peek(indirect.address(cpu.r)),
            },
            *final(bus) == *old(bus),
    {
        match self {
            ByteTarget::R(reg) => reg.read(cpu),
            ByteTarget::I(indirect) => bus.read(indirect.resolve(cpu)),
        }
    }

    /// Writes to the referring register or memory location.
    pub fn write<T: SubSystem>(&self, cpu: &mut CPU, bus: &mut T, value: u8)
        ensures
            match self {
                ByteTarget::R(reg) => *final(cpu) == (CPU { r: reg.put(old(cpu).r, value), ..*old(cpu) })
                    && *final(bus) == *old(bus),
                ByteTarget::I(indirect) => *final(cpu) == *old(cpu) && *final(bus) == old(bus).poke(
                    indirect.address(old(cpu).r),
                    value,
                ),
            },
    {
        match self {
            ByteTarget::R(reg) => reg.write(cpu, value),
            ByteTarget::I(indirect) => {
                let address = indirect.resolve(cpu);
                bus.write(address, value)
            },
        }
    }
}

/// Defines a source we can read from to get a byte value.
#[derive(Copy, Clone, PartialEq, Eq, Structural, Debug)]
pub enum ByteSource {
    R(Register),
    I(ByteRef),
    D8(u8),  // value comes from the next 8 bits
}

impl ByteSource {
    /// The assembly operand.
    pub open spec fn text(self) -> Seq<char> {
        match self {
            ByteSource::R(reg) => reg.text(),
            ByteSource::D8(value) => hex_text(value as nat, 2),
            ByteSource::I(indirect) => indirect.text(),
        }
    }

    /// The assembly operand.
    pub fn to_string(&self) -> (s: String)
        ensures
            s@ == self.text(),
    {
        match self {
            ByteSource::R(reg) => reg.to_string(),
            ByteSource::D8(value) => hex_u8(*value),
            ByteSource::I(indirect) => indirect.to_string(),
        }
    }

    /// Read byte from the CPU or memory.
    pub fn read<T: SubSystem>(&self, cpu: &CPU, bus: &mut T) -> (value: u8)
        ensures
            value == match self {
                ByteSource::R(reg) => reg.get(cpu.r),
                ByteSource::I(indirect) => old(bus).peek(indirect.address(cpu.r)),
                ByteSource::D8(value) => *value,
            },
            *final(bus) == *old(bus),
    {
        match self {
            ByteSource::R(reg) => reg.read(cpu),
            ByteSource::D8(value) => *value,
            ByteSource::I(indirect) => bus.read(indirect.resolve(cpu)),
        }
    }
}

/// Defines the source of a word value.
#[derive(Copy, Clone, PartialEq, Eq, Structural, Debug)]
pub enum WordSource {
    R(WordRegister),
    D16(u16),  // value comes from the next 16 bits
}

impl WordSource {
    /// The value this source yields.
    pub open spec fn value(self, r: Registers) -> u16 {
        match self {
            WordSource::R(reg) => reg.get(r),
            WordSource::D16(word) => word,
        }
    }

    /// The assembly operand.
    pub open spec fn text(self) -> Seq<char> {
        match self {
            WordSource::R(reg) => reg.text(),
            WordSource::D16(word) => hex_text(word as nat, 4),
        }
    }

    /// The assembly operand.
    pub fn to_string(&self) -> (s: String)
        ensures
            s@ == self.text(),
    {
        match self {
            WordSource::R(reg) => reg.to_string(),
            WordSource::D16(word) => hex_u16(*word),
        }
    }

    /// Resolves the referring value.
    pub fn read(&self, cpu: &CPU) -> (value: u16)
        ensures
            value == self.value(cpu.r),
    {
        match self {
            WordSource::R(reg) => reg.read(cpu),
            WordSource::D16(word) => *word,
        }
    }
}

/// Defines the possible load operations.
#[derive(Copy, Clone, PartialEq, Eq, Structural, Debug)]
pub enum Load {
    Byte(ByteTarget, ByteSource),
    Word(WordRegister, WordSource),
    // Store the contents of `ByteSource` in the memory location specified by `ByteRef`.
    IndirectFrom(ByteRef, ByteSource),
    // Store A at the address in HL and increment HL.
    HLIFromAInc,
    // Store A at the address in HL and decrement HL.
    HLIFromADec,
    // Load A from the address in HL and increment HL.
    HLIToAInc,
    // Load A from the address in HL and decrement HL.
    HLIToADec,
    // Store SP at the 16-bit address (low byte first).
    IndirectFromSP(ByteRef),
    // Add the signed operand to SP and store the result in HL.
    HLFromSPi8(i8),
}

impl Load {
    /// The operands of the load in assembly: target, a comma, then source.
    pub open spec fn text(self) -> Seq<char> {
        match self {
            Load::Byte(target, source) => target.text() + ", "@ + source.text(),
            Load::Word(target, source) => target.text() + ", "@ + source.text(),
            Load::IndirectFrom(indirect, source) => indirect.text() + ", "@ + source.text(),
            Load::HLIFromAInc => "(HL+), A"@,
            Load::HLIFromADec => "(HL-), A"@,
            Load::HLIToAInc => "A, (HL+)"@,
            Load::HLIToADec => "A, (HL-)"@,
            Load::IndirectFromSP(target) => target.text() + ", SP"@,
            Load::HLFromSPi8(value) => "HL, SP"@ + signed_hex_text(value, true),
        }
    }

    /// The operands of the load in assembly: target, a comma, then source.
    pub fn to_string(&self) -> (s: String)
        ensures
            s@ == self.text(),
    {
        match self {
            Load::Byte(target, source) => {
                let mut s = target.to_string();
                s.append(", ");
                s.append(source.to_string().as_str());
                s
            },
            Load::Word(target, source) => {
                let mut s = target.to_string();
                s.append(", ");
                s.append(source.to_string().as_str());
                s
            },
            Load::IndirectFrom(indirect, source) => {
                let mut s = indirect.to_string();
                s.append(", ");
                s.append(source.to_string().as_str());
                s
            },
            Load::HLIFromAInc => String::from_str("(HL+), A"),
            Load::HLIFromADec => String::from_str("(HL-), A"),
            Load::HLIToAInc => String::from_str("A, (HL+)"),
            Load::HLIToADec => String::from_str("A, (HL-)"),
            Load::IndirectFromSP(target) => {
                let mut s = target.to_string();
                s.append(", SP");
                s
            },
            Load::HLFromSPi8(value) => {
                let mut s = String::from_str("HL, SP");
                s.append(signed_hex(*value, true).as_str());
                s
            },
        }
    }
}

/// Possible conditions for conditional instructions like JP, JR, CALL and RET.
#[derive(Copy, Clone, PartialEq, Eq, Structural, Debug)]
pub enum JumpCondition {
    NotZero,
    Zero,
    NotCarry,
    Carry,
    Always,
}

impl JumpCondition {
    /// Whether the condition holds for the given flags.
    pub open spec fn holds(self, f: FlagsRegister) -> bool {
        match self {
            JumpCondition::NotZero => !f.zero,
            JumpCondition::Zero => f.zero,
            JumpCondition::NotCarry => !f.carry,
            JumpCondition::Carry => f.carry,
            JumpCondition::Always => true,
        }
    }

    /// The assembly suffix of the condition, empty for `Always`.
    pub open spec fn text(self) -> Seq<char> {
        match self {
            JumpCondition::NotZero => "NZ"@,
            JumpCondition::Zero => "Z"@,
            JumpCondition::NotCarry => "NC"@,
            JumpCondition::Carry => "C"@,
            JumpCondition::Always => Seq::empty(),
        }
    }

    /// The assembly suffix of the condition, empty for `Always`.
    pub fn to_string(&self) -> (s: String)
        ensures
            s@ == self.text(),
    {
        match self {
            JumpCondition::NotZero => String::from_str("NZ"),
            JumpCondition::Zero => String::from_str("Z"),
            JumpCondition::NotCarry => String::from_str("NC"),
            JumpCondition::Carry => String::from_str("C"),
            JumpCondition::Always => String::new(),
        }
    }

    /// Resolves whether the condition is met.
    pub fn resolve(&self, cpu: &CPU) -> (r: bool)
        ensures
            r == self.holds(cpu.r.f),
    {
        match self {
            JumpCondition::NotZero => !cpu.r.f.contains(FlagsRegister::zero()),
            JumpCondition::Zero => cpu.r.f.contains(FlagsRegister::zero()),
            JumpCondition::NotCarry => !cpu.r.f.contains(FlagsRegister::carry()),
            JumpCondition::Carry => cpu.r.f.contains(FlagsRegister::carry()),
            JumpCondition::Always => true,
        }
    }
}

/// Defines a target address we can jump to.
#[derive(Copy, Clone, PartialEq, Eq, Structural, Debug)]
pub enum JumpTarget {
    D16(u16),  // value comes from the next 16 bits
    HL,
}

impl JumpTarget {
    /// The address this target refers to.
    pub open spec fn address(self, r: Registers) -> u16 {
        match self {
            JumpTarget::D16(word) => word,
            JumpTarget::HL => r.hl(),
        }
    }

    /// The assembly operand.
    pub open spec fn text(self) -> Seq<char> {
        match self {
            JumpTarget::D16(word) => hex_text(word as nat, 4),
            JumpTarget::HL => "HL"@,
        }
    }

    /// The assembly operand.
    pub fn to_string(&self) -> (s: String)
        ensures
            s@ == self.text(),
    {
        match self {
            JumpTarget::D16(word) => hex_u16(*word),
            JumpTarget::HL => String::from_str("HL"),
        }
    }

    /// Resolves and returns the referring target address.
    pub fn read(&self, cpu: &CPU) -> (address: u16)
        ensures
            address == self.address(cpu.r),
    {
        match self {
            JumpTarget::D16(word) => *word,
            JumpTarget::HL => cpu.r.get_hl(),
        }
    }
}

/// The eight restart vectors of the RST instruction.
#[derive(Copy, Clone, PartialEq, Eq, Structural, Debug)]
pub enum ResetCode {
    RST00,
    RST08,
    RST10,
    RST18,
    RST20,
    RST28,
    RST30,
    RST38,
}

impl ResetCode {
    /// The restart vector, 8 times the position of the code in the list.
    pub open spec fn vector(self) -> u16 {
        match self {
            ResetCode::RST00 => 0x00,
            ResetCode::RST08 => 0x08,
            ResetCode::RST10 => 0x10,
            ResetCode::RST18 => 0x18,
            ResetCode::RST20 => 0x20,
            ResetCode::RST28 => 0x28,
            ResetCode::RST30 => 0x30,
            ResetCode::RST38 => 0x38,
        }
    }

    /// The restart vector as `0x` and two hexadecimal digits.
    pub open spec fn text(self) -> Seq<char> {
        hex_text(self.vector() as nat, 2)
    }

    /// The restart vector as `0x` and two hexadecimal digits.
    pub fn to_string(&self) -> (s: String)
        ensures
            s@ == self.text(),
    {
        hex_u8(self.address() as u8)
    }

    /// The address the CPU jumps to.
    pub fn address(&self) -> (r: u16)
        ensures
            r == self.vector(),
    {
        match self {
            ResetCode::RST00 => 0x00,
            ResetCode::RST08 => 0x08,
            ResetCode::RST10 => 0x10,
            ResetCode::RST18 => 0x18,
            ResetCode::RST20 => 0x20,
            ResetCode::RST28 => 0x28,
            ResetCode::RST30 => 0x30,
            ResetCode::RST38 => 0x38,
        }
    }
}

} // verus!
