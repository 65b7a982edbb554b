//! The assembly notation of the instructions that are decoded as they execute, as the
//! debugger lists them.
use crate::instruction::{
    ByteSource, IncDecByteTarget, IncDecWordTarget, Instruction, JumpTest, Load, LoadByteTarget,
    LoadWordTarget, ResetCode, StackTarget, WordSource,
};
use crate::text::{concat, concat3, concat4, decimal_text, decimal_u8};
use vstd::prelude::*;

verus! {

impl ByteSource {
    /// The operand in assembly notation.
    pub open spec fn text(self) -> Seq<char> {
        match self {
            ByteSource::A => "A"@,
            ByteSource::B => "B"@,
            ByteSource::C => "C"@,
            ByteSource::D => "D"@,
            ByteSource::E => "E"@,
            ByteSource::H => "H"@,
            ByteSource::L => "L"@,
            ByteSource::D8 => "u8"@,
            ByteSource::BCI => "(BC)"@,
            ByteSource::DEI => "(DE)"@,
            ByteSource::HLI => "(HL)"@,
            ByteSource::D16I => "(u16)"@,
            ByteSource::CIFF00 => "(FF00+C)"@,
            ByteSource::D8IFF00 => "(FF00+u8)"@,
        }
    }

    /// The operand in assembly notation.
    pub fn to_string(&self) -> (s: String)
        ensures
            s@ == self.text(),
    {
        match self {
            ByteSource::A => String::from_str("A"),
            ByteSource::B => String::from_str("B"),
            ByteSource::C => String::from_str("C"),
            ByteSource::D => String::from_str("D"),
            ByteSource::E => String::from_str("E"),
            ByteSource::H => String::from_str("H"),
            ByteSource::L => String::from_str("L"),
            ByteSource::D8 => String::from_str("u8"),
            ByteSource::BCI => String::from_str("(BC)"),
            ByteSource::DEI => String::from_str("(DE)"),
            ByteSource::HLI => String::from_str("(HL)"),
            ByteSource::D16I => String::from_str("(u16)"),
            ByteSource::CIFF00 => String::from_str("(FF00+C)"),
            ByteSource::D8IFF00 => String::from_str("(FF00+u8)"),
        }
    }
}

impl WordSource {
    /// The operand in assembly notation.
    pub open spec fn text(self) -> Seq<char> {
        match self {
            WordSource::BC => "BC"@,
            WordSource::DE => "DE"@,
            WordSource::HL => "HL"@,
            WordSource::SP => "SP"@,
            WordSource::D16 => "(u16)"@,
        }
    }

    /// The operand in assembly notation.
    pub fn to_string(&self) -> (s: String)
        ensures
            s@ == self.text(),
    {
        match self {
            WordSource::BC => String::from_str("BC"),
            WordSource::DE => String::from_str("DE"),
            WordSource::HL => String::from_str("HL"),
            WordSource::SP => String::from_str("SP"),
            WordSource::D16 => String::from_str("(u16)"),
        }
    }
}

impl IncDecByteTarget {
    /// The operand in assembly notation.
    pub open spec fn text(self) -> Seq<char> {
        match self {
            IncDecByteTarget::A => "A"@,
            IncDecByteTarget::B => "B"@,
            IncDecByteTarget::C => "C"@,
            IncDecByteTarget::D => "D"@,
            IncDecByteTarget::E => "E"@,
            IncDecByteTarget::H => "H"@,
            IncDecByteTarget::L => "L"@,
            IncDecByteTarget::HLI => "(HL)"@,
        }
    }

    /// The operand in assembly notation.
    pub fn to_string(&self) -> (s: String)
        ensures
            s@ == self.text(),
    {
        match self {
            IncDecByteTarget::A => String::from_str("A"),
            IncDecByteTarget::B => String::from_str("B"),
            IncDecByteTarget::C => String::from_str("C"),
            IncDecByteTarget::D => String::from_str("D"),
            IncDecByteTarget::E => String::from_str("E"),
            IncDecByteTarget::H => String::from_str("H"),
            IncDecByteTarget::L => String::from_str("L"),
            IncDecByteTarget::HLI => String::from_str("(HL)"),
        }
    }
}

impl IncDecWordTarget {
    /// The operand in assembly notation.
    pub open spec fn text(self) -> Seq<char> {
        match self {
            IncDecWordTarget::BC => "BC"@,
            IncDecWordTarget::DE => "DE"@,
            IncDecWordTarget::HL => "HL"@,
            IncDecWordTarget::SP => "SP"@,
        }
    }

    /// The operand in assembly notation.
    pub fn to_string(&self) -> (s: String)
        ensures
            s@ == self.text(),
    {
        match self {
            IncDecWordTarget::BC => String::from_str("BC"),
            IncDecWordTarget::DE => String::from_str("DE"),
            IncDecWordTarget::HL => String::from_str("HL"),
            IncDecWordTarget::SP => String::from_str("SP"),
        }
    }
}

impl JumpTest {
    /// The operand in assembly notation.
    pub open spec fn text(self) -> Seq<char> {
        match self {
            JumpTest::NotZero => "NZ,"@,
            JumpTest::Zero => "Z,"@,
            JumpTest::NotCarry => "NC,"@,
            JumpTest::Carry => "C,"@,
            JumpTest::Always => ""@,
        }
    }

    /// The operand in assembly notation.
    pub fn to_string(&self) -> (s: String)
        ensures
            s@ == self.text(),
    {
        match self {
            JumpTest::NotZero => String::from_str("NZ,"),
            JumpTest::Zero => String::from_str("Z,"),
            JumpTest::NotCarry => String::from_str("NC,"),
            JumpTest::Carry => String::from_str("C,"),
            JumpTest::Always => String::from_str(""),
        }
    }
}

impl LoadByteTarget {
    /// The operand in assembly notation.
    pub open spec fn text(self) -> Seq<char> {
        match self {
            LoadByteTarget::A => "A"@,
            LoadByteTarget::B => "B"@,
            LoadByteTarget::C => "C"@,
            LoadByteTarget::D => "D"@,
            LoadByteTarget::E => "E"@,
            LoadByteTarget::H => "H"@,
            LoadByteTarget::L => "L"@,
            LoadByteTarget::BCI => "(BC)"@,
            LoadByteTarget::DEI => "(DE)"@,
            LoadByteTarget::HLI => "(HL)"@,
            LoadByteTarget::D16I => "(u16)"@,
            LoadByteTarget::CIFF00 => "(FF00+C)"@,
            LoadByteTarget::D8IFF00 => "(FF00+u8)"@,
        }
    }

    /// The operand in assembly notation.
    pub fn to_string(&self) -> (s: String)
        ensures
            s@ == self.text(),
    {
        match self {
            LoadByteTarget::A => String::from_str("A"),
            LoadByteTarget::B => String::from_str("B"),
            LoadByteTarget::C => String::from_str("C"),
            LoadByteTarget::D => String::from_str("D"),
            LoadByteTarget::E => String::from_str("E"),
            LoadByteTarget::H => String::from_str("H"),
            LoadByteTarget::L => String::from_str("L"),
            LoadByteTarget::BCI => String::from_str("(BC)"),
            LoadByteTarget::DEI => String::from_str("(DE)"),
            LoadByteTarget::HLI => String::from_str("(HL)"),
            LoadByteTarget::D16I => String::from_str("(u16)"),
            LoadByteTarget::CIFF00 => String::from_str("(FF00+C)"),
            LoadByteTarget::D8IFF00 => String::from_str("(FF00+u8)"),
        }
    }
}

impl LoadWordTarget {
    /// The operand in assembly notation.
    pub open spec fn text(self) -> Seq<char> {
        match self {
            LoadWordTarget::BC => "BC"@,
            LoadWordTarget::DE => "DE"@,
            LoadWordTarget::HL => "HL"@,
            LoadWordTarget::SP => "SP"@,
            LoadWordTarget::D16I => "(u16)"@,
        }
    }

    /// The operand in assembly notation.
    pub fn to_string(&self) -> (s: String)
        ensures
            s@ == self.text(),
    {
        match self {
            LoadWordTarget::BC => String::from_str("BC"),
            LoadWordTarget::DE => String::from_str("DE"),
            LoadWordTarget::HL => String::from_str("HL"),
            LoadWordTarget::SP => String::from_str("SP"),
            LoadWordTarget::D16I => String::from_str("(u16)"),
        }
    }
}

impl StackTarget {
    /// The operand in assembly notation.
    pub open spec fn text(self) -> Seq<char> {
        match self {
            StackTarget::AF => "AF"@,
            StackTarget::BC => "BC"@,
            StackTarget::DE => "DE"@,
            StackTarget::HL => "HL"@,
        }
    }

    /// The operand in assembly notation.
    pub fn to_string(&self) -> (s: String)
        ensures
            s@ == self.text(),
    {
        match self {
            StackTarget::AF => String::from_str("AF"),
            StackTarget::BC => String::from_str("BC"),
            StackTarget::DE => String::from_str("DE"),
            StackTarget::HL => String::from_str("HL"),
        }
    }
}

impl ResetCode {
    /// The operand in assembly notation.
    pub open spec fn text(self) -> Seq<char> {
        match self {
            ResetCode::RST00 => "00h"@,
            ResetCode::RST08 => "08h"@,
            ResetCode::RST10 => "10h"@,
            ResetCode::RST18 => "18h"@,
            ResetCode::RST20 => "20h"@,
            ResetCode::RST28 => "28h"@,
            ResetCode::RST30 => "30h"@,
            ResetCode::RST38 => "38h"@,
        }
    }

    /// The operand in assembly notation.
    pub fn to_string(&self) -> (s: String)
        ensures
            s@ == self.text(),
    {
        match self {
            ResetCode::RST00 => String::from_str("00h"),
            ResetCode::RST08 => String::from_str("08h"),
            ResetCode::RST10 => String::from_str("10h"),
            ResetCode::RST18 => String::from_str("18h"),
            ResetCode::RST20 => String::from_str("20h"),
            ResetCode::RST28 => String::from_str("28h"),
            ResetCode::RST30 => String::from_str("30h"),
            ResetCode::RST38 => String::from_str("38h"),
        }
    }
}

impl Load {
    /// Whether the load has a notation of its own: the loads through HL that move HL on
    /// are written by the instruction.
    pub open spec fn has_text(self) -> bool {
        match self {
            Load::IndirectFromAInc(_) | Load::IndirectFromADec(_) | Load::FromIndirectAInc(_)
            | Load::FromIndirectADec(_) => false,
            _ => true,
        }
    }

    /// The operands of the load, destination first.
    pub open spec fn text(self) -> Seq<char> {
        match self {
            Load::Byte(target, source) => target.text() + ","@ + source.text(),
            Load::Word(target, source) => target.text() + ","@ + source.text(),
            Load::IndirectFrom(target, source) => target.text() + ","@ + source.text(),
            Load::IndirectFromWord(target, source) => target.text() + ","@ + source.text(),
            Load::IndirectFromSPi8(target) => target.text() + ",SP+i8"@,
            _ => Seq::empty(),
        }
    }

    /// The operands of the load, destination first.
    pub fn to_string(&self) -> (s: String)
        requires
            self.has_text(),
        ensures
            s@ == self.text(),
    {
        match self {
            Load::Byte(target, source) => concat3(target.to_string().as_str(), ",", source.to_string().as_str()),
            Load::Word(target, source) => concat3(target.to_string().as_str(), ",", source.to_string().as_str()),
            Load::IndirectFrom(target, source) => concat3(target.to_string().as_str(), ",", source.to_string().as_str()),
            Load::IndirectFromWord(target, source) => concat3(target.to_string().as_str(), ",", source.to_string().as_str()),
            Load::IndirectFromSPi8(target) => concat(target.to_string().as_str(), ",SP+i8"),
            _ => String::new(),
        }
    }
}

/// The notation of the load instruction `LD` with `load`.
fn load_instruction_text(load: &Load) -> (s: String)
    requires
        Instruction::LD(*load).has_text(),
    ensures
        s@ == Instruction::LD(*load).text(),
{
    match load {
        Load::IndirectFromAInc(LoadByteTarget::HLI) => String::from_str("(HL+),A"),
        Load::IndirectFromADec(LoadByteTarget::HLI) => String::from_str("(HL-),A"),
        Load::FromIndirectAInc(ByteSource::HLI) => String::from_str("A,(HL+)"),
        Load::FromIndirectADec(ByteSource::HLI) => String::from_str("A,(HL-)"),
        _ => concat("LD ", load.to_string().as_str()),
    }
}

impl Instruction {
    /// Whether the instruction has a notation: a load through HL that moves HL on names
    /// HL itself.
    pub open spec fn has_text(self) -> bool {
        match self {
            Instruction::LD(load) => load.has_text() || load == Load::IndirectFromAInc(
                LoadByteTarget::HLI,
            ) || load == Load::IndirectFromADec(LoadByteTarget::HLI) || load
                == Load::FromIndirectAInc(ByteSource::HLI) || load == Load::FromIndirectADec(
                ByteSource::HLI,
            ),
            _ => true,
        }
    }

    /// The instruction in assembly notation.
    pub open spec fn text(self) -> Seq<char> {
        match self {
            Instruction::ADDSP => "ADD SP,i8"@,
            Instruction::CCF => "CCF"@,
            Instruction::CPL => "CPL"@,
            Instruction::DAA => "DAA"@,
            Instruction::DI => "DI"@,
            Instruction::EI => "EI"@,
            Instruction::HALT => "HALT"@,
            Instruction::NOP => "NOP"@,
            Instruction::RETI => "RETI"@,
            Instruction::RLA => "RLA"@,
            Instruction::RLCA => "RLCA"@,
            Instruction::RRA => "RRA"@,
            Instruction::RRCA => "RRCA"@,
            Instruction::SCF => "SCF"@,
            Instruction::STOP => "STOP"@,
            Instruction::ADD(operand) => "ADD A,"@ + operand.text(),
            Instruction::ADDHL(operand) => "ADD HL,"@ + operand.text(),
            Instruction::ADC(operand) => "ADC A,"@ + operand.text(),
            Instruction::AND(operand) => "AND A,"@ + operand.text(),
            Instruction::INC(operand) => "INC "@ + operand.text(),
            Instruction::INC2(operand) => "INC "@ + operand.text(),
            Instruction::CP(operand) => "CP A,"@ + operand.text(),
            Instruction::DEC(operand) => "DEC "@ + operand.text(),
            Instruction::DEC2(operand) => "DEC "@ + operand.text(),
            Instruction::OR(operand) => "OR A,"@ + operand.text(),
            Instruction::PUSH(operand) => "PUSH "@ + operand.text(),
            Instruction::POP(operand) => "POP "@ + operand.text(),
            Instruction::RET(operand) => "RET "@ + operand.text(),
            Instruction::RL(operand) => "RL "@ + operand.text(),
            Instruction::RLC(operand) => "RL "@ + operand.text(),
            Instruction::RR(operand) => "RR "@ + operand.text(),
            Instruction::RRC(operand) => "RRC "@ + operand.text(),
            Instruction::RST(operand) => "RST "@ + operand.text(),
            Instruction::SBC(operand) => "SBC A,"@ + operand.text(),
            Instruction::SLA(operand) => "SLA "@ + operand.text(),
            Instruction::SRA(operand) => "SRA "@ + operand.text(),
            Instruction::SRL(operand) => "SRL "@ + operand.text(),
            Instruction::SUB(operand) => "SUB A,"@ + operand.text(),
            Instruction::SWAP(operand) => "SWAP "@ + operand.text(),
            Instruction::XOR(operand) => "XOR A,"@ + operand.text(),
            Instruction::BIT(bit, source) => "BIT "@ + decimal_text(bit as nat) + ","@ + source.text(),
            Instruction::RES(bit, source) => "RES "@ + decimal_text(bit as nat) + ","@ + source.text(),
            Instruction::SET(bit, source) => "SET "@ + decimal_text(bit as nat) + ","@ + source.text(),
            Instruction::CALL(test) => "CALL "@ + test.text() + "u16"@,
            Instruction::JR(test) => "JR "@ + test.text() + "i8"@,
            Instruction::JP(test, source) => "JR "@ + test.text() + source.text(),
            Instruction::LD(load) => match load {
                Load::IndirectFromAInc(LoadByteTarget::HLI) => "(HL+),A"@,
                Load::IndirectFromADec(LoadByteTarget::HLI) => "(HL-),A"@,
                Load::FromIndirectAInc(ByteSource::HLI) => "A,(HL+)"@,
                Load::FromIndirectADec(ByteSource::HLI) => "A,(HL-)"@,
                _ => "LD "@ + load.text(),
            },
        }
    }

    /// The instruction in assembly notation.
    pub fn to_string(&self) -> (s: String)
        requires
            self.has_text(),
        ensures
            s@ == self.text(),
    {
        match self {
            Instruction::ADDSP => String::from_str("ADD SP,i8"),
            Instruction::CCF => String::from_str("CCF"),
            Instruction::CPL => String::from_str("CPL"),
            Instruction::DAA => String::from_str("DAA"),
            Instruction::DI => String::from_str("DI"),
            Instruction::EI => String::from_str("EI"),
            Instruction::HALT => String::from_str("HALT"),
            Instruction::NOP => String::from_str("NOP"),
            Instruction::RETI => String::from_str("RETI"),
            Instruction::RLA => String::from_str("RLA"),
            Instruction::RLCA => String::from_str("RLCA"),
            Instruction::RRA => String::from_str("RRA"),
            Instruction::RRCA => String::from_str("RRCA"),
            Instruction::SCF => String::from_str("SCF"),
            Instruction::STOP => String::from_str("STOP"),
            Instruction::ADD(operand) => concat("ADD A,", operand.to_string().as_str()),
            Instruction::ADDHL(operand) => concat("ADD HL,", operand.to_string().as_str()),
            Instruction::ADC(operand) => concat("ADC A,", operand.to_string().as_str()),
            Instruction::AND(operand) => concat("AND A,", operand.to_string().as_str()),
            Instruction::INC(operand) => concat("INC ", operand.to_string().as_str()),
            Instruction::INC2(operand) => concat("INC ", operand.to_string().as_str()),
            Instruction::CP(operand) => concat("CP A,", operand.to_string().as_str()),
            Instruction::DEC(operand) => concat("DEC ", operand.to_string().as_str()),
            Instruction::DEC2(operand) => concat("DEC ", operand.to_string().as_str()),
            Instruction::OR(operand) => concat("OR A,", operand.to_string().as_str()),
            Instruction::PUSH(operand) => concat("PUSH ", operand.to_string().as_str()),
            Instruction::POP(operand) => concat("POP ", operand.to_string().as_str()),
            Instruction::RET(operand) => concat("RET ", operand.to_string().as_str()),
            Instruction::RL(operand) => concat("RL ", operand.to_string().as_str()),
            Instruction::RLC(operand) => concat("RL ", operand.to_string().as_str()),
            Instruction::RR(operand) => concat("RR ", operand.to_string().as_str()),
            Instruction::RRC(operand) => concat("RRC ", operand.to_string().as_str()),
            Instruction::RST(operand) => concat("RST ", operand.to_string().as_str()),
            Instruction::SBC(operand) => concat("SBC A,", operand.to_string().as_str()),
            Instruction::SLA(operand) => concat("SLA ", operand.to_string().as_str()),
            Instruction::SRA(operand) => concat("SRA ", operand.to_string().as_str()),
            Instruction::SRL(operand) => concat("SRL ", operand.to_string().as_str()),
            Instruction::SUB(operand) => concat("SUB A,", operand.to_string().as_str()),
            Instruction::SWAP(operand) => concat("SWAP ", operand.to_string().as_str()),
            Instruction::XOR(operand) => concat("XOR A,", operand.to_string().as_str()),
            Instruction::BIT(bit, source) => concat4("BIT ", decimal_u8(*bit).as_str(), ",", source.to_string().as_str()),
            Instruction::RES(bit, source) => concat4("RES ", decimal_u8(*bit).as_str(), ",", source.to_string().as_str()),
            Instruction::SET(bit, source) => concat4("SET ", decimal_u8(*bit).as_str(), ",", source.to_string().as_str()),
            Instruction::CALL(test) => concat3("CALL ", test.to_string().as_str(), "u16"),
            Instruction::JR(test) => concat3("JR ", test.to_string().as_str(), "i8"),
            Instruction::JP(test, source) => concat3("JR ", test.to_string().as_str(), source.to_string().as_str()),
            Instruction::LD(load) => load_instruction_text(load),
        }
    }
}

} // verus!
