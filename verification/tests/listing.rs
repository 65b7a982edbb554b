use lib::bus::SubSystem;
use lib::cpu::instruction::{Instruction, ReallySigned};
use lib::cpu::misc::{
    ByteSource, ByteTarget, IndirectByteRef, JumpCondition, Load, PairedRegister, Register,
    WordSource, WordTarget,
};
use lib::cpu::ops;
use lib::cpu::CPU;

/// A flat 64 KiB memory.
#[derive(Clone)]
struct Memory {
    data: Vec<u8>,
}

impl SubSystem for Memory {
    fn peek(&self, address: u16) -> u8 {
        self.data[address as usize]
    }

    fn poke(&self, address: u16, value: u8) -> Self {
        let mut m = self.clone();
        m.data[address as usize] = value;
        m
    }

    fn write(&mut self, address: u16, value: u8) {
        self.data[address as usize] = value;
    }

    fn read(&mut self, address: u16) -> u8 {
        self.data[address as usize]
    }
}

#[test]
fn test_instruction_listing() {
    let ld = Instruction::LD(ops::Load::Byte(
        ops::ByteTarget::R(ops::Register::A),
        ops::ByteSource::D8(0x42),
    ));
    assert_eq!(ld.to_string(), "LD A, 0x42");
    assert_eq!(Instruction::JR(ops::JumpCondition::NotZero, -5).to_string(), "JR NZ, -0x05");
    assert_eq!(Instruction::JR(ops::JumpCondition::Always, 3).to_string(), "JR 0x03");
    assert_eq!(
        Instruction::JP(ops::JumpCondition::Always, ops::JumpTarget::D16(0x1234)).to_string(),
        "JP  0x1234"
    );
    assert_eq!(
        Instruction::CALL(ops::JumpCondition::Carry, 0xBEEF).to_string(),
        "CALL C, 0xbeef"
    );
    assert_eq!(Instruction::ADDSP(-1).to_string(), "ADD SP, 0xff");
    assert_eq!(
        Instruction::BIT(7, ops::ByteSource::I(ops::ByteRef::R(ops::WordRegister::HL))).to_string(),
        "BIT 7, (HL)"
    );
    assert_eq!(Instruction::RST(ops::ResetCode::RST38).to_string(), "RST 0x38");
    assert_eq!(Instruction::RET(ops::JumpCondition::Always).to_string(), "RET ");
    assert_eq!(Instruction::Illegal(0xD3).to_string(), "??");
    assert_eq!(Instruction::INC2(ops::WordRegister::SP).to_string(), "INC SP");
}

#[test]
fn test_really_signed() {
    assert_eq!(ReallySigned(-128).to_hex_string(false), "-0x80");
    assert_eq!(ReallySigned(10).to_hex_string(true), "+0x0a");
    assert_eq!(ReallySigned(0).to_hex_string(false), "0x00");
}

#[test]
fn test_flat_operands_listing() {
    assert_eq!(ByteSource::D8I(0x42).to_string(), "(0xff42)");
    assert_eq!(ByteSource::D16I(0xC000).to_string(), "(0xc000)");
    assert_eq!(ByteTarget::HLI.to_string(), "(HL)");
    assert_eq!(WordTarget::D16I(0x1234).to_string(), "(0x1234)");
    assert_eq!(
        Load::IndirectFromSPi8(WordTarget::R(PairedRegister::HL), -1).to_string(),
        "HL, SP + 0xff"
    );
    assert_eq!(Load::IndirectFromAInc(IndirectByteRef::HLI).to_string(), "(HL)+, A");
    assert_eq!(Load::FromIndirectADec(ByteSource::HLI).to_string(), "A, (HL)-");
    assert_eq!(
        Load::Word(WordTarget::R(PairedRegister::SP), WordSource::D16(0xFFFE)).to_string(),
        "SP, 0xfffe"
    );
    assert_eq!(Register::H.to_string(), "H");
    assert_eq!(JumpCondition::NotCarry.to_string(), "NC");
}

#[test]
fn test_flat_operands_access() {
    let mut cpu = CPU::default();
    let mut memory = Memory { data: vec![0; 0x10000] };
    cpu.r.set_hl(0xC000);
    cpu.r.c = 0x10;
    ByteTarget::HLI.write(&mut cpu, &mut memory, 0x5A);
    assert_eq!(memory.data[0xC000], 0x5A);
    assert_eq!(ByteTarget::HLI.read(&mut cpu, &mut memory), 0x5A);
    assert_eq!(ByteSource::HLI.read(&mut cpu, &mut memory), 0x5A);
    memory.data[0xFF10] = 0x33;
    assert_eq!(ByteSource::CI.read(&mut cpu, &mut memory), 0x33);
    assert_eq!(IndirectByteRef::D8I(0x80).resolve(&mut cpu), 0xFF80);
    WordTarget::D16I(0xC100).write(&mut cpu, &mut memory, 0xBEEF);
    assert_eq!(memory.data[0xC100], 0xEF);
    assert_eq!(memory.data[0xC101], 0xBE);
    PairedRegister::DE.write(&mut cpu, 0x1234);
    assert_eq!(PairedRegister::DE.read(&mut cpu), 0x1234);
    assert_eq!(WordSource::R(PairedRegister::DE).read(&mut cpu), 0x1234);
    PairedRegister::AF.write(&mut cpu, 0xFFFF);
    assert_eq!(cpu.r.get_af(), 0xFFF0, "the low bits of F do not exist");
}
