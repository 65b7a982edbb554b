use lib::instruction::{
    ByteSource, IncDecWordTarget, Instruction, JumpTest, Load, LoadByteTarget, LoadWordTarget,
    ResetCode, StackTarget, WordSource,
};

#[test]
fn text_of_arithmetic_and_bits() {
    assert_eq!(Instruction::ADD(ByteSource::B).to_string(), "ADD A,B");
    assert_eq!(Instruction::ADDHL(WordSource::SP).to_string(), "ADD HL,SP");
    assert_eq!(Instruction::ADDSP.to_string(), "ADD SP,i8");
    assert_eq!(Instruction::BIT(7, ByteSource::HLI).to_string(), "BIT 7,(HL)");
    assert_eq!(Instruction::SET(0, ByteSource::D8IFF00).to_string(), "SET 0,(FF00+u8)");
    assert_eq!(Instruction::INC2(IncDecWordTarget::BC).to_string(), "INC BC");
    assert_eq!(Instruction::RLC(ByteSource::C).to_string(), "RL C");
}

#[test]
fn text_of_jumps_and_stack() {
    assert_eq!(Instruction::JP(JumpTest::NotZero, WordSource::D16).to_string(), "JR NZ,(u16)");
    assert_eq!(Instruction::JR(JumpTest::Carry).to_string(), "JR C,i8");
    assert_eq!(Instruction::CALL(JumpTest::Always).to_string(), "CALL u16");
    assert_eq!(Instruction::RET(JumpTest::Always).to_string(), "RET ");
    assert_eq!(Instruction::RST(ResetCode::RST38).to_string(), "RST 38h");
    assert_eq!(Instruction::PUSH(StackTarget::AF).to_string(), "PUSH AF");
}

#[test]
fn text_of_loads() {
    assert_eq!(Instruction::LD(Load::IndirectFromAInc(LoadByteTarget::HLI)).to_string(), "(HL+),A");
    assert_eq!(Instruction::LD(Load::FromIndirectADec(ByteSource::HLI)).to_string(), "A,(HL-)");
    assert_eq!(Instruction::LD(Load::Byte(LoadByteTarget::A, ByteSource::D8)).to_string(), "LD A,u8");
    assert_eq!(
        Instruction::LD(Load::IndirectFromSPi8(LoadWordTarget::HL)).to_string(),
        "LD HL,SP+i8"
    );
    assert_eq!(
        Instruction::LD(Load::Word(LoadWordTarget::D16I, WordSource::SP)).to_string(),
        "LD (u16),SP"
    );
}
