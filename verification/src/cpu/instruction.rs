use crate::bus::{add16, cread, Bus, SubSystem};
use crate::cpu::ops::{
    ByteRef, ByteSource, ByteTarget, JumpCondition, JumpTarget, Load, Register, ResetCode,
    WordRegister, WordSource,
};
use crate::cpu::ops::JumpCondition::{Always, Carry, NotCarry, NotZero, Zero};
use crate::cpu::ops::Load::{
    Byte, HLFromSPi8, HLIFromADec, HLIFromAInc, HLIToADec, HLIToAInc, IndirectFrom, IndirectFromSP,
    Word,
};
use crate::cpu::ops::Register::{A, B, C, D, E, H, L};
use crate::cpu::ops::ResetCode::{RST00, RST08, RST10, RST18, RST20, RST28, RST30, RST38};
use crate::cpu::ops::WordRegister::{AF, BC, DE, HL, SP};
use crate::cpu::registers::word;
use crate::text::{
    concat, concat4, decimal_text, decimal_u8, hex_text, hex_u16, hex_u8, signed_hex, signed_hex_text,
};
use vstd::prelude::*;

verus! {

/// The opcode that announces a second opcode byte from the extended table.
pub const OPCODE_PREFIX_16BIT: u8 = 0xCB;

#[derive(Copy, Clone, PartialEq, Eq, Structural, Debug)]
pub enum Instruction {
    ADD(ByteSource),  // Add n to A
    ADDHL(WordSource),  // Add nn to HL
    ADDSP(i8),  // Add signed immediate 8 bit value to Stack Pointer
    ADC(ByteSource),  // Add n + Carry flag to A
    AND(ByteSource),  // Logically AND n with A, result in A
    BIT(u8, ByteSource),  // Test bit b from n and save the complement in the Z flag
    INC(ByteTarget),  // Increment single byte register n
    INC2(WordRegister),  // Increment word register n
    CALL(JumpCondition, u16),  // Push address of next instruction onto stack and then jump to address nn
    CCF,  // Complement carry flag
    CP(ByteSource),  // Compare A with source
    CPL,  // Flips all bits in A register, sets N and H flags
    DAA,  // Decimal adjust A after a BCD addition or subtraction
    DI,  // Disables interrupt handling
    DEC(ByteTarget),  // Decrement single byte register n
    DEC2(WordRegister),  // Decrement word register n
    EI,  // Enables interrupt handling after the next instruction
    HALT,  // Halts and wait for interrupt
    JR(JumpCondition, i8),  // Relative jump to given address
    JP(JumpCondition, JumpTarget),  // Jump to address nn
    LD(Load),  // Load any value into a register or memory location
    NOP,  // No operation
    OR(ByteSource),  // Logical OR n with register A, result in A.
    PUSH(WordRegister),  // Push to the stack memory, data from the 16-bit register
    POP(WordRegister),  // Pops to the 16-bit register
    RES(u8, ByteTarget),  // Reset bit b in register r
    RET(JumpCondition),  // Pop two bytes from stack & jump to that address
    RETI,  // Unconditional return which also enables interrupts
    RL(ByteTarget),  // Rotate n left through Carry flag
    RLA,  // Rotate `A` left through carry
    RLC(ByteTarget),  // Rotate target left
    RLCA,  // Rotate A left. Old bit 7 to Carry flag
    RR(ByteTarget),  // Rotate n right through Carry flag
    RRA,  // Rotate A right through Carry flag
    RRC(ByteTarget),  // Rotate n right. Old bit 0 to Carry flag
    RRCA,  // Rotate A right. Old bit 0 to Carry flag
    RST(ResetCode),  // Push present address onto stack. Jump to address 0x0000 + n
    SBC(ByteSource),  // Subtract n + Carry flag from A
    SCF,  // Set carry flag
    SET(u8, ByteTarget),  // Set bit b in register r
    SLA(ByteTarget),  // Shift n left into Carry. LSB of n set to 0
    SRA(ByteTarget),  // Shift n right into Carry. MSB doesn't change
    SRL(ByteTarget),  // Shift right into Carry, MSB set to 0
    SUB(ByteSource),  // Subtract n from A
    STOP,  // Halt CPU & LCD display until button pressed
    SWAP(ByteTarget),  // Swap upper & lower nibbles of n
    XOR(ByteSource),  // Logical exclusive OR n with register A, result in A
    Illegal(u8),  // Illegal instruction
}

/// The 8-bit register encoded by the three bits `z` of an opcode (6 stands for (HL)).
pub open spec fn reg_of(z: int) -> Register {
    if z == 0 {
        B
    } else if z == 1 {
        C
    } else if z == 2 {
        D
    } else if z == 3 {
        E
    } else if z == 4 {
        H
    } else if z == 5 {
        L
    } else {
        A
    }
}

/// The read-write operand encoded by `z`: a register, or memory at HL for 6.
pub open spec fn target_of(z: int) -> ByteTarget {
    if z == 6 {
        ByteTarget::I(ByteRef::R(HL))
    } else {
        ByteTarget::R(reg_of(z))
    }
}

/// The read operand encoded by `z`: a register, or memory at HL for 6.
pub open spec fn source_of(z: int) -> ByteSource {
    if z == 6 {
        ByteSource::I(ByteRef::R(HL))
    } else {
        ByteSource::R(reg_of(z))
    }
}

/// The register pair encoded by `p` in 16-bit loads and arithmetic.
pub open spec fn rp_of(p: int) -> WordRegister {
    if p == 0 {
        BC
    } else if p == 1 {
        DE
    } else if p == 2 {
        HL
    } else {
        SP
    }
}

/// The register pair encoded by `p` in PUSH and POP.
pub open spec fn rp2_of(p: int) -> WordRegister {
    if p == 0 {
        BC
    } else if p == 1 {
        DE
    } else if p == 2 {
        HL
    } else {
        AF
    }
}

/// The condition encoded by `y` in conditional jumps, calls and returns.
pub open spec fn cc_of(y: int) -> JumpCondition {
    if y == 0 {
        NotZero
    } else if y == 1 {
        Zero
    } else if y == 2 {
        NotCarry
    } else {
        Carry
    }
}

/// The arithmetic or logic instruction encoded by `y`.
pub open spec fn alu_of(y: int, source: ByteSource) -> Instruction {
    if y == 0 {
        Instruction::ADD(source)
    } else if y == 1 {
        Instruction::ADC(source)
    } else if y == 2 {
        Instruction::SUB(source)
    } else if y == 3 {
        Instruction::SBC(source)
    } else if y == 4 {
        Instruction::AND(source)
    } else if y == 5 {
        Instruction::XOR(source)
    } else if y == 6 {
        Instruction::OR(source)
    } else {
        Instruction::CP(source)
    }
}

/// The rotation or shift encoded by `y` in prefixed opcodes.
pub open spec fn rot_of(y: int, target: ByteTarget) -> Instruction {
    if y == 0 {
        Instruction::RLC(target)
    } else if y == 1 {
        Instruction::RRC(target)
    } else if y == 2 {
        Instruction::RL(target)
    } else if y == 3 {
        Instruction::RR(target)
    } else if y == 4 {
        Instruction::SLA(target)
    } else if y == 5 {
        Instruction::SRA(target)
    } else if y == 6 {
        Instruction::SWAP(target)
    } else {
        Instruction::SRL(target)
    }
}

/// The restart vector encoded by `y`.
pub open spec fn rst_of(y: int) -> ResetCode {
    if y == 0 {
        RST00
    } else if y == 1 {
        RST08
    } else if y == 2 {
        RST10
    } else if y == 3 {
        RST18
    } else if y == 4 {
        RST20
    } else if y == 5 {
        RST28
    } else if y == 6 {
        RST30
    } else {
        RST38
    }
}

/// The instruction of a 0xCB-prefixed opcode. The opcode splits into `x` (bits 7-6),
/// `y` (bits 5-3) and `z` (bits 2-0): `x` selects rotation/shift, BIT, RES or SET,
/// `y` the operation or bit number and `z` the operand.
pub open spec fn prefixed_spec(opcode: u8) -> Instruction {
    let x = opcode / 64;
    let y = (opcode / 8) % 8;
    let z = opcode % 8;
    if x == 0 {
        rot_of(y as int, target_of(z as int))
    } else if x == 1 {
        Instruction::BIT(y as u8, source_of(z as int))
    } else if x == 2 {
        Instruction::RES(y as u8, target_of(z as int))
    } else {
        Instruction::SET(y as u8, target_of(z as int))
    }
}

/// The number of immediate bytes that follow an opcode without prefix.
pub open spec fn immediate_len(opcode: u8) -> int {
    let x = opcode / 64;
    let y = (opcode / 8) % 8;
    let z = opcode % 8;
    let p = y / 2;
    let q = y % 2;
    if x == 0 {
        if z == 0 {
            if y == 1 {
                2
            } else if y >= 3 {
                1
            } else {
                0
            }
        } else if z == 1 && q == 0 {
            2
        } else if z == 6 {
            1
        } else {
            0
        }
    } else if x == 3 {
        if z == 0 && y >= 4 {
            1
        } else if z == 2 && (y < 4 || y == 5 || y == 7) {
            2
        } else if z == 3 && y == 0 {
            2
        } else if z == 4 && y < 4 {
            2
        } else if z == 5 && q == 1 && p == 0 {
            2
        } else if z == 6 {
            1
        } else {
            0
        }
    } else {
        0
    }
}

/// The instruction of an opcode without prefix, given the immediate bytes `lo` and `hi`
/// that follow it (an 8-bit immediate is `lo`, a 16-bit immediate is `hi:lo`).
/// The opcode splits into `x` (bits 7-6), `y` (bits 5-3), `z` (bits 2-0),
/// `p` (bits 5-4) and `q` (bit 3).
pub open spec fn not_prefixed_spec(opcode: u8, lo: u8, hi: u8) -> Instruction {
    let x = opcode / 64;
    let y = ((opcode / 8) % 8) as int;
    let z = (opcode % 8) as int;
    let p = y / 2;
    let q = y % 2;
    let n = lo;
    let nn = word(hi, lo);
    if x == 0 {
        if z == 0 {
            if y == 0 {
                Instruction::NOP
            } else if y == 1 {
                Instruction::LD(IndirectFromSP(ByteRef::D16(nn)))
            } else if y == 2 {
                Instruction::STOP
            } else if y == 3 {
                Instruction::JR(Always, n as i8)
            } else {
                Instruction::JR(cc_of(y - 4), n as i8)
            }
        } else if z == 1 {
            if q == 0 {
                Instruction::LD(Word(rp_of(p), WordSource::D16(nn)))
            } else {
                Instruction::ADDHL(WordSource::R(rp_of(p)))
            }
        } else if z == 2 {
            if q == 0 {
                if p == 0 {
                    Instruction::LD(IndirectFrom(ByteRef::R(BC), ByteSource::R(A)))
                } else if p == 1 {
                    Instruction::LD(IndirectFrom(ByteRef::R(DE), ByteSource::R(A)))
                } else if p == 2 {
                    Instruction::LD(HLIFromAInc)
                } else {
                    Instruction::LD(HLIFromADec)
                }
            } else {
                if p == 0 {
                    Instruction::LD(Byte(ByteTarget::R(A), ByteSource::I(ByteRef::R(BC))))
                } else if p == 1 {
                    Instruction::LD(Byte(ByteTarget::R(A), ByteSource::I(ByteRef::R(DE))))
                } else if p == 2 {
                    Instruction::LD(HLIToAInc)
                } else {
                    Instruction::LD(HLIToADec)
                }
            }
        } else if z == 3 {
            if q == 0 {
                Instruction::INC2(rp_of(p))
            } else {
                Instruction::DEC2(rp_of(p))
            }
        } else if z == 4 {
            Instruction::INC(target_of(y))
        } else if z == 5 {
            Instruction::DEC(target_of(y))
        } else if z == 6 {
            Instruction::LD(Byte(target_of(y), ByteSource::D8(n)))
        } else {
            if y == 0 {
                Instruction::RLCA
            } else if y == 1 {
                Instruction::RRCA
            } else if y == 2 {
                Instruction::RLA
            } else if y == 3 {
                Instruction::RRA
            } else if y == 4 {
                Instruction::DAA
            } else if y == 5 {
                Instruction::CPL
            } else if y == 6 {
                Instruction::SCF
            } else {
                Instruction::CCF
            }
        }
    } else if x == 1 {
        if opcode == 0x76 {
            Instruction::HALT
        } else {
            Instruction::LD(Byte(target_of(y), source_of(z)))
        }
    } else if x == 2 {
        alu_of(y, source_of(z))
    } else {
        if z == 0 {
            if y < 4 {
                Instruction::RET(cc_of(y))
            } else if y == 4 {
                Instruction::LD(IndirectFrom(ByteRef::D8(n), ByteSource::R(A)))
            } else if y == 5 {
                Instruction::ADDSP(n as i8)
            } else if y == 6 {
                Instruction::LD(Byte(ByteTarget::R(A), ByteSource::I(ByteRef::D8(n))))
            } else {
                Instruction::LD(HLFromSPi8(n as i8))
            }
        } else if z == 1 {
            if q == 0 {
                Instruction::POP(rp2_of(p))
            } else if p == 0 {
                Instruction::RET(Always)
            } else if p == 1 {
                Instruction::RETI
            } else if p == 2 {
                Instruction::JP(Always, JumpTarget::HL)
            } else {
                Instruction::LD(Word(SP, WordSource::R(HL)))
            }
        } else if z == 2 {
            if y < 4 {
                Instruction::JP(cc_of(y), JumpTarget::D16(nn))
            } else if y == 4 {
                Instruction::LD(IndirectFrom(ByteRef::C, ByteSource::R(A)))
            } else if y == 5 {
                Instruction::LD(IndirectFrom(ByteRef::D16(nn), ByteSource::R(A)))
            } else if y == 6 {
                Instruction::LD(Byte(ByteTarget::R(A), ByteSource::I(ByteRef::C)))
            } else {
                Instruction::LD(Byte(ByteTarget::R(A), ByteSource::I(ByteRef::D16(nn))))
            }
        } else if z == 3 {
            if y == 0 {
                Instruction::JP(Always, JumpTarget::D16(nn))
            } else if y == 6 {
                Instruction::DI
            } else if y == 7 {
                Instruction::EI
            } else {
                Instruction::Illegal(opcode)
            }
        } else if z == 4 {
            if y < 4 {
                Instruction::CALL(cc_of(y), nn)
            } else {
                Instruction::Illegal(opcode)
            }
        } else if z == 5 {
            if q == 0 {
                Instruction::PUSH(rp2_of(p))
            } else if p == 0 {
                Instruction::CALL(Always, nn)
            } else {
                Instruction::Illegal(opcode)
            }
        } else if z == 6 {
            alu_of(y, ByteSource::D8(n))
        } else {
            Instruction::RST(rst_of(y))
        }
    }
}

/// Decoding the instruction at `address`: the opcode and every immediate byte are read
/// with one machine cycle each. Yields the instruction, the address after it and the bus.
pub open spec fn decode_spec<T: Bus>(address: u16, bus: T) -> (Instruction, u16, T) {
    let (b1, opcode) = cread(bus, address);
    if opcode == OPCODE_PREFIX_16BIT {
        let (b2, op2) = cread(b1, add16(address, 1));
        (prefixed_spec(op2), add16(address, 2), b2)
    } else {
        let len = immediate_len(opcode);
        if len == 0 {
            (not_prefixed_spec(opcode, 0, 0), add16(address, 1), b1)
        } else if len == 1 {
            let (b2, lo) = cread(b1, add16(address, 1));
            (not_prefixed_spec(opcode, lo, 0), add16(address, 2), b2)
        } else {
            let (b2, lo) = cread(b1, add16(address, 1));
            let (b3, hi) = cread(b2, add16(address, 2));
            (not_prefixed_spec(opcode, lo, hi), add16(address, 3), b3)
        }
    }
}

/// The instruction at `address` and the address after it, read from memory without any
/// machine cycle passing.
#[verifier::opaque]
pub open spec fn peek_decode_spec<T: SubSystem>(address: u16, bus: T) -> (Instruction, u16) {
    let opcode = bus.peek(address);
    if opcode == OPCODE_PREFIX_16BIT {
        (prefixed_spec(bus.peek(add16(address, 1))), add16(address, 2))
    } else {
        let len = immediate_len(opcode);
        let lo = if len >= 1 {
            bus.peek(add16(address, 1))
        } else {
            0
        };
        let hi = if len == 2 {
            bus.peek(add16(address, 2))
        } else {
            0
        };
        (not_prefixed_spec(opcode, lo, hi), add16(address, 1 + len))
    }
}

/// The address after a decoded instruction: two bytes after a prefix, else the opcode and
/// its immediate bytes.
pub proof fn lemma_peek_decode_next<T: SubSystem>(address: u16, bus: T)
    ensures
        peek_decode_spec(address, bus).1 == add16(
            address,
            if bus.peek(address) == OPCODE_PREFIX_16BIT {
                2
            } else {
                1 + immediate_len(bus.peek(address))
            },
        ),
{
    reveal(peek_decode_spec);
}

/// Decoding right after a HALT that hit the HALT bug: the opcode at `address` is read but PC
/// does not advance past it, so the operands (or the prefixed opcode) are read starting at
/// `address` again.
pub open spec fn halt_bug_decode_spec<T: Bus>(address: u16, bus: T) -> (Instruction, u16, T) {
    let (b1, opcode) = cread(bus, address);
    if opcode == OPCODE_PREFIX_16BIT {
        let (b2, op2) = cread(b1, address);
        (prefixed_spec(op2), add16(address, 1), b2)
    } else {
        let len = immediate_len(opcode);
        if len == 0 {
            (not_prefixed_spec(opcode, 0, 0), address, b1)
        } else if len == 1 {
            let (b2, lo) = cread(b1, address);
            (not_prefixed_spec(opcode, lo, 0), add16(address, 1), b2)
        } else {
            let (b2, lo) = cread(b1, address);
            let (b3, hi) = cread(b2, add16(address, 1));
            (not_prefixed_spec(opcode, lo, hi), add16(address, 2), b3)
        }
    }
}

impl Instruction {
    /// The instruction in assembly notation.
    pub open spec fn text(self) -> Seq<char> {
        match self {
            Instruction::NOP => "NOP"@,
            Instruction::HALT => "HALT"@,
            Instruction::STOP => "STOP"@,
            Instruction::DAA => "DAA"@,
            Instruction::CPL => "CPL"@,
            Instruction::CCF => "CCF"@,
            Instruction::SCF => "SCF"@,
            Instruction::RLA => "RLA"@,
            Instruction::RRA => "RRA"@,
            Instruction::EI => "EI"@,
            Instruction::DI => "DI"@,
            Instruction::RETI => "RETI"@,
            Instruction::RLCA => "RLCA"@,
            Instruction::RRCA => "RRCA"@,
            Instruction::RST(code) => "RST "@ + code.text(),
            Instruction::RET(test) => "RET "@ + test.text(),
            Instruction::JP(test, target) => "JP "@ + test.text() + " "@ + target.text(),
            Instruction::JR(test, offset) => match test {
                JumpCondition::Always => "JR "@ + signed_hex_text(offset, false),
                _ => "JR "@ + test.text() + ", "@ + signed_hex_text(offset, false),
            },
            Instruction::CALL(test, address) => "CALL "@ + test.text() + ", "@ + hex_text(address as nat, 4),
            Instruction::ADDHL(source) => "ADD HL, "@ + source.text(),
            Instruction::ADDSP(value) => "ADD SP, "@ + hex_text((value as u8) as nat, 2),
            Instruction::ADD(source) => "ADD A, "@ + source.text(),
            Instruction::ADC(source) => "ADC A, "@ + source.text(),
            Instruction::SUB(source) => "SUB A, "@ + source.text(),
            Instruction::SBC(source) => "SBC A, "@ + source.text(),
            Instruction::AND(source) => "AND A, "@ + source.text(),
            Instruction::OR(source) => "OR A, "@ + source.text(),
            Instruction::XOR(source) => "XOR A, "@ + source.text(),
            Instruction::CP(source) => "CP A, "@ + source.text(),
            Instruction::INC(target) => "INC "@ + target.text(),
            Instruction::DEC(target) => "DEC "@ + target.text(),
            Instruction::RL(target) => "RL "@ + target.text(),
            Instruction::RLC(target) => "RLC "@ + target.text(),
            Instruction::RR(target) => "RR "@ + target.text(),
            Instruction::RRC(target) => "RRC "@ + target.text(),
            Instruction::SLA(target) => "SLA "@ + target.text(),
            Instruction::SRA(target) => "SRA "@ + target.text(),
            Instruction::SRL(target) => "SRL "@ + target.text(),
            Instruction::SWAP(target) => "SWAP "@ + target.text(),
            Instruction::INC2(reg) => "INC "@ + reg.text(),
            Instruction::DEC2(reg) => "DEC "@ + reg.text(),
            Instruction::PUSH(reg) => "PUSH "@ + reg.text(),
            Instruction::POP(reg) => "POP "@ + reg.text(),
            Instruction::LD(load) => "LD "@ + load.text(),
            Instruction::BIT(bit, operand) => "BIT "@ + decimal_text(bit as nat) + ", "@ + operand.text(),
            Instruction::RES(bit, operand) => "RES "@ + decimal_text(bit as nat) + ", "@ + operand.text(),
            Instruction::SET(bit, operand) => "SET "@ + decimal_text(bit as nat) + ", "@ + operand.text(),
            Instruction::Illegal(_) => "??"@,
        }
    }

    /// The instruction in assembly notation.
    pub fn to_string(&self) -> (s: String)
        ensures
            s@ == self.text(),
    {
        match self {
            Instruction::NOP => String::from_str("NOP"),
            Instruction::HALT => String::from_str("HALT"),
            Instruction::STOP => String::from_str("STOP"),
            Instruction::DAA => String::from_str("DAA"),
            Instruction::CPL => String::from_str("CPL"),
            Instruction::CCF => String::from_str("CCF"),
            Instruction::SCF => String::from_str("SCF"),
            Instruction::RLA => String::from_str("RLA"),
            Instruction::RRA => String::from_str("RRA"),
            Instruction::EI => String::from_str("EI"),
            Instruction::DI => String::from_str("DI"),
            Instruction::RETI => String::from_str("RETI"),
            Instruction::RLCA => String::from_str("RLCA"),
            Instruction::RRCA => String::from_str("RRCA"),
            Instruction::RST(code) => concat("RST ", code.to_string().as_str()),
            Instruction::RET(test) => concat("RET ", test.to_string().as_str()),
            Instruction::JP(test, target) => concat4("JP ", test.to_string().as_str(), " ", target.to_string().as_str()),
            Instruction::JR(test, offset) => match test {
                JumpCondition::Always => concat("JR ", signed_hex(*offset, false).as_str()),
                _ => concat4("JR ", test.to_string().as_str(), ", ", signed_hex(*offset, false).as_str()),
            },
            Instruction::CALL(test, address) => concat4("CALL ", test.to_string().as_str(), ", ", hex_u16(*address).as_str()),
            Instruction::ADDHL(source) => concat("ADD HL, ", source.to_string().as_str()),
            Instruction::ADDSP(value) => concat("ADD SP, ", hex_u8(*value as u8).as_str()),
            Instruction::ADD(source) => concat("ADD A, ", source.to_string().as_str()),
            Instruction::ADC(source) => concat("ADC A, ", source.to_string().as_str()),
            Instruction::SUB(source) => concat("SUB A, ", source.to_string().as_str()),
            Instruction::SBC(source) => concat("SBC A, ", source.to_string().as_str()),
            Instruction::AND(source) => concat("AND A, ", source.to_string().as_str()),
            Instruction::OR(source) => concat("OR A, ", source.to_string().as_str()),
            Instruction::XOR(source) => concat("XOR A, ", source.to_string().as_str()),
            Instruction::CP(source) => concat("CP A, ", source.to_string().as_str()),
            Instruction::INC(target) => concat("INC ", target.to_string().as_str()),
            Instruction::DEC(target) => concat("DEC ", target.to_string().as_str()),
            Instruction::RL(target) => concat("RL ", target.to_string().as_str()),
            Instruction::RLC(target) => concat("RLC ", target.to_string().as_str()),
            Instruction::RR(target) => concat("RR ", target.to_string().as_str()),
            Instruction::RRC(target) => concat("RRC ", target.to_string().as_str()),
            Instruction::SLA(target) => concat("SLA ", target.to_string().as_str()),
            Instruction::SRA(target) => concat("SRA ", target.to_string().as_str()),
            Instruction::SRL(target) => concat("SRL ", target.to_string().as_str()),
            Instruction::SWAP(target) => concat("SWAP ", target.to_string().as_str()),
            Instruction::INC2(reg) => concat("INC ", reg.to_string().as_str()),
            Instruction::DEC2(reg) => concat("DEC ", reg.to_string().as_str()),
            Instruction::PUSH(reg) => concat("PUSH ", reg.to_string().as_str()),
            Instruction::POP(reg) => concat("POP ", reg.to_string().as_str()),
            Instruction::LD(load) => concat("LD ", load.to_string().as_str()),
            Instruction::BIT(bit, operand) => concat4("BIT ", decimal_u8(*bit).as_str(), ", ", operand.to_string().as_str()),
            Instruction::RES(bit, operand) => concat4("RES ", decimal_u8(*bit).as_str(), ", ", operand.to_string().as_str()),
            Instruction::SET(bit, operand) => concat4("SET ", decimal_u8(*bit).as_str(), ", ", operand.to_string().as_str()),
            Instruction::Illegal(_) => String::from_str("??"),
        }
    }
}

/// A signed byte that is spelled in hexadecimal with its sign and magnitude
/// (`-0x05`), not as its two's complement.
#[derive(Copy, Clone, PartialEq, Eq, Structural, Debug)]
pub struct ReallySigned(pub i8);

impl ReallySigned {
    /// The sign (`-`, or `+` when `plus` is set), `0x` and two hexadecimal digits of the
    /// magnitude.
    pub fn to_hex_string(&self, plus: bool) -> (s: String)
        ensures
            s@ == signed_hex_text(self.0, plus),
    {
        signed_hex(self.0, plus)
    }
}

impl Instruction {
    /// Whether bit numbers are in 0..8, as for every decoded instruction.
    pub open spec fn is_valid(self) -> bool {
        match self {
            Instruction::BIT(bit, _) => bit < 8,
            Instruction::RES(bit, _) => bit < 8,
            Instruction::SET(bit, _) => bit < 8,
            _ => true,
        }
    }

    /// Creates a new Instruction from the given address on the `Bus`, it reads as
    /// many bytes as needed to create an `Instruction`.
    /// It returns the parsed `Instruction` and the address that follows it.
    pub fn from_memory<T: Bus>(address: u16, bus: &mut T) -> (r: (Instruction, u16))
        ensures
            (r.0, r.1, *final(bus)) == decode_spec(address, *old(bus)),
            r.0.is_valid(),
    {
        let opcode = bus.cycle_read(address);
        if opcode == OPCODE_PREFIX_16BIT {
            let op2 = bus.cycle_read(address.wrapping_add(1));
            (Self::prefixed(op2), address.wrapping_add(2))
        } else {
            Self::not_prefixed(opcode, address.wrapping_add(1), bus)
        }
    }

    /// Decodes the instruction at `address` by reading memory, without letting machine
    /// cycles pass (as a debugger inspects memory). Returns the instruction and the
    /// address that follows it.
    pub fn peek_decode<T: SubSystem>(address: u16, bus: &mut T) -> (r: (Instruction, u16))
        ensures
            r == peek_decode_spec(address, *old(bus)),
            *final(bus) == *old(bus),
    {
        proof {
            reveal(peek_decode_spec);
        }
        let opcode = bus.read(address);
        if opcode == OPCODE_PREFIX_16BIT {
            let op2 = bus.read(address.wrapping_add(1));
            return (Self::prefixed(op2), address.wrapping_add(2));
        }
        let len = Self::immediate_len(opcode);
        let lo: u8 = if len >= 1 {
            bus.read(address.wrapping_add(1))
        } else {
            0
        };
        let hi: u8 = if len == 2 {
            bus.read(address.wrapping_add(2))
        } else {
            0
        };
        (Self::decode_not_prefixed(opcode, lo, hi), address.wrapping_add(1 + len as u16))
    }

    /// Decodes the instruction at `address` as the CPU does right after the HALT bug:
    /// the opcode byte is read without advancing PC, so it is read once more as the first
    /// operand byte (or as the second byte of a prefixed opcode).
    pub fn from_memory_halt_bug<T: Bus>(address: u16, bus: &mut T) -> (r: (Instruction, u16))
        ensures
            (r.0, r.1, *final(bus)) == halt_bug_decode_spec(address, *old(bus)),
            r.0.is_valid(),
    {
        let opcode = bus.cycle_read(address);
        if opcode == OPCODE_PREFIX_16BIT {
            let op2 = bus.cycle_read(address);
            (Self::prefixed(op2), address.wrapping_add(1))
        } else {
            Self::not_prefixed(opcode, address, bus)
        }
    }

    /// Creates a new `Instruction` from the given opcode, the passed address is the
    /// next address after the opcode. Returns the parsed `Instruction` and the next address.
    fn not_prefixed<T: Bus>(opcode: u8, address: u16, bus: &mut T) -> (r: (Instruction, u16))
        requires
            opcode != OPCODE_PREFIX_16BIT,
        ensures
            ({
                let len = immediate_len(opcode);
                if len == 0 {
                    r == (not_prefixed_spec(opcode, 0, 0), address) && *final(bus) == *old(bus)
                } else if len == 1 {
                    let (b1, lo) = cread(*old(bus), address);
                    r == (not_prefixed_spec(opcode, lo, 0), add16(address, 1)) && *final(bus) == b1
                } else {
                    let (b1, lo) = cread(*old(bus), address);
                    let (b2, hi) = cread(b1, add16(address, 1));
                    r == (not_prefixed_spec(opcode, lo, hi), add16(address, 2)) && *final(bus) == b2
                }
            }),
            r.0.is_valid(),
    {
        let mut address = address;
        let len = Self::immediate_len(opcode);
        let mut lo: u8 = 0;
        let mut hi: u8 = 0;
        if len >= 1 {
            lo = read_byte(&mut address, bus);
        }
        if len == 2 {
            hi = read_byte(&mut address, bus);
        }
        (Self::decode_not_prefixed(opcode, lo, hi), address)
    }


    /// The number of immediate bytes that follow an opcode without prefix.
    pub(crate) fn immediate_len(opcode: u8) -> (r: u8)
        ensures
            r == immediate_len(opcode),
    {
        let x = opcode / 64;
        let y = (opcode / 8) % 8;
        let z = opcode % 8;
        let p = y / 2;
        let q = y % 2;
        if x == 0 {
            if z == 0 {
                if y == 1 {
                    2
                } else if y >= 3 {
                    1
                } else {
                    0
                }
            } else if z == 1 && q == 0 {
                2
            } else if z == 6 {
                1
            } else {
                0
            }
        } else if x == 3 {
            if z == 0 && y >= 4 {
                1
            } else if z == 2 && (y < 4 || y == 5 || y == 7) {
                2
            } else if z == 3 && y == 0 {
                2
            } else if z == 4 && y < 4 {
                2
            } else if z == 5 && q == 1 && p == 0 {
                2
            } else if z == 6 {
                1
            } else {
                0
            }
        } else {
            0
        }
    }

    /// Creates a new prefixed `Instruction` from the given opcode.
    fn prefixed(opcode: u8) -> (r: Instruction)
        ensures
            r == prefixed_spec(opcode),
            r.is_valid(),
    {
        match opcode {
            0x00 => Instruction::RLC(ByteTarget::R(B)),
            0x01 => Instruction::RLC(ByteTarget::R(C)),
            0x02 => Instruction::RLC(ByteTarget::R(D)),
            0x03 => Instruction::RLC(ByteTarget::R(E)),
            0x04 => Instruction::RLC(ByteTarget::R(H)),
            0x05 => Instruction::RLC(ByteTarget::R(L)),
            0x06 => Instruction::RLC(ByteTarget::I(ByteRef::R(HL))),
            0x07 => Instruction::RLC(ByteTarget::R(A)),
            0x08 => Instruction::RRC(ByteTarget::R(B)),
            0x09 => Instruction::RRC(ByteTarget::R(C)),
            0x0a => Instruction::RRC(ByteTarget::R(D)),
            0x0b => Instruction::RRC(ByteTarget::R(E)),
            0x0c => Instruction::RRC(ByteTarget::R(H)),
            0x0d => Instruction::RRC(ByteTarget::R(L)),
            0x0e => Instruction::RRC(ByteTarget::I(ByteRef::R(HL))),
            0x0f => Instruction::RRC(ByteTarget::R(A)),
            0x10 => Instruction::RL(ByteTarget::R(B)),
            0x11 => Instruction::RL(ByteTarget::R(C)),
            0x12 => Instruction::RL(ByteTarget::R(D)),
            0x13 => Instruction::RL(ByteTarget::R(E)),
            0x14 => Instruction::RL(ByteTarget::R(H)),
            0x15 => Instruction::RL(ByteTarget::R(L)),
            0x16 => Instruction::RL(ByteTarget::I(ByteRef::R(HL))),
            0x17 => Instruction::RL(ByteTarget::R(A)),
            0x18 => Instruction::RR(ByteTarget::R(B)),
            0x19 => Instruction::RR(ByteTarget::R(C)),
            0x1a => Instruction::RR(ByteTarget::R(D)),
            0x1b => Instruction::RR(ByteTarget::R(E)),
            0x1c => Instruction::RR(ByteTarget::R(H)),
            0x1d => Instruction::RR(ByteTarget::R(L)),
            0x1e => Instruction::RR(ByteTarget::I(ByteRef::R(HL))),
            0x1f => Instruction::RR(ByteTarget::R(A)),
            0x20 => Instruction::SLA(ByteTarget::R(B)),
            0x21 => Instruction::SLA(ByteTarget::R(C)),
            0x22 => Instruction::SLA(ByteTarget::R(D)),
            0x23 => Instruction::SLA(ByteTarget::R(E)),
            0x24 => Instruction::SLA(ByteTarget::R(H)),
            0x25 => Instruction::SLA(ByteTarget::R(L)),
            0x26 => Instruction::SLA(ByteTarget::I(ByteRef::R(HL))),
            0x27 => Instruction::SLA(ByteTarget::R(A)),
            0x28 => Instruction::SRA(ByteTarget::R(B)),
            0x29 => Instruction::SRA(ByteTarget::R(C)),
            0x2a => Instruction::SRA(ByteTarget::R(D)),
            0x2b => Instruction::SRA(ByteTarget::R(E)),
            0x2c => Instruction::SRA(ByteTarget::R(H)),
            0x2d => Instruction::SRA(ByteTarget::R(L)),
            0x2e => Instruction::SRA(ByteTarget::I(ByteRef::R(HL))),
            0x2f => Instruction::SRA(ByteTarget::R(A)),
            0x30 => Instruction::SWAP(ByteTarget::R(B)),
            0x31 => Instruction::SWAP(ByteTarget::R(C)),
            0x32 => Instruction::SWAP(ByteTarget::R(D)),
            0x33 => Instruction::SWAP(ByteTarget::R(E)),
            0x34 => Instruction::SWAP(ByteTarget::R(H)),
            0x35 => Instruction::SWAP(ByteTarget::R(L)),
            0x36 => Instruction::SWAP(ByteTarget::I(ByteRef::R(HL))),
            0x37 => Instruction::SWAP(ByteTarget::R(A)),
            0x38 => Instruction::SRL(ByteTarget::R(B)),
            0x39 => Instruction::SRL(ByteTarget::R(C)),
            0x3a => Instruction::SRL(ByteTarget::R(D)),
            0x3b => Instruction::SRL(ByteTarget::R(E)),
            0x3c => Instruction::SRL(ByteTarget::R(H)),
            0x3d => Instruction::SRL(ByteTarget::R(L)),
            0x3e => Instruction::SRL(ByteTarget::I(ByteRef::R(HL))),
            0x3f => Instruction::SRL(ByteTarget::R(A)),
            0x40 => Instruction::BIT(0, ByteSource::R(B)),
            0x41 => Instruction::BIT(0, ByteSource::R(C)),
            0x42 => Instruction::BIT(0, ByteSource::R(D)),
            0x43 => Instruction::BIT(0, ByteSource::R(E)),
            0x44 => Instruction::BIT(0, ByteSource::R(H)),
            0x45 => Instruction::BIT(0, ByteSource::R(L)),
            0x46 => Instruction::BIT(0, ByteSource::I(ByteRef::R(HL))),
            0x47 => Instruction::BIT(0, ByteSource::R(A)),
            0x48 => Instruction::BIT(1, ByteSource::R(B)),
            0x49 => Instruction::BIT(1, ByteSource::R(C)),
            0x4a => Instruction::BIT(1, ByteSource::R(D)),
            0x4b => Instruction::BIT(1, ByteSource::R(E)),
            0x4c => Instruction::BIT(1, ByteSource::R(H)),
            0x4d => Instruction::BIT(1, ByteSource::R(L)),
            0x4e => Instruction::BIT(1, ByteSource::I(ByteRef::R(HL))),
            0x4f => Instruction::BIT(1, ByteSource::R(A)),
            0x50 => Instruction::BIT(2, ByteSource::R(B)),
            0x51 => Instruction::BIT(2, ByteSource::R(C)),
            0x52 => Instruction::BIT(2, ByteSource::R(D)),
            0x53 => Instruction::BIT(2, ByteSource::R(E)),
            0x54 => Instruction::BIT(2, ByteSource::R(H)),
            0x55 => Instruction::BIT(2, ByteSource::R(L)),
            0x56 => Instruction::BIT(2, ByteSource::I(ByteRef::R(HL))),
            0x57 => Instruction::BIT(2, ByteSource::R(A)),
            0x58 => Instruction::BIT(3, ByteSource::R(B)),
            0x59 => Instruction::BIT(3, ByteSource::R(C)),
            0x5a => Instruction::BIT(3, ByteSource::R(D)),
            0x5b => Instruction::BIT(3, ByteSource::R(E)),
            0x5c => Instruction::BIT(3, ByteSource::R(H)),
            0x5d => Instruction::BIT(3, ByteSource::R(L)),
            0x5e => Instruction::BIT(3, ByteSource::I(ByteRef::R(HL))),
            0x5f => Instruction::BIT(3, ByteSource::R(A)),
            0x60 => Instruction::BIT(4, ByteSource::R(B)),
            0x61 => Instruction::BIT(4, ByteSource::R(C)),
            0x62 => Instruction::BIT(4, ByteSource::R(D)),
            0x63 => Instruction::BIT(4, ByteSource::R(E)),
            0x64 => Instruction::BIT(4, ByteSource::R(H)),
            0x65 => Instruction::BIT(4, ByteSource::R(L)),
            0x66 => Instruction::BIT(4, ByteSource::I(ByteRef::R(HL))),
            0x67 => Instruction::BIT(4, ByteSource::R(A)),
            0x68 => Instruction::BIT(5, ByteSource::R(B)),
            0x69 => Instruction::BIT(5, ByteSource::R(C)),
            0x6a => Instruction::BIT(5, ByteSource::R(D)),
            0x6b => Instruction::BIT(5, ByteSource::R(E)),
            0x6c => Instruction::BIT(5, ByteSource::R(H)),
            0x6d => Instruction::BIT(5, ByteSource::R(L)),
            0x6e => Instruction::BIT(5, ByteSource::I(ByteRef::R(HL))),
            0x6f => Instruction::BIT(5, ByteSource::R(A)),
            0x70 => Instruction::BIT(6, ByteSource::R(B)),
            0x71 => Instruction::BIT(6, ByteSource::R(C)),
            0x72 => Instruction::BIT(6, ByteSource::R(D)),
            0x73 => Instruction::BIT(6, ByteSource::R(E)),
            0x74 => Instruction::BIT(6, ByteSource::R(H)),
            0x75 => Instruction::BIT(6, ByteSource::R(L)),
            0x76 => Instruction::BIT(6, ByteSource::I(ByteRef::R(HL))),
            0x77 => Instruction::BIT(6, ByteSource::R(A)),
            0x78 => Instruction::BIT(7, ByteSource::R(B)),
            0x79 => Instruction::BIT(7, ByteSource::R(C)),
            0x7a => Instruction::BIT(7, ByteSource::R(D)),
            0x7b => Instruction::BIT(7, ByteSource::R(E)),
            0x7c => Instruction::BIT(7, ByteSource::R(H)),
            0x7d => Instruction::BIT(7, ByteSource::R(L)),
            0x7e => Instruction::BIT(7, ByteSource::I(ByteRef::R(HL))),
            0x7f => Instruction::BIT(7, ByteSource::R(A)),
            0x80 => Instruction::RES(0, ByteTarget::R(B)),
            0x81 => Instruction::RES(0, ByteTarget::R(C)),
            0x82 => Instruction::RES(0, ByteTarget::R(D)),
            0x83 => Instruction::RES(0, ByteTarget::R(E)),
            0x84 => Instruction::RES(0, ByteTarget::R(H)),
            0x85 => Instruction::RES(0, ByteTarget::R(L)),
            0x86 => Instruction::RES(0, ByteTarget::I(ByteRef::R(HL))),
            0x87 => Instruction::RES(0, ByteTarget::R(A)),
            0x88 => Instruction::RES(1, ByteTarget::R(B)),
            0x89 => Instruction::RES(1, ByteTarget::R(C)),
            0x8a => Instruction::RES(1, ByteTarget::R(D)),
            0x8b => Instruction::RES(1, ByteTarget::R(E)),
            0x8c => Instruction::RES(1, ByteTarget::R(H)),
            0x8d => Instruction::RES(1, ByteTarget::R(L)),
            0x8e => Instruction::RES(1, ByteTarget::I(ByteRef::R(HL))),
            0x8f => Instruction::RES(1, ByteTarget::R(A)),
            0x90 => Instruction::RES(2, ByteTarget::R(B)),
            0x91 => Instruction::RES(2, ByteTarget::R(C)),
            0x92 => Instruction::RES(2, ByteTarget::R(D)),
            0x93 => Instruction::RES(2, ByteTarget::R(E)),
            0x94 => Instruction::RES(2, ByteTarget::R(H)),
            0x95 => Instruction::RES(2, ByteTarget::R(L)),
            0x96 => Instruction::RES(2, ByteTarget::I(ByteRef::R(HL))),
            0x97 => Instruction::RES(2, ByteTarget::R(A)),
            0x98 => Instruction::RES(3, ByteTarget::R(B)),
            0x99 => Instruction::RES(3, ByteTarget::R(C)),
            0x9a => Instruction::RES(3, ByteTarget::R(D)),
            0x9b => Instruction::RES(3, ByteTarget::R(E)),
            0x9c => Instruction::RES(3, ByteTarget::R(H)),
            0x9d => Instruction::RES(3, ByteTarget::R(L)),
            0x9e => Instruction::RES(3, ByteTarget::I(ByteRef::R(HL))),
            0x9f => Instruction::RES(3, ByteTarget::R(A)),
            0xa0 => Instruction::RES(4, ByteTarget::R(B)),
            0xa1 => Instruction::RES(4, ByteTarget::R(C)),
            0xa2 => Instruction::RES(4, ByteTarget::R(D)),
            0xa3 => Instruction::RES(4, ByteTarget::R(E)),
            0xa4 => Instruction::RES(4, ByteTarget::R(H)),
            0xa5 => Instruction::RES(4, ByteTarget::R(L)),
            0xa6 => Instruction::RES(4, ByteTarget::I(ByteRef::R(HL))),
            0xa7 => Instruction::RES(4, ByteTarget::R(A)),
            0xa8 => Instruction::RES(5, ByteTarget::R(B)),
            0xa9 => Instruction::RES(5, ByteTarget::R(C)),
            0xaa => Instruction::RES(5, ByteTarget::R(D)),
            0xab => Instruction::RES(5, ByteTarget::R(E)),
            0xac => Instruction::RES(5, ByteTarget::R(H)),
            0xad => Instruction::RES(5, ByteTarget::R(L)),
            0xae => Instruction::RES(5, ByteTarget::I(ByteRef::R(HL))),
            0xaf => Instruction::RES(5, ByteTarget::R(A)),
            0xb0 => Instruction::RES(6, ByteTarget::R(B)),
            0xb1 => Instruction::RES(6, ByteTarget::R(C)),
            0xb2 => Instruction::RES(6, ByteTarget::R(D)),
            0xb3 => Instruction::RES(6, ByteTarget::R(E)),
            0xb4 => Instruction::RES(6, ByteTarget::R(H)),
            0xb5 => Instruction::RES(6, ByteTarget::R(L)),
            0xb6 => Instruction::RES(6, ByteTarget::I(ByteRef::R(HL))),
            0xb7 => Instruction::RES(6, ByteTarget::R(A)),
            0xb8 => Instruction::RES(7, ByteTarget::R(B)),
            0xb9 => Instruction::RES(7, ByteTarget::R(C)),
            0xba => Instruction::RES(7, ByteTarget::R(D)),
            0xbb => Instruction::RES(7, ByteTarget::R(E)),
            0xbc => Instruction::RES(7, ByteTarget::R(H)),
            0xbd => Instruction::RES(7, ByteTarget::R(L)),
            0xbe => Instruction::RES(7, ByteTarget::I(ByteRef::R(HL))),
            0xbf => Instruction::RES(7, ByteTarget::R(A)),
            0xc0 => Instruction::SET(0, ByteTarget::R(B)),
            0xc1 => Instruction::SET(0, ByteTarget::R(C)),
            0xc2 => Instruction::SET(0, ByteTarget::R(D)),
            0xc3 => Instruction::SET(0, ByteTarget::R(E)),
            0xc4 => Instruction::SET(0, ByteTarget::R(H)),
            0xc5 => Instruction::SET(0, ByteTarget::R(L)),
            0xc6 => Instruction::SET(0, ByteTarget::I(ByteRef::R(HL))),
            0xc7 => Instruction::SET(0, ByteTarget::R(A)),
            0xc8 => Instruction::SET(1, ByteTarget::R(B)),
            0xc9 => Instruction::SET(1, ByteTarget::R(C)),
            0xca => Instruction::SET(1, ByteTarget::R(D)),
            0xcb => Instruction::SET(1, ByteTarget::R(E)),
            0xcc => Instruction::SET(1, ByteTarget::R(H)),
            0xcd => Instruction::SET(1, ByteTarget::R(L)),
            0xce => Instruction::SET(1, ByteTarget::I(ByteRef::R(HL))),
            0xcf => Instruction::SET(1, ByteTarget::R(A)),
            0xd0 => Instruction::SET(2, ByteTarget::R(B)),
            0xd1 => Instruction::SET(2, ByteTarget::R(C)),
            0xd2 => Instruction::SET(2, ByteTarget::R(D)),
            0xd3 => Instruction::SET(2, ByteTarget::R(E)),
            0xd4 => Instruction::SET(2, ByteTarget::R(H)),
            0xd5 => Instruction::SET(2, ByteTarget::R(L)),
            0xd6 => Instruction::SET(2, ByteTarget::I(ByteRef::R(HL))),
            0xd7 => Instruction::SET(2, ByteTarget::R(A)),
            0xd8 => Instruction::SET(3, ByteTarget::R(B)),
            0xd9 => Instruction::SET(3, ByteTarget::R(C)),
            0xda => Instruction::SET(3, ByteTarget::R(D)),
            0xdb => Instruction::SET(3, ByteTarget::R(E)),
            0xdc => Instruction::SET(3, ByteTarget::R(H)),
            0xdd => Instruction::SET(3, ByteTarget::R(L)),
            0xde => Instruction::SET(3, ByteTarget::I(ByteRef::R(HL))),
            0xdf => Instruction::SET(3, ByteTarget::R(A)),
            0xe0 => Instruction::SET(4, ByteTarget::R(B)),
            0xe1 => Instruction::SET(4, ByteTarget::R(C)),
            0xe2 => Instruction::SET(4, ByteTarget::R(D)),
            0xe3 => Instruction::SET(4, ByteTarget::R(E)),
            0xe4 => Instruction::SET(4, ByteTarget::R(H)),
            0xe5 => Instruction::SET(4, ByteTarget::R(L)),
            0xe6 => Instruction::SET(4, ByteTarget::I(ByteRef::R(HL))),
            0xe7 => Instruction::SET(4, ByteTarget::R(A)),
            0xe8 => Instruction::SET(5, ByteTarget::R(B)),
            0xe9 => Instruction::SET(5, ByteTarget::R(C)),
            0xea => Instruction::SET(5, ByteTarget::R(D)),
            0xeb => Instruction::SET(5, ByteTarget::R(E)),
            0xec => Instruction::SET(5, ByteTarget::R(H)),
            0xed => Instruction::SET(5, ByteTarget::R(L)),
            0xee => Instruction::SET(5, ByteTarget::I(ByteRef::R(HL))),
            0xef => Instruction::SET(5, ByteTarget::R(A)),
            0xf0 => Instruction::SET(6, ByteTarget::R(B)),
            0xf1 => Instruction::SET(6, ByteTarget::R(C)),
            0xf2 => Instruction::SET(6, ByteTarget::R(D)),
            0xf3 => Instruction::SET(6, ByteTarget::R(E)),
            0xf4 => Instruction::SET(6, ByteTarget::R(H)),
            0xf5 => Instruction::SET(6, ByteTarget::R(L)),
            0xf6 => Instruction::SET(6, ByteTarget::I(ByteRef::R(HL))),
            0xf7 => Instruction::SET(6, ByteTarget::R(A)),
            0xf8 => Instruction::SET(7, ByteTarget::R(B)),
            0xf9 => Instruction::SET(7, ByteTarget::R(C)),
            0xfa => Instruction::SET(7, ByteTarget::R(D)),
            0xfb => Instruction::SET(7, ByteTarget::R(E)),
            0xfc => Instruction::SET(7, ByteTarget::R(H)),
            0xfd => Instruction::SET(7, ByteTarget::R(L)),
            0xfe => Instruction::SET(7, ByteTarget::I(ByteRef::R(HL))),
            0xff => Instruction::SET(7, ByteTarget::R(A)),
        }
    }

    /// The instruction of an opcode without prefix, given the immediate bytes after it.
    fn decode_not_prefixed(opcode: u8, lo: u8, hi: u8) -> (r: Instruction)
        requires
            opcode != OPCODE_PREFIX_16BIT,
        ensures
            r == not_prefixed_spec(opcode, lo, hi),
            r.is_valid(),
    {
        let n = lo;
        let nn = hi as u16 * 256 + lo as u16;
        match opcode {
            0x00 => Instruction::NOP,
            0x01 => Instruction::LD(Word(BC, WordSource::D16(nn))),
            0x02 => Instruction::LD(IndirectFrom(ByteRef::R(BC), ByteSource::R(A))),
            0x03 => Instruction::INC2(BC),
            0x04 => Instruction::INC(ByteTarget::R(B)),
            0x05 => Instruction::DEC(ByteTarget::R(B)),
            0x06 => Instruction::LD(Byte(ByteTarget::R(B), ByteSource::D8(n))),
            0x07 => Instruction::RLCA,
            0x08 => Instruction::LD(IndirectFromSP(ByteRef::D16(nn))),
            0x09 => Instruction::ADDHL(WordSource::R(BC)),
            0x0a => Instruction::LD(Byte(ByteTarget::R(A), ByteSource::I(ByteRef::R(BC)))),
            0x0b => Instruction::DEC2(BC),
            0x0c => Instruction::INC(ByteTarget::R(C)),
            0x0d => Instruction::DEC(ByteTarget::R(C)),
            0x0e => Instruction::LD(Byte(ByteTarget::R(C), ByteSource::D8(n))),
            0x0f => Instruction::RRCA,
            0x10 => Instruction::STOP,
            0x11 => Instruction::LD(Word(DE, WordSource::D16(nn))),
            0x12 => Instruction::LD(IndirectFrom(ByteRef::R(DE), ByteSource::R(A))),
            0x13 => Instruction::INC2(DE),
            0x14 => Instruction::INC(ByteTarget::R(D)),
            0x15 => Instruction::DEC(ByteTarget::R(D)),
            0x16 => Instruction::LD(Byte(ByteTarget::R(D), ByteSource::D8(n))),
            0x17 => Instruction::RLA,
            0x18 => Instruction::JR(Always, n as i8),
            0x19 => Instruction::ADDHL(WordSource::R(DE)),
            0x1a => Instruction::LD(Byte(ByteTarget::R(A), ByteSource::I(ByteRef::R(DE)))),
            0x1b => Instruction::DEC2(DE),
            0x1c => Instruction::INC(ByteTarget::R(E)),
            0x1d => Instruction::DEC(ByteTarget::R(E)),
            0x1e => Instruction::LD(Byte(ByteTarget::R(E), ByteSource::D8(n))),
            0x1f => Instruction::RRA,
            0x20 => Instruction::JR(NotZero, n as i8),
            0x21 => Instruction::LD(Word(HL, WordSource::D16(nn))),
            0x22 => Instruction::LD(HLIFromAInc),
            0x23 => Instruction::INC2(HL),
            0x24 => Instruction::INC(ByteTarget::R(H)),
            0x25 => Instruction::DEC(ByteTarget::R(H)),
            0x26 => Instruction::LD(Byte(ByteTarget::R(H), ByteSource::D8(n))),
            0x27 => Instruction::DAA,
            0x28 => Instruction::JR(Zero, n as i8),
            0x29 => Instruction::ADDHL(WordSource::R(HL)),
            0x2a => Instruction::LD(HLIToAInc),
            0x2b => Instruction::DEC2(HL),
            0x2c => Instruction::INC(ByteTarget::R(L)),
            0x2d => Instruction::DEC(ByteTarget::R(L)),
            0x2e => Instruction::LD(Byte(ByteTarget::R(L), ByteSource::D8(n))),
            0x2f => Instruction::CPL,
            0x30 => Instruction::JR(NotCarry, n as i8),
            0x31 => Instruction::LD(Word(SP, WordSource::D16(nn))),
            0x32 => Instruction::LD(HLIFromADec),
            0x33 => Instruction::INC2(SP),
            0x34 => Instruction::INC(ByteTarget::I(ByteRef::R(HL))),
            0x35 => Instruction::DEC(ByteTarget::I(ByteRef::R(HL))),
            0x36 => Instruction::LD(Byte(ByteTarget::I(ByteRef::R(HL)), ByteSource::D8(n))),
            0x37 => Instruction::SCF,
            0x38 => Instruction::JR(Carry, n as i8),
            0x39 => Instruction::ADDHL(WordSource::R(SP)),
            0x3a => Instruction::LD(HLIToADec),
            0x3b => Instruction::DEC2(SP),
            0x3c => Instruction::INC(ByteTarget::R(A)),
            0x3d => Instruction::DEC(ByteTarget::R(A)),
            0x3e => Instruction::LD(Byte(ByteTarget::R(A), ByteSource::D8(n))),
            0x3f => Instruction::CCF,
            0x40 => Instruction::LD(Byte(ByteTarget::R(B), ByteSource::R(B))),
            0x41 => Instruction::LD(Byte(ByteTarget::R(B), ByteSource::R(C))),
            0x42 => Instruction::LD(Byte(ByteTarget::R(B), ByteSource::R(D))),
            0x43 => Instruction::LD(Byte(ByteTarget::R(B), ByteSource::R(E))),
            0x44 => Instruction::LD(Byte(ByteTarget::R(B), ByteSource::R(H))),
            0x45 => Instruction::LD(Byte(ByteTarget::R(B), ByteSource::R(L))),
            0x46 => Instruction::LD(Byte(ByteTarget::R(B), ByteSource::I(ByteRef::R(HL)))),
            0x47 => Instruction::LD(Byte(ByteTarget::R(B), ByteSource::R(A))),
            0x48 => Instruction::LD(Byte(ByteTarget::R(C), ByteSource::R(B))),
            0x49 => Instruction::LD(Byte(ByteTarget::R(C), ByteSource::R(C))),
            0x4a => Instruction::LD(Byte(ByteTarget::R(C), ByteSource::R(D))),
            0x4b => Instruction::LD(Byte(ByteTarget::R(C), ByteSource::R(E))),
            0x4c => Instruction::LD(Byte(ByteTarget::R(C), ByteSource::R(H))),
            0x4d => Instruction::LD(Byte(ByteTarget::R(C), ByteSource::R(L))),
            0x4e => Instruction::LD(Byte(ByteTarget::R(C), ByteSource::I(ByteRef::R(HL)))),
            0x4f => Instruction::LD(Byte(ByteTarget::R(C), ByteSource::R(A))),
            0x50 => Instruction::LD(Byte(ByteTarget::R(D), ByteSource::R(B))),
            0x51 => Instruction::LD(Byte(ByteTarget::R(D), ByteSource::R(C))),
            0x52 => Instruction::LD(Byte(ByteTarget::R(D), ByteSource::R(D))),
            0x53 => Instruction::LD(Byte(ByteTarget::R(D), ByteSource::R(E))),
            0x54 => Instruction::LD(Byte(ByteTarget::R(D), ByteSource::R(H))),
            0x55 => Instruction::LD(Byte(ByteTarget::R(D), ByteSource::R(L))),
            0x56 => Instruction::LD(Byte(ByteTarget::R(D), ByteSource::I(ByteRef::R(HL)))),
            0x57 => Instruction::LD(Byte(ByteTarget::R(D), ByteSource::R(A))),
            0x58 => Instruction::LD(Byte(ByteTarget::R(E), ByteSource::R(B))),
            0x59 => Instruction::LD(Byte(ByteTarget::R(E), ByteSource::R(C))),
            0x5a => Instruction::LD(Byte(ByteTarget::R(E), ByteSource::R(D))),
            0x5b => Instruction::LD(Byte(ByteTarget::R(E), ByteSource::R(E))),
            0x5c => Instruction::LD(Byte(ByteTarget::R(E), ByteSource::R(H))),
            0x5d => Instruction::LD(Byte(ByteTarget::R(E), ByteSource::R(L))),
            0x5e => Instruction::LD(Byte(ByteTarget::R(E), ByteSource::I(ByteRef::R(HL)))),
            0x5f => Instruction::LD(Byte(ByteTarget::R(E), ByteSource::R(A))),
            0x60 => Instruction::LD(Byte(ByteTarget::R(H), ByteSource::R(B))),
            0x61 => Instruction::LD(Byte(ByteTarget::R(H), ByteSource::R(C))),
            0x62 => Instruction::LD(Byte(ByteTarget::R(H), ByteSource::R(D))),
            0x63 => Instruction::LD(Byte(ByteTarget::R(H), ByteSource::R(E))),
            0x64 => Instruction::LD(Byte(ByteTarget::R(H), ByteSource::R(H))),
            0x65 => Instruction::LD(Byte(ByteTarget::R(H), ByteSource::R(L))),
            0x66 => Instruction::LD(Byte(ByteTarget::R(H), ByteSource::I(ByteRef::R(HL)))),
            0x67 => Instruction::LD(Byte(ByteTarget::R(H), ByteSource::R(A))),
            0x68 => Instruction::LD(Byte(ByteTarget::R(L), ByteSource::R(B))),
            0x69 => Instruction::LD(Byte(ByteTarget::R(L), ByteSource::R(C))),
            0x6a => Instruction::LD(Byte(ByteTarget::R(L), ByteSource::R(D))),
            0x6b => Instruction::LD(Byte(ByteTarget::R(L), ByteSource::R(E))),
            0x6c => Instruction::LD(Byte(ByteTarget::R(L), ByteSource::R(H))),
            0x6d => Instruction::LD(Byte(ByteTarget::R(L), ByteSource::R(L))),
            0x6e => Instruction::LD(Byte(ByteTarget::R(L), ByteSource::I(ByteRef::R(HL)))),
            0x6f => Instruction::LD(Byte(ByteTarget::R(L), ByteSource::R(A))),
            0x70 => Instruction::LD(Byte(ByteTarget::I(ByteRef::R(HL)), ByteSource::R(B))),
            0x71 => Instruction::LD(Byte(ByteTarget::I(ByteRef::R(HL)), ByteSource::R(C))),
            0x72 => Instruction::LD(Byte(ByteTarget::I(ByteRef::R(HL)), ByteSource::R(D))),
            0x73 => Instruction::LD(Byte(ByteTarget::I(ByteRef::R(HL)), ByteSource::R(E))),
            0x74 => Instruction::LD(Byte(ByteTarget::I(ByteRef::R(HL)), ByteSource::R(H))),
            0x75 => Instruction::LD(Byte(ByteTarget::I(ByteRef::R(HL)), ByteSource::R(L))),
            0x76 => Instruction::HALT,
            0x77 => Instruction::LD(Byte(ByteTarget::I(ByteRef::R(HL)), ByteSource::R(A))),
            0x78 => Instruction::LD(Byte(ByteTarget::R(A), ByteSource::R(B))),
            0x79 => Instruction::LD(Byte(ByteTarget::R(A), ByteSource::R(C))),
            0x7a => Instruction::LD(Byte(ByteTarget::R(A), ByteSource::R(D))),
            0x7b => Instruction::LD(Byte(ByteTarget::R(A), ByteSource::R(E))),
            0x7c => Instruction::LD(Byte(ByteTarget::R(A), ByteSource::R(H))),
            0x7d => Instruction::LD(Byte(ByteTarget::R(A), ByteSource::R(L))),
            0x7e => Instruction::LD(Byte(ByteTarget::R(A), ByteSource::I(ByteRef::R(HL)))),
            0x7f => Instruction::LD(Byte(ByteTarget::R(A), ByteSource::R(A))),
            0x80 => Instruction::ADD(ByteSource::R(B)),
            0x81 => Instruction::ADD(ByteSource::R(C)),
            0x82 => Instruction::ADD(ByteSource::R(D)),
            0x83 => Instruction::ADD(ByteSource::R(E)),
            0x84 => Instruction::ADD(ByteSource::R(H)),
            0x85 => Instruction::ADD(ByteSource::R(L)),
            0x86 => Instruction::ADD(ByteSource::I(ByteRef::R(HL))),
            0x87 => Instruction::ADD(ByteSource::R(A)),
            0x88 => Instruction::ADC(ByteSource::R(B)),
            0x89 => Instruction::ADC(ByteSource::R(C)),
            0x8a => Instruction::ADC(ByteSource::R(D)),
            0x8b => Instruction::ADC(ByteSource::R(E)),
            0x8c => Instruction::ADC(ByteSource::R(H)),
            0x8d => Instruction::ADC(ByteSource::R(L)),
            0x8e => Instruction::ADC(ByteSource::I(ByteRef::R(HL))),
            0x8f => Instruction::ADC(ByteSource::R(A)),
            0x90 => Instruction::SUB(ByteSource::R(B)),
            0x91 => Instruction::SUB(ByteSource::R(C)),
            0x92 => Instruction::SUB(ByteSource::R(D)),
            0x93 => Instruction::SUB(ByteSource::R(E)),
            0x94 => Instruction::SUB(ByteSource::R(H)),
            0x95 => Instruction::SUB(ByteSource::R(L)),
            0x96 => Instruction::SUB(ByteSource::I(ByteRef::R(HL))),
            0x97 => Instruction::SUB(ByteSource::R(A)),
            0x98 => Instruction::SBC(ByteSource::R(B)),
            0x99 => Instruction::SBC(ByteSource::R(C)),
            0x9a => Instruction::SBC(ByteSource::R(D)),
            0x9b => Instruction::SBC(ByteSource::R(E)),
            0x9c => Instruction::SBC(ByteSource::R(H)),
            0x9d => Instruction::SBC(ByteSource::R(L)),
            0x9e => Instruction::SBC(ByteSource::I(ByteRef::R(HL))),
            0x9f => Instruction::SBC(ByteSource::R(A)),
            0xa0 => Instruction::AND(ByteSource::R(B)),
            0xa1 => Instruction::AND(ByteSource::R(C)),
            0xa2 => Instruction::AND(ByteSource::R(D)),
            0xa3 => Instruction::AND(ByteSource::R(E)),
            0xa4 => Instruction::AND(ByteSource::R(H)),
            0xa5 => Instruction::AND(ByteSource::R(L)),
            0xa6 => Instruction::AND(ByteSource::I(ByteRef::R(HL))),
            0xa7 => Instruction::AND(ByteSource::R(A)),
            0xa8 => Instruction::XOR(ByteSource::R(B)),
            0xa9 => Instruction::XOR(ByteSource::R(C)),
            0xaa => Instruction::XOR(ByteSource::R(D)),
            0xab => Instruction::XOR(ByteSource::R(E)),
            0xac => Instruction::XOR(ByteSource::R(H)),
            0xad => Instruction::XOR(ByteSource::R(L)),
            0xae => Instruction::XOR(ByteSource::I(ByteRef::R(HL))),
            0xaf => Instruction::XOR(ByteSource::R(A)),
            0xb0 => Instruction::OR(ByteSource::R(B)),
            0xb1 => Instruction::OR(ByteSource::R(C)),
            0xb2 => Instruction::OR(ByteSource::R(D)),
            0xb3 => Instruction::OR(ByteSource::R(E)),
            0xb4 => Instruction::OR(ByteSource::R(H)),
            0xb5 => Instruction::OR(ByteSource::R(L)),
            0xb6 => Instruction::OR(ByteSource::I(ByteRef::R(HL))),
            0xb7 => Instruction::OR(ByteSource::R(A)),
            0xb8 => Instruction::CP(ByteSource::R(B)),
            0xb9 => Instruction::CP(ByteSource::R(C)),
            0xba => Instruction::CP(ByteSource::R(D)),
            0xbb => Instruction::CP(ByteSource::R(E)),
            0xbc => Instruction::CP(ByteSource::R(H)),
            0xbd => Instruction::CP(ByteSource::R(L)),
            0xbe => Instruction::CP(ByteSource::I(ByteRef::R(HL))),
            0xbf => Instruction::CP(ByteSource::R(A)),
            0xc0 => Instruction::RET(NotZero),
            0xc1 => Instruction::POP(BC),
            0xc2 => Instruction::JP(NotZero, JumpTarget::D16(nn)),
            0xc3 => Instruction::JP(Always, JumpTarget::D16(nn)),
            0xc4 => Instruction::CALL(NotZero, nn),
            0xc5 => Instruction::PUSH(BC),
            0xc6 => Instruction::ADD(ByteSource::D8(n)),
            0xc7 => Instruction::RST(RST00),
            0xc8 => Instruction::RET(Zero),
            0xc9 => Instruction::RET(Always),
            0xca => Instruction::JP(Zero, JumpTarget::D16(nn)),
            0xcc => Instruction::CALL(Zero, nn),
            0xcd => Instruction::CALL(Always, nn),
            0xce => Instruction::ADC(ByteSource::D8(n)),
            0xcf => Instruction::RST(RST08),
            0xd0 => Instruction::RET(NotCarry),
            0xd1 => Instruction::POP(DE),
            0xd2 => Instruction::JP(NotCarry, JumpTarget::D16(nn)),
            0xd3 => Instruction::Illegal(0xd3),
            0xd4 => Instruction::CALL(NotCarry, nn),
            0xd5 => Instruction::PUSH(DE),
            0xd6 => Instruction::SUB(ByteSource::D8(n)),
            0xd7 => Instruction::RST(RST10),
            0xd8 => Instruction::RET(Carry),
            0xd9 => Instruction::RETI,
            0xda => Instruction::JP(Carry, JumpTarget::D16(nn)),
            0xdb => Instruction::Illegal(0xdb),
            0xdc => Instruction::CALL(Carry, nn),
            0xdd => Instruction::Illegal(0xdd),
            0xde => Instruction::SBC(ByteSource::D8(n)),
            0xdf => Instruction::RST(RST18),
            0xe0 => Instruction::LD(IndirectFrom(ByteRef::D8(n), ByteSource::R(A))),
            0xe1 => Instruction::POP(HL),
            0xe2 => Instruction::LD(IndirectFrom(ByteRef::C, ByteSource::R(A))),
            0xe3 => Instruction::Illegal(0xe3),
            0xe4 => Instruction::Illegal(0xe4),
            0xe5 => Instruction::PUSH(HL),
            0xe6 => Instruction::AND(ByteSource::D8(n)),
            0xe7 => Instruction::RST(RST20),
            0xe8 => Instruction::ADDSP(n as i8),
            0xe9 => Instruction::JP(Always, JumpTarget::HL),
            0xea => Instruction::LD(IndirectFrom(ByteRef::D16(nn), ByteSource::R(A))),
            0xeb => Instruction::Illegal(0xeb),
            0xec => Instruction::Illegal(0xec),
            0xed => Instruction::Illegal(0xed),
            0xee => Instruction::XOR(ByteSource::D8(n)),
            0xef => Instruction::RST(RST28),
            0xf0 => Instruction::LD(Byte(ByteTarget::R(A), ByteSource::I(ByteRef::D8(n)))),
            0xf1 => Instruction::POP(AF),
            0xf2 => Instruction::LD(Byte(ByteTarget::R(A), ByteSource::I(ByteRef::C))),
            0xf3 => Instruction::DI,
            0xf4 => Instruction::Illegal(0xf4),
            0xf5 => Instruction::PUSH(AF),
            0xf6 => Instruction::OR(ByteSource::D8(n)),
            0xf7 => Instruction::RST(RST30),
            0xf8 => Instruction::LD(HLFromSPi8(n as i8)),
            0xf9 => Instruction::LD(Word(SP, WordSource::R(HL))),
            0xfa => Instruction::LD(Byte(ByteTarget::R(A), ByteSource::I(ByteRef::D16(nn)))),
            0xfb => Instruction::EI,
            0xfc => Instruction::Illegal(0xfc),
            0xfd => Instruction::Illegal(0xfd),
            0xfe => Instruction::CP(ByteSource::D8(n)),
            0xff => Instruction::RST(RST38),
            _ => Instruction::Illegal(opcode),
        }
    }
}

/// Reads a byte from the bus at the given address with one machine cycle,
/// increments the passed address and returns the read value.
fn read_byte<T: Bus>(address: &mut u16, bus: &mut T) -> (value: u8)
    ensures
        (*final(bus), value) == cread(*old(bus), *old(address)),
        *final(address) == add16(*old(address), 1),
{
    let value = bus.cycle_read(*address);
    *address = address.wrapping_add(1);
    value
}

} // verus!
