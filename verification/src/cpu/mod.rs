pub mod alu;
pub mod instruction;
pub mod interrupt;
pub mod loads;
pub mod misc;
pub mod ops;
pub mod registers;

use crate::bus::{add16, behaves_as_memory, cread, cwrite, Bus, SubSystem};
use crate::cpu::alu::{
    add8, add_hl, add_hl_result, add_result, add_sp, add_sp_result, assign_bit, daa, daa_result,
    dec, dec_result, inc, inc_result, logic_flags, shift, shift_result, sub8, sub_result, test_bit,
    Shift,
};
use crate::cpu::instruction::{decode_spec, halt_bug_decode_spec, Instruction};
use crate::cpu::interrupt::interrupt_spec;
use crate::cpu::ops::{ByteSource, ByteTarget, JumpCondition, JumpTarget, Load, WordRegister, WordSource};
use crate::cpu::registers::{word, FlagsRegister, Registers};
use crate::utils::{bit_spec, with_bit_spec};
use vstd::prelude::*;

verus! {

/// IME (Interrupt Master Enable) state. The EI instruction enables interrupts
/// only after the next instruction, which puts IME on state `ImeState::Pending`.
#[derive(Copy, Clone, PartialEq, Eq, Structural, Debug)]
pub enum ImeState {
    Disabled,
    Pending,
    Enabled,
}

/// Implements the CPU for the GB (DMG-01),
/// the CPU is LR35902 which is a subset of i8080 & Z80.
#[derive(Copy, Clone, PartialEq, Eq, Structural, Debug)]
pub struct CPU {
    pub r: Registers,  // CPU registers including program counter and stack pointer
    pub ime: ImeState,
    pub is_halted: bool,
    // HALT was executed while IME was disabled and an interrupt was pending: the byte
    // after HALT is read twice, because PC fails to advance past the next opcode.
    pub halt_bug: bool,
}

/// Whether an interrupt is requested and enabled on the bus.
pub open spec fn irq_pending<T: Bus>(bus: T) -> bool {
    bus.ie() & bus.iflag() & 0b0001_1111 != 0
}

/// Reading a byte operand: registers and immediates cost nothing, a memory operand one
/// machine cycle.
pub open spec fn read_source<T: Bus>(r: Registers, bus: T, source: ByteSource) -> (T, u8) {
    match source {
        ByteSource::R(reg) => (bus, reg.get(r)),
        ByteSource::D8(value) => (bus, value),
        ByteSource::I(indirect) => cread(bus, indirect.address(r)),
    }
}

/// Reading a read-write byte operand.
pub open spec fn read_target<T: Bus>(r: Registers, bus: T, target: ByteTarget) -> (T, u8) {
    match target {
        ByteTarget::R(reg) => (bus, reg.get(r)),
        ByteTarget::I(indirect) => cread(bus, indirect.address(r)),
    }
}

/// Writing a read-write byte operand: a register, or memory with one machine cycle.
pub open spec fn write_target<T: Bus>(r: Registers, bus: T, target: ByteTarget, value: u8) -> (
    Registers,
    T,
) {
    match target {
        ByteTarget::R(reg) => (reg.put(r, value), bus),
        ByteTarget::I(indirect) => (r, cwrite(bus, indirect.address(r), value)),
    }
}

/// Pushing a word: one internal cycle, then the high byte and the low byte are written
/// below the stack pointer.
pub open spec fn push_spec<T: Bus>(r: Registers, bus: T, value: u16) -> (Registers, T) {
    let b1 = bus.tick();
    let sp1 = add16(r.sp, -1);
    let b2 = cwrite(b1, sp1, (value / 256) as u8);
    let sp2 = add16(sp1, -1);
    let b3 = cwrite(b2, sp2, (value % 256) as u8);
    (Registers { sp: sp2, ..r }, b3)
}

/// Popping a word: the low byte and then the high byte are read from the stack.
pub open spec fn pop_spec<T: Bus>(r: Registers, bus: T) -> (Registers, T, u16) {
    let (b1, lo) = cread(bus, r.sp);
    let sp1 = add16(r.sp, 1);
    let (b2, hi) = cread(b1, sp1);
    (Registers { sp: add16(sp1, 1), ..r }, b2, word(hi, lo))
}

/// The accumulator and flags after an 8-bit arithmetic or logic instruction on operand `v`.
pub open spec fn arith_spec(instruction: Instruction, a: u8, v: u8, f: FlagsRegister) -> (
    u8,
    FlagsRegister,
) {
    match instruction {
        Instruction::ADD(_) => add_result(a, v, false),
        Instruction::ADC(_) => add_result(a, v, f.carry),
        Instruction::SUB(_) => sub_result(a, v, false),
        Instruction::SBC(_) => sub_result(a, v, f.carry),
        Instruction::AND(_) => (a & v, logic_flags(a & v, true)),
        Instruction::XOR(_) => (a ^ v, logic_flags(a ^ v, false)),
        Instruction::OR(_) => (a | v, logic_flags(a | v, false)),
        Instruction::CP(_) => (a, sub_result(a, v, false).1),
        _ => (a, f),
    }
}

/// Arithmetic or logic instruction with a byte operand.
pub open spec fn arith_step<T: Bus>(
    cpu: CPU,
    instruction: Instruction,
    source: ByteSource,
    next_pc: u16,
    bus: T,
) -> (CPU, T) {
    let (b, v) = read_source(cpu.r, bus, source);
    let (a, f) = arith_spec(instruction, cpu.r.a, v, cpu.r.f);
    (CPU { r: Registers { a, f, pc: next_pc, ..cpu.r }, ..cpu }, b)
}

/// Rotation or shift of a read-write operand; Zero reflects the result.
pub open spec fn shift_step<T: Bus>(
    cpu: CPU,
    op: Shift,
    target: ByteTarget,
    next_pc: u16,
    bus: T,
) -> (CPU, T) {
    let (b1, v) = read_target(cpu.r, bus, target);
    let (res, carry) = shift_result(op, v, cpu.r.f.carry);
    let r1 = Registers { f: FlagsRegister::of(res == 0, false, false, carry), ..cpu.r };
    let (r2, b2) = write_target(r1, b1, target, res);
    (CPU { r: Registers { pc: next_pc, ..r2 }, ..cpu }, b2)
}

/// Rotation of the accumulator; Zero is always cleared.
pub open spec fn rotate_a_step(cpu: CPU, op: Shift, next_pc: u16) -> CPU {
    let (res, carry) = shift_result(op, cpu.r.a, cpu.r.f.carry);
    CPU {
        r: Registers { a: res, f: FlagsRegister::of(false, false, false, carry), pc: next_pc, ..cpu.r },
        ..cpu
    }
}

/// Increment or decrement of a read-write operand.
pub open spec fn inc_dec_step<T: Bus>(
    cpu: CPU,
    increment: bool,
    target: ByteTarget,
    next_pc: u16,
    bus: T,
) -> (CPU, T) {
    let (b1, v) = read_target(cpu.r, bus, target);
    let (res, f) = if increment { inc_result(v, cpu.r.f) } else { dec_result(v, cpu.r.f) };
    let (r2, b2) = write_target(Registers { f, ..cpu.r }, b1, target, res);
    (CPU { r: Registers { pc: next_pc, ..r2 }, ..cpu }, b2)
}

/// Setting or resetting one bit of a read-write operand; flags are kept.
pub open spec fn bit_assign_step<T: Bus>(
    cpu: CPU,
    bit: u8,
    state: bool,
    target: ByteTarget,
    next_pc: u16,
    bus: T,
) -> (CPU, T) {
    let (b1, v) = read_target(cpu.r, bus, target);
    let (r2, b2) = write_target(cpu.r, b1, target, with_bit_spec(v, bit as nat, state) as u8);
    (CPU { r: Registers { pc: next_pc, ..r2 }, ..cpu }, b2)
}

/// The effect of a load instruction.
pub open spec fn load_spec<T: Bus>(cpu: CPU, load: Load, next_pc: u16, bus: T) -> (CPU, T) {
    let r = cpu.r;
    let (r2, b2): (Registers, T) = match load {
        Load::Byte(target, source) => {
            let (b1, v) = read_source(r, bus, source);
            write_target(r, b1, target, v)
        },
        Load::Word(reg, source) => {
            let b1 = match source {
                WordSource::R(_) => bus.tick(),
                WordSource::D16(_) => bus,
            };
            (reg.put(r, source.value(r)), b1)
        },
        Load::IndirectFrom(indirect, source) => {
            let (b1, v) = read_source(r, bus, source);
            (r, cwrite(b1, indirect.address(r), v))
        },
        Load::HLIFromAInc => (r.with_hl(add16(r.hl(), 1)), cwrite(bus, r.hl(), r.a)),
        Load::HLIFromADec => (r.with_hl(add16(r.hl(), -1)), cwrite(bus, r.hl(), r.a)),
        Load::HLIToAInc => {
            let (b1, v) = cread(bus, r.hl());
            (Registers { a: v, ..r.with_hl(add16(r.hl(), 1)) }, b1)
        },
        Load::HLIToADec => {
            let (b1, v) = cread(bus, r.hl());
            (Registers { a: v, ..r.with_hl(add16(r.hl(), -1)) }, b1)
        },
        Load::IndirectFromSP(indirect) => {
            let address = indirect.address(r);
            let b1 = cwrite(bus, address, (r.sp % 256) as u8);
            (r, cwrite(b1, add16(address, 1), (r.sp / 256) as u8))
        },
        Load::HLFromSPi8(e) => {
            let (value, f) = add_sp_result(r.sp, e);
            (Registers { f, ..r.with_hl(value) }, bus.tick())
        },
    };
    (CPU { r: Registers { pc: next_pc, ..r2 }, ..cpu }, b2)
}

/// On a bus that behaves as memory, popping right after a push gives back the pushed word
/// and leaves the registers as they were before the push.
pub proof fn lemma_push_then_pop<T: Bus>(r: Registers, bus: T, value: u16)
    requires
        behaves_as_memory::<T>(),
    ensures
        ({
            let (r1, b1) = push_spec(r, bus, value);
            let (r2, b2, popped) = pop_spec(r1, b1);
            popped == value && r2 == r
        }),
{
    let b1 = bus.tick();
    let sp1 = add16(r.sp, -1);
    let b2 = cwrite(b1, sp1, (value / 256) as u8);
    let sp2 = add16(sp1, -1);
    let b3 = cwrite(b2, sp2, (value % 256) as u8);
    assert(sp1 != sp2);
    assert(add16(sp2, 1) == sp1);
    assert(add16(sp1, 1) == r.sp);
    let lo = b3.tick().peek(sp2);
    let hi = b3.tick().tick().peek(sp1);
    assert(lo == (value % 256) as u8);
    assert(b3.tick().tick().peek(sp1) == b3.peek(sp1));
    assert(b3.peek(sp1) == b2.tick().poke(sp2, (value % 256) as u8).peek(sp1));
    assert(hi == (value / 256) as u8);
    assert(word(hi, lo) == value);
}

/// The effect of executing `instruction`, whose encoding ends right before `next_pc`:
/// the new CPU state and the bus after every memory access and machine cycle it takes.
pub open spec fn execute_spec<T: Bus>(cpu: CPU, instruction: Instruction, next_pc: u16, bus: T) -> (
    CPU,
    T,
) {
    let r = cpu.r;
    let at_next = CPU { r: Registers { pc: next_pc, ..r }, ..cpu };
    match instruction {
        Instruction::ADD(s) => arith_step(cpu, instruction, s, next_pc, bus),
        Instruction::ADC(s) => arith_step(cpu, instruction, s, next_pc, bus),
        Instruction::SUB(s) => arith_step(cpu, instruction, s, next_pc, bus),
        Instruction::SBC(s) => arith_step(cpu, instruction, s, next_pc, bus),
        Instruction::AND(s) => arith_step(cpu, instruction, s, next_pc, bus),
        Instruction::XOR(s) => arith_step(cpu, instruction, s, next_pc, bus),
        Instruction::OR(s) => arith_step(cpu, instruction, s, next_pc, bus),
        Instruction::CP(s) => arith_step(cpu, instruction, s, next_pc, bus),
        Instruction::ADDHL(s) => {
            let (hl, f) = add_hl_result(r.hl(), s.value(r), r.f);
            (CPU { r: Registers { f, pc: next_pc, ..r.with_hl(hl) }, ..cpu }, bus.tick())
        },
        Instruction::ADDSP(e) => {
            let (sp, f) = add_sp_result(r.sp, e);
            (CPU { r: Registers { f, sp, pc: next_pc, ..r }, ..cpu }, bus.tick().tick())
        },
        Instruction::BIT(bit, s) => {
            let (b, v) = read_source(r, bus, s);
            (
                CPU {
                    r: Registers {
                        f: FlagsRegister::of(!bit_spec(v, bit as nat), false, true, r.f.carry),
                        pc: next_pc,
                        ..r
                    },
                    ..cpu
                },
                b,
            )
        },
        Instruction::RES(bit, t) => bit_assign_step(cpu, bit, false, t, next_pc, bus),
        Instruction::SET(bit, t) => bit_assign_step(cpu, bit, true, t, next_pc, bus),
        Instruction::INC(t) => inc_dec_step(cpu, true, t, next_pc, bus),
        Instruction::DEC(t) => inc_dec_step(cpu, false, t, next_pc, bus),
        Instruction::INC2(reg) => (
            CPU { r: Registers { pc: next_pc, ..reg.put(r, add16(reg.get(r), 1)) }, ..cpu },
            bus.tick(),
        ),
        Instruction::DEC2(reg) => (
            CPU { r: Registers { pc: next_pc, ..reg.put(r, add16(reg.get(r), -1)) }, ..cpu },
            bus.tick(),
        ),
        Instruction::CALL(condition, address) => {
            if condition.holds(r.f) {
                let (r1, b1) = push_spec(r, bus, next_pc);
                (CPU { r: Registers { pc: address, ..r1 }, ..cpu }, b1)
            } else {
                (at_next, bus)
            }
        },
        Instruction::RET(condition) => {
            let b0 = match condition {
                JumpCondition::Always => bus,
                _ => bus.tick(),
            };
            if condition.holds(r.f) {
                let (r1, b1, address) = pop_spec(r, b0);
                (CPU { r: Registers { pc: address, ..r1 }, ..cpu }, b1.tick())
            } else {
                (at_next, b0)
            }
        },
        Instruction::RETI => {
            let (r1, b1, address) = pop_spec(r, bus);
            (CPU { r: Registers { pc: address, ..r1 }, ime: ImeState::Enabled, ..cpu }, b1.tick())
        },
        Instruction::RST(code) => {
            let (r1, b1) = push_spec(r, bus, next_pc);
            (CPU { r: Registers { pc: code.vector(), ..r1 }, ..cpu }, b1)
        },
        Instruction::JR(condition, e) => {
            if condition.holds(r.f) {
                (CPU { r: Registers { pc: add16(next_pc, e as int), ..r }, ..cpu }, bus.tick())
            } else {
                (at_next, bus)
            }
        },
        Instruction::JP(condition, target) => {
            if condition.holds(r.f) {
                let b1 = match target {
                    JumpTarget::D16(_) => bus.tick(),
                    JumpTarget::HL => bus,
                };
                (CPU { r: Registers { pc: target.address(r), ..r }, ..cpu }, b1)
            } else {
                (at_next, bus)
            }
        },
        Instruction::LD(load) => load_spec(cpu, load, next_pc, bus),
        Instruction::PUSH(reg) => {
            let (r1, b1) = push_spec(r, bus, reg.get(r));
            (CPU { r: Registers { pc: next_pc, ..r1 }, ..cpu }, b1)
        },
        Instruction::POP(reg) => {
            let (r1, b1, value) = pop_spec(r, bus);
            (CPU { r: Registers { pc: next_pc, ..reg.put(r1, value) }, ..cpu }, b1)
        },
        Instruction::RLC(t) => shift_step(cpu, Shift::RotateLeftCircular, t, next_pc, bus),
        Instruction::RRC(t) => shift_step(cpu, Shift::RotateRightCircular, t, next_pc, bus),
        Instruction::RL(t) => shift_step(cpu, Shift::RotateLeft, t, next_pc, bus),
        Instruction::RR(t) => shift_step(cpu, Shift::RotateRight, t, next_pc, bus),
        Instruction::SLA(t) => shift_step(cpu, Shift::ShiftLeftArithmetic, t, next_pc, bus),
        Instruction::SRA(t) => shift_step(cpu, Shift::ShiftRightArithmetic, t, next_pc, bus),
        Instruction::SWAP(t) => shift_step(cpu, Shift::Swap, t, next_pc, bus),
        Instruction::SRL(t) => shift_step(cpu, Shift::ShiftRightLogical, t, next_pc, bus),
        Instruction::RLCA => (rotate_a_step(cpu, Shift::RotateLeftCircular, next_pc), bus),
        Instruction::RRCA => (rotate_a_step(cpu, Shift::RotateRightCircular, next_pc), bus),
        Instruction::RLA => (rotate_a_step(cpu, Shift::RotateLeft, next_pc), bus),
        Instruction::RRA => (rotate_a_step(cpu, Shift::RotateRight, next_pc), bus),
        Instruction::CCF => (
            CPU {
                r: Registers {
                    f: FlagsRegister::of(r.f.zero, false, false, !r.f.carry),
                    pc: next_pc,
                    ..r
                },
                ..cpu
            },
            bus,
        ),
        Instruction::SCF => (
            CPU {
                r: Registers { f: FlagsRegister::of(r.f.zero, false, false, true), pc: next_pc, ..r },
                ..cpu
            },
            bus,
        ),
        Instruction::CPL => (
            CPU {
                r: Registers {
                    a: (255 - r.a) as u8,
                    f: FlagsRegister::of(r.f.zero, true, true, r.f.carry),
                    pc: next_pc,
                    ..r
                },
                ..cpu
            },
            bus,
        ),
        Instruction::DAA => {
            let (a, f) = daa_result(r.a, r.f);
            (CPU { r: Registers { a, f, pc: next_pc, ..r }, ..cpu }, bus)
        },
        Instruction::DI => (CPU { ime: ImeState::Disabled, ..at_next }, bus),
        Instruction::EI => (CPU { ime: ImeState::Pending, ..at_next }, bus),
        Instruction::HALT => (
            CPU {
                is_halted: true,
                halt_bug: cpu.ime == ImeState::Disabled && irq_pending(bus),
                ..at_next
            },
            bus.tick(),
        ),
        Instruction::NOP => (at_next, bus),
        Instruction::STOP => (at_next, bus),
        Instruction::Illegal(_) => (at_next, bus),
    }
}

/// One step of the CPU: a halted CPU waits a machine cycle unless an interrupt is pending;
/// otherwise a pending and enabled interrupt is dispatched, or else the next instruction is
/// decoded and executed. An EI takes effect after the instruction that follows it.
pub open spec fn step_spec<T: Bus>(cpu: CPU, bus: T) -> (CPU, T) {
    if cpu.is_halted && !irq_pending(bus) {
        (cpu, bus.tick())
    } else {
        let cpu1 = CPU { is_halted: false, ..cpu };
        if cpu1.ime == ImeState::Enabled && irq_pending(bus) {
            interrupt_spec(cpu1, bus)
        } else {
            let (instruction, next_pc, b1) = if cpu1.halt_bug {
                halt_bug_decode_spec(cpu1.r.pc, bus)
            } else {
                decode_spec(cpu1.r.pc, bus)
            };
            let (cpu2, b2) = execute_spec(CPU { halt_bug: false, ..cpu1 }, instruction, next_pc, b1);
            if cpu1.ime == ImeState::Pending && cpu2.ime == ImeState::Pending {
                (CPU { ime: ImeState::Enabled, ..cpu2 }, b2)
            } else {
                (cpu2, b2)
            }
        }
    }
}

/// The target of a relative jump, computed without wrapping arithmetic.
proof fn lemma_relative_target(pc: u16, e: i8)
    ensures
        ((pc as i32 + e as i32 + 0x10000) % 0x10000) as u16 == add16(pc, e as int),
{
    let s = pc as int + e as int;
    assert(-128 <= s < 0x10000 + 128);
    if s < 0 {
        assert((s + 0x10000) % 0x10000 == s + 0x10000);
        assert(s % 0x10000 == s + 0x10000);
    } else if s < 0x10000 {
        assert((s + 0x10000) % 0x10000 == s);
        assert(s % 0x10000 == s);
    } else {
        assert((s + 0x10000) % 0x10000 == s - 0x10000);
        assert(s % 0x10000 == s - 0x10000);
    }
}

impl Default for CPU {
    fn default() -> (r: Self)
        ensures
            r == (CPU {
                r: Registers {
                    a: 0,
                    b: 0,
                    c: 0,
                    d: 0,
                    e: 0,
                    f: FlagsRegister::of(false, false, false, false),
                    h: 0,
                    l: 0,
                    pc: 0,
                    sp: 0,
                },
                ime: ImeState::Disabled,
                is_halted: false,
                halt_bug: false,
            }),
    {
        CPU { r: Registers::default(), ime: ImeState::Disabled, is_halted: false, halt_bug: false }
    }
}

impl CPU {
    /// Makes one CPU step, this consumes one or more bytes depending on the
    /// next instruction and current CPU state (halted, pending interrupts).
    pub fn step<T: Bus>(&mut self, bus: &mut T)
        ensures
            (*final(self), *final(bus)) == step_spec(*old(self), *old(bus)),
    {
        if self.is_halted {
            if !bus.has_irq() {
                bus.cycle();
                return;
            }
            self.is_halted = false;
        }
        if self.ime == ImeState::Enabled && bus.has_irq() {
            interrupt::handle(self, bus);
            return;
        }
        let was_pending = self.ime == ImeState::Pending;
        let (instruction, next_pc) = if self.halt_bug {
            self.halt_bug = false;
            Instruction::from_memory_halt_bug(self.r.pc, bus)
        } else {
            Instruction::from_memory(self.r.pc, bus)
        };
        self.execute(instruction, next_pc, bus);
        if was_pending && self.ime == ImeState::Pending {
            self.ime = ImeState::Enabled;
        }
    }

    /// Executes the given instruction, advances the bus and sets the program counter.
    #[verifier::spinoff_prover]
    #[verifier::rlimit(60)]
    fn execute<T: Bus>(&mut self, instruction: Instruction, next_pc: u16, bus: &mut T)
        requires
            instruction.is_valid(),
        ensures
            (*final(self), *final(bus)) == execute_spec(*old(self), instruction, next_pc, *old(bus)),
    {
        match instruction {
            Instruction::ADD(source) => self.handle_arith(instruction, source, next_pc, bus),
            Instruction::ADC(source) => self.handle_arith(instruction, source, next_pc, bus),
            Instruction::SUB(source) => self.handle_arith(instruction, source, next_pc, bus),
            Instruction::SBC(source) => self.handle_arith(instruction, source, next_pc, bus),
            Instruction::AND(source) => self.handle_arith(instruction, source, next_pc, bus),
            Instruction::XOR(source) => self.handle_arith(instruction, source, next_pc, bus),
            Instruction::OR(source) => self.handle_arith(instruction, source, next_pc, bus),
            Instruction::CP(source) => self.handle_arith(instruction, source, next_pc, bus),
            Instruction::ADDHL(source) => self.handle_add_hl(source, next_pc, bus),
            Instruction::ADDSP(e) => self.handle_add_sp(e, next_pc, bus),
            Instruction::BIT(bit, source) => self.handle_bit(bit, source, next_pc, bus),
            Instruction::RES(bit, target) => self.handle_assign_bit(bit, false, target, next_pc, bus),
            Instruction::SET(bit, target) => self.handle_assign_bit(bit, true, target, next_pc, bus),
            Instruction::INC(target) => self.handle_inc_dec(true, target, next_pc, bus),
            Instruction::DEC(target) => self.handle_inc_dec(false, target, next_pc, bus),
            Instruction::INC2(reg) => self.handle_inc_dec_word(true, reg, next_pc, bus),
            Instruction::DEC2(reg) => self.handle_inc_dec_word(false, reg, next_pc, bus),
            Instruction::CALL(condition, address) => self.handle_call(condition, address, next_pc, bus),
            Instruction::RET(condition) => self.handle_ret(condition, next_pc, bus),
            Instruction::RETI => self.handle_reti(bus),
            Instruction::RST(code) => {
                self.push(next_pc, bus);
                self.r.pc = code.address();
            },
            Instruction::JR(condition, e) => self.handle_jr(condition, e, next_pc, bus),
            Instruction::JP(condition, target) => self.handle_jp(condition, target, next_pc, bus),
            Instruction::LD(load) => self.handle_ld(load, next_pc, bus),
            Instruction::PUSH(reg) => {
                let value = reg.read(self);
                self.push(value, bus);
                self.r.pc = next_pc;
            },
            Instruction::POP(reg) => {
                let value = self.pop(bus);
                reg.write(self, value);
                self.r.pc = next_pc;
            },
            Instruction::RLC(target) => self.handle_shift(Shift::RotateLeftCircular, target, next_pc, bus),
            Instruction::RRC(target) => self.handle_shift(Shift::RotateRightCircular, target, next_pc, bus),
            Instruction::RL(target) => self.handle_shift(Shift::RotateLeft, target, next_pc, bus),
            Instruction::RR(target) => self.handle_shift(Shift::RotateRight, target, next_pc, bus),
            Instruction::SLA(target) => self.handle_shift(Shift::ShiftLeftArithmetic, target, next_pc, bus),
            Instruction::SRA(target) => self.handle_shift(Shift::ShiftRightArithmetic, target, next_pc, bus),
            Instruction::SWAP(target) => self.handle_shift(Shift::Swap, target, next_pc, bus),
            Instruction::SRL(target) => self.handle_shift(Shift::ShiftRightLogical, target, next_pc, bus),
            Instruction::RLCA => self.handle_rotate_a(Shift::RotateLeftCircular, next_pc),
            Instruction::RRCA => self.handle_rotate_a(Shift::RotateRightCircular, next_pc),
            Instruction::RLA => self.handle_rotate_a(Shift::RotateLeft, next_pc),
            Instruction::RRA => self.handle_rotate_a(Shift::RotateRight, next_pc),
            Instruction::CCF => {
                let carry = self.r.f.carry;
                self.r.f.update(self.r.f.zero, false, false, !carry);
                self.r.pc = next_pc;
            },
            Instruction::SCF => {
                self.r.f.update(self.r.f.zero, false, false, true);
                self.r.pc = next_pc;
            },
            Instruction::CPL => {
                self.r.a = 255 - self.r.a;
                self.r.f.update(self.r.f.zero, true, true, self.r.f.carry);
                self.r.pc = next_pc;
            },
            Instruction::DAA => {
                let (a, f) = daa(self.r.a, self.r.f);
                self.r.a = a;
                self.r.f = f;
                self.r.pc = next_pc;
            },
            Instruction::DI => {
                self.ime = ImeState::Disabled;
                self.r.pc = next_pc;
            },
            Instruction::EI => {
                self.ime = ImeState::Pending;
                self.r.pc = next_pc;
            },
            Instruction::HALT => {
                self.is_halted = true;
                self.halt_bug = self.ime == ImeState::Disabled && bus.has_irq();
                bus.cycle();
                self.r.pc = next_pc;
            },
            Instruction::NOP => self.r.pc = next_pc,
            Instruction::STOP => self.r.pc = next_pc,
            Instruction::Illegal(_) => self.r.pc = next_pc,
        }
    }

    /// Reads a byte operand; a memory operand takes one machine cycle.
    fn read_byte_source<T: Bus>(&self, source: ByteSource, bus: &mut T) -> (value: u8)
        ensures
            (*final(bus), value) == read_source(self.r, *old(bus), source),
    {
        if let ByteSource::I(_) = source {
            bus.cycle();
        }
        source.read(self, bus)
    }

    /// Reads a read-write operand; a memory operand takes one machine cycle.
    fn read_byte_target<T: Bus>(&self, target: ByteTarget, bus: &mut T) -> (value: u8)
        ensures
            (*final(bus), value) == read_target(self.r, *old(bus), target),
    {
        if let ByteTarget::I(_) = target {
            bus.cycle();
        }
        target.read(self, bus)
    }

    /// Writes a read-write operand; a memory operand takes one machine cycle.
    fn write_byte_target<T: Bus>(&mut self, target: ByteTarget, value: u8, bus: &mut T)
        ensures
            (final(self).r, *final(bus)) == write_target(old(self).r, *old(bus), target, value),
            final(self).ime == old(self).ime,
            final(self).is_halted == old(self).is_halted,
            final(self).halt_bug == old(self).halt_bug,
    {
        if let ByteTarget::I(_) = target {
            bus.cycle();
        }
        target.write(self, bus, value)
    }

    /// Reads the next byte and increases pc.
    pub fn consume_byte<T: SubSystem>(&mut self, bus: &mut T) -> (value: u8)
        ensures
            final(self).r.pc == add16(old(self).r.pc, 1),
            *final(self) == (CPU { r: Registers { pc: final(self).r.pc, ..old(self).r }, ..*old(self) }),
            value == old(bus).peek(final(self).r.pc),
            *final(bus) == *old(bus),
    {
        self.r.pc = self.r.pc.wrapping_add(1);
        bus.read(self.r.pc)
    }

    /// Reads the next word (low byte first) and increases pc by two.
    pub fn consume_word<T: SubSystem>(&mut self, bus: &mut T) -> (value: u16)
        ensures
            final(self).r.pc == add16(old(self).r.pc, 2),
            *final(self) == (CPU { r: Registers { pc: final(self).r.pc, ..old(self).r }, ..*old(self) }),
            value == word(
                old(bus).peek(add16(old(self).r.pc, 2)),
                old(bus).peek(add16(old(self).r.pc, 1)),
            ),
            *final(bus) == *old(bus),
    {
        let lo = self.consume_byte(bus);
        let hi = self.consume_byte(bus);
        hi as u16 * 256 + lo as u16
    }

    /// Push a u16 value onto the stack.
    pub fn push<T: Bus>(&mut self, value: u16, bus: &mut T)
        ensures
            *final(self) == (CPU { r: push_spec(old(self).r, *old(bus), value).0, ..*old(self) }),
            *final(bus) == push_spec(old(self).r, *old(bus), value).1,
    {
        bus.cycle();
        self.r.sp = self.r.sp.wrapping_sub(1);
        // Write the most significant byte
        bus.cycle_write(self.r.sp, (value / 256) as u8);
        self.r.sp = self.r.sp.wrapping_sub(1);
        // Write the least significant byte
        bus.cycle_write(self.r.sp, (value % 256) as u8);
    }

    /// Pop a u16 value from the stack.
    fn pop<T: Bus>(&mut self, bus: &mut T) -> (value: u16)
        ensures
            *final(self) == (CPU { r: pop_spec(old(self).r, *old(bus)).0, ..*old(self) }),
            *final(bus) == pop_spec(old(self).r, *old(bus)).1,
            value == pop_spec(old(self).r, *old(bus)).2,
    {
        let lsb = bus.cycle_read(self.r.sp);
        self.r.sp = self.r.sp.wrapping_add(1);
        let msb = bus.cycle_read(self.r.sp);
        self.r.sp = self.r.sp.wrapping_add(1);
        msb as u16 * 256 + lsb as u16
    }

    /// Handles ADD, ADC, SUB, SBC, AND, XOR, OR and CP.
    fn handle_arith<T: Bus>(
        &mut self,
        instruction: Instruction,
        source: ByteSource,
        next_pc: u16,
        bus: &mut T,
    )
        requires
            instruction == Instruction::ADD(source) || instruction == Instruction::ADC(source)
                || instruction == Instruction::SUB(source) || instruction == Instruction::SBC(source)
                || instruction == Instruction::AND(source) || instruction == Instruction::XOR(source)
                || instruction == Instruction::OR(source) || instruction == Instruction::CP(source),
        ensures
            (*final(self), *final(bus)) == execute_spec(*old(self), instruction, next_pc, *old(bus)),
    {
        let value = self.read_byte_source(source, bus);
        let a = self.r.a;
        let (result, flags) = match instruction {
            Instruction::ADD(_) => add8(a, value, false),
            Instruction::ADC(_) => add8(a, value, self.r.f.carry),
            Instruction::SUB(_) => sub8(a, value, false),
            Instruction::SBC(_) => sub8(a, value, self.r.f.carry),
            Instruction::AND(_) => {
                let mut f = FlagsRegister::empty();
                f.update(a & value == 0, false, true, false);
                (a & value, f)
            },
            Instruction::XOR(_) => {
                let mut f = FlagsRegister::empty();
                f.update(a ^ value == 0, false, false, false);
                (a ^ value, f)
            },
            Instruction::OR(_) => {
                let mut f = FlagsRegister::empty();
                f.update(a | value == 0, false, false, false);
                (a | value, f)
            },
            _ => (a, sub8(a, value, false).1),
        };
        self.r.a = result;
        self.r.f = flags;
        self.r.pc = next_pc;
    }

    /// Handles ADD HL, nn instructions.
    fn handle_add_hl<T: Bus>(&mut self, source: WordSource, next_pc: u16, bus: &mut T)
        ensures
            (*final(self), *final(bus)) == execute_spec(
                *old(self),
                Instruction::ADDHL(source),
                next_pc,
                *old(bus),
            ),
    {
        let value = source.read(self);
        bus.cycle();
        let (result, flags) = add_hl(self.r.get_hl(), value, self.r.f);
        self.r.set_hl(result);
        self.r.f = flags;
        self.r.pc = next_pc;
    }

    /// Handles ADD SP, i8 instruction.
    fn handle_add_sp<T: Bus>(&mut self, e: i8, next_pc: u16, bus: &mut T)
        ensures
            (*final(self), *final(bus)) == execute_spec(*old(self), Instruction::ADDSP(e), next_pc, *old(bus)),
    {
        bus.cycle();
        bus.cycle();
        let (result, flags) = add_sp(self.r.sp, e);
        self.r.sp = result;
        self.r.f = flags;
        self.r.pc = next_pc;
    }

    /// Handles BIT instructions.
    fn handle_bit<T: Bus>(&mut self, bit: u8, source: ByteSource, next_pc: u16, bus: &mut T)
        requires
            bit < 8,
        ensures
            (*final(self), *final(bus)) == execute_spec(
                *old(self),
                Instruction::BIT(bit, source),
                next_pc,
                *old(bus),
            ),
    {
        let value = self.read_byte_source(source, bus);
        self.r.f = test_bit(value, bit, self.r.f);
        self.r.pc = next_pc;
    }

    /// Handles RES (state false) and SET (state true) instructions.
    fn handle_assign_bit<T: Bus>(
        &mut self,
        bit: u8,
        state: bool,
        target: ByteTarget,
        next_pc: u16,
        bus: &mut T,
    )
        requires
            bit < 8,
        ensures
            (*final(self), *final(bus)) == execute_spec(
                *old(self),
                if state { Instruction::SET(bit, target) } else { Instruction::RES(bit, target) },
                next_pc,
                *old(bus),
            ),
    {
        let value = self.read_byte_target(target, bus);
        let result = assign_bit(value, bit, state);
        self.write_byte_target(target, result, bus);
        self.r.pc = next_pc;
    }

    /// Handles INC (increment true) and DEC instructions for bytes.
    fn handle_inc_dec<T: Bus>(&mut self, increment: bool, target: ByteTarget, next_pc: u16, bus: &mut T)
        ensures
            (*final(self), *final(bus)) == execute_spec(
                *old(self),
                if increment { Instruction::INC(target) } else { Instruction::DEC(target) },
                next_pc,
                *old(bus),
            ),
    {
        let value = self.read_byte_target(target, bus);
        let (result, flags) = if increment { inc(value, self.r.f) } else { dec(value, self.r.f) };
        self.r.f = flags;
        self.write_byte_target(target, result, bus);
        self.r.pc = next_pc;
    }

    /// Handles INC (increment true) and DEC instructions for words.
    fn handle_inc_dec_word<T: Bus>(&mut self, increment: bool, reg: WordRegister, next_pc: u16, bus: &mut T)
        ensures
            (*final(self), *final(bus)) == execute_spec(
                *old(self),
                if increment { Instruction::INC2(reg) } else { Instruction::DEC2(reg) },
                next_pc,
                *old(bus),
            ),
    {
        let value = reg.read(self);
        let result = if increment { value.wrapping_add(1) } else { value.wrapping_sub(1) };
        assert(result == add16(value, if increment { 1 } else { -1 }));
        bus.cycle();
        reg.write(self, result);
        self.r.pc = next_pc;
    }

    /// Handles CALL instructions.
    fn handle_call<T: Bus>(&mut self, condition: JumpCondition, address: u16, next_pc: u16, bus: &mut T)
        ensures
            (*final(self), *final(bus)) == execute_spec(
                *old(self),
                Instruction::CALL(condition, address),
                next_pc,
                *old(bus),
            ),
    {
        if condition.resolve(self) {
            self.push(next_pc, bus);
            self.r.pc = address;
        } else {
            self.r.pc = next_pc;
        }
    }

    /// Handles RET instructions.
    fn handle_ret<T: Bus>(&mut self, condition: JumpCondition, next_pc: u16, bus: &mut T)
        ensures
            (*final(self), *final(bus)) == execute_spec(*old(self), Instruction::RET(condition), next_pc, *old(bus)),
    {
        if condition != JumpCondition::Always {
            bus.cycle();
        }
        if condition.resolve(self) {
            let address = self.pop(bus);
            bus.cycle();
            self.r.pc = address;
        } else {
            self.r.pc = next_pc;
        }
    }

    /// Handles RETI instruction.
    fn handle_reti<T: Bus>(&mut self, bus: &mut T)
        ensures
            forall|next_pc: u16|
                (*final(self), *final(bus)) == #[trigger] execute_spec(*old(self), Instruction::RETI, next_pc, *old(bus)),
    {
        let address = self.pop(bus);
        bus.cycle();
        self.ime = ImeState::Enabled;
        self.r.pc = address;
    }

    /// Handles JR instructions.
    fn handle_jr<T: Bus>(&mut self, condition: JumpCondition, e: i8, next_pc: u16, bus: &mut T)
        ensures
            (*final(self), *final(bus)) == execute_spec(*old(self), Instruction::JR(condition, e), next_pc, *old(bus)),
    {
        if condition.resolve(self) {
            bus.cycle();
            let target = ((next_pc as i32 + e as i32 + 0x10000) % 0x10000) as u16;
            proof {
                lemma_relative_target(next_pc, e);
            }
            self.r.pc = target;
        } else {
            self.r.pc = next_pc;
        }
    }

    /// Handles JP instructions.
    fn handle_jp<T: Bus>(&mut self, condition: JumpCondition, target: JumpTarget, next_pc: u16, bus: &mut T)
        ensures
            (*final(self), *final(bus)) == execute_spec(
                *old(self),
                Instruction::JP(condition, target),
                next_pc,
                *old(bus),
            ),
    {
        if condition.resolve(self) {
            if let JumpTarget::D16(_) = target {
                bus.cycle();
            }
            self.r.pc = target.read(self);
        } else {
            self.r.pc = next_pc;
        }
    }

    /// Handles rotations and shifts of a read-write operand.
    fn handle_shift<T: Bus>(&mut self, op: Shift, target: ByteTarget, next_pc: u16, bus: &mut T)
        ensures
            (*final(self), *final(bus)) == shift_step(*old(self), op, target, next_pc, *old(bus)),
    {
        let value = self.read_byte_target(target, bus);
        let (result, carry) = shift(op, value, self.r.f.carry);
        self.r.f.update(result == 0, false, false, carry);
        self.write_byte_target(target, result, bus);
        self.r.pc = next_pc;
    }

    /// Handles RLCA, RRCA, RLA and RRA.
    fn handle_rotate_a(&mut self, op: Shift, next_pc: u16)
        ensures
            *final(self) == rotate_a_step(*old(self), op, next_pc),
    {
        let (result, carry) = shift(op, self.r.a, self.r.f.carry);
        self.r.a = result;
        self.r.f.update(false, false, false, carry);
        self.r.pc = next_pc;
    }

    /// Handles LD instructions.
    #[verifier::spinoff_prover]
    #[verifier::rlimit(40)]
    fn handle_ld<T: Bus>(&mut self, load: Load, next_pc: u16, bus: &mut T)
        ensures
            (*final(self), *final(bus)) == load_spec(*old(self), load, next_pc, *old(bus)),
    {
        match load {
            Load::Byte(target, source) => {
                let value = self.read_byte_source(source, bus);
                self.write_byte_target(target, value, bus);
            },
            Load::Word(reg, source) => {
                let value = source.read(self);
                if let WordSource::R(_) = source {
                    bus.cycle();
                }
                reg.write(self, value);
            },
            Load::IndirectFrom(indirect, source) => {
                let value = self.read_byte_source(source, bus);
                let address = indirect.resolve(self);
                bus.cycle_write(address, value);
            },
            Load::HLIFromAInc => {
                let address = self.r.get_hl();
                bus.cycle_write(address, self.r.a);
                self.r.set_hl(address.wrapping_add(1));
            },
            Load::HLIFromADec => {
                let address = self.r.get_hl();
                bus.cycle_write(address, self.r.a);
                self.r.set_hl(address.wrapping_sub(1));
            },
            Load::HLIToAInc => {
                let address = self.r.get_hl();
                let value = bus.cycle_read(address);
                self.r.set_hl(address.wrapping_add(1));
                self.r.a = value;
            },
            Load::HLIToADec => {
                let address = self.r.get_hl();
                let value = bus.cycle_read(address);
                self.r.set_hl(address.wrapping_sub(1));
                self.r.a = value;
            },
            Load::IndirectFromSP(indirect) => {
                let address = indirect.resolve(self);
                bus.cycle_write(address, (self.r.sp % 256) as u8);
                bus.cycle_write(address.wrapping_add(1), (self.r.sp / 256) as u8);
            },
            Load::HLFromSPi8(e) => {
                let (value, flags) = add_sp(self.r.sp, e);
                bus.cycle();
                self.r.set_hl(value);
                self.r.f = flags;
            },
        }
        self.r.pc = next_pc;
    }
}

} // verus!
