//! What the loads of the accumulator through memory do, opcode by opcode.
use crate::bus::{cwrite, Bus};
use crate::cpu::instruction::not_prefixed_spec;
use crate::cpu::registers::Registers;
use crate::cpu::{execute_spec, CPU};
use vstd::prelude::*;

verus! {

/// The CPU after a load into A of `value`, with PC at `next_pc`.
pub open spec fn with_a_loaded(cpu: CPU, value: u8, next_pc: u16) -> CPU {
    CPU { r: Registers { a: value, pc: next_pc, ..cpu.r }, ..cpu }
}

/// The CPU with only PC moved on to `next_pc`.
pub open spec fn with_pc(cpu: CPU, next_pc: u16) -> CPU {
    CPU { r: Registers { pc: next_pc, ..cpu.r }, ..cpu }
}

/// The loads of A through memory, opcode by opcode, in both directions: 0x02, 0x12, 0xE0,
/// 0xE2 and 0xEA store A at (BC), (DE), 0xFF00 + n, 0xFF00 + C and the address nn, with
/// one machine cycle for the write and no register but PC changed; 0x0A, 0x1A, 0xF0,
/// 0xF2 and 0xFA load A from those same addresses, with one machine cycle for the read.
/// Each store and its load (0x08 or 0x10 above it) move the byte in opposite directions.
pub proof fn lemma_accumulator_memory_loads<T: Bus>(cpu: CPU, bus: T, lo: u8, hi: u8, next_pc: u16)
    ensures
        ({
            let r = cpu.r;
            let n16 = (hi as int * 256 + lo as int) as u16;
            let high_n = (0xFF00 + lo as int) as u16;
            let high_c = (0xFF00 + r.c as int) as u16;
            &&& execute_spec(cpu, not_prefixed_spec(0x02, lo, hi), next_pc, bus) == (with_pc(cpu, next_pc), cwrite(bus, r.bc(), r.a))
            &&& execute_spec(cpu, not_prefixed_spec(0x12, lo, hi), next_pc, bus) == (with_pc(cpu, next_pc), cwrite(bus, r.de(), r.a))
            &&& execute_spec(cpu, not_prefixed_spec(0xE0, lo, hi), next_pc, bus) == (with_pc(cpu, next_pc), cwrite(bus, high_n, r.a))
            &&& execute_spec(cpu, not_prefixed_spec(0xE2, lo, hi), next_pc, bus) == (with_pc(cpu, next_pc), cwrite(bus, high_c, r.a))
            &&& execute_spec(cpu, not_prefixed_spec(0xEA, lo, hi), next_pc, bus) == (with_pc(cpu, next_pc), cwrite(bus, n16, r.a))
            &&& execute_spec(cpu, not_prefixed_spec(0x0A, lo, hi), next_pc, bus) == (with_a_loaded(cpu, bus.tick().peek(r.bc()), next_pc), bus.tick())
            &&& execute_spec(cpu, not_prefixed_spec(0x1A, lo, hi), next_pc, bus) == (with_a_loaded(cpu, bus.tick().peek(r.de()), next_pc), bus.tick())
            &&& execute_spec(cpu, not_prefixed_spec(0xF0, lo, hi), next_pc, bus) == (with_a_loaded(cpu, bus.tick().peek(high_n), next_pc), bus.tick())
            &&& execute_spec(cpu, not_prefixed_spec(0xF2, lo, hi), next_pc, bus) == (with_a_loaded(cpu, bus.tick().peek(high_c), next_pc), bus.tick())
            &&& execute_spec(cpu, not_prefixed_spec(0xFA, lo, hi), next_pc, bus) == (with_a_loaded(cpu, bus.tick().peek(n16), next_pc), bus.tick())
        }),
{
}

/// Register `index` of the SM83 operand order B, C, D, E, H, L, -, A (index 6 is the
/// memory operand (HL), which has no register).
pub open spec fn register_at(r: Registers, index: int) -> u8 {
    if index == 0 {
        r.b
    } else if index == 1 {
        r.c
    } else if index == 2 {
        r.d
    } else if index == 3 {
        r.e
    } else if index == 4 {
        r.h
    } else if index == 5 {
        r.l
    } else {
        r.a
    }
}

/// The registers with register `index` of the SM83 operand order set to `value`.
pub open spec fn with_register_at(r: Registers, index: int, value: u8) -> Registers {
    if index == 0 {
        Registers { b: value, ..r }
    } else if index == 1 {
        Registers { c: value, ..r }
    } else if index == 2 {
        Registers { d: value, ..r }
    } else if index == 3 {
        Registers { e: value, ..r }
    } else if index == 4 {
        Registers { h: value, ..r }
    } else if index == 5 {
        Registers { l: value, ..r }
    } else {
        Registers { a: value, ..r }
    }
}

/// The register-to-register loads 0x40-0x7F: opcode 0x40 + 8 * d + s with neither operand
/// the memory operand copies register s into register d (in the order B, C, D, E, H, L,
/// (HL), A), takes no machine cycle beyond its fetch and changes nothing else but PC.
pub proof fn lemma_register_loads<T: Bus>(cpu: CPU, bus: T, d: u8, s: u8, lo: u8, hi: u8, next_pc: u16)
    requires
        d < 8,
        s < 8,
        d != 6,
        s != 6,
    ensures
        execute_spec(cpu, not_prefixed_spec((0x40 + 8 * d + s) as u8, lo, hi), next_pc, bus) == (
            with_pc(
                CPU { r: with_register_at(cpu.r, d as int, register_at(cpu.r, s as int)), ..cpu },
                next_pc,
            ),
            bus,
        ),
{
    let op = (0x40 + 8 * d + s) as u8;
    assert(op / 64 == 1);
    assert((op / 8) % 8 == d);
    assert(op % 8 == s);
}

} // verus!
