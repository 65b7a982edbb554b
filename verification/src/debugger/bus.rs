//! The bus as the debugger sees it: reads let no machine cycle pass, and the memory areas
//! that can hold code are listed instruction by instruction.
use crate::bus::{add16, SubSystem};
use crate::constants::{
    CRAM_BANK_BEGIN, CRAM_BANK_END, HRAM_BEGIN, HRAM_END, ROM_HIGH_BANK_END, ROM_LOW_BANK_BEGIN,
    WRAM_BEGIN, WRAM_END,
};
use crate::cpu::instruction::{
    immediate_len, lemma_peek_decode_next, peek_decode_spec, Instruction, OPCODE_PREFIX_16BIT,
};
use crate::debugger::{instruction_len, listing_len, AnnotatedInstr};
use vstd::prelude::*;

verus! {

/// A bus wrapped for the debugger.
#[derive(Clone, Debug)]
pub struct DebugBus<T: SubSystem> {
    pub inner: T,
}

/// An entry of a listing: the address of the opcode, the instruction's bytes and the
/// instruction.
pub open spec fn entry_of(annotated: AnnotatedInstr) -> (u16, Seq<u8>, Instruction) {
    (annotated.address, annotated.bytes@, annotated.instruction)
}

/// The entries of a list of annotated instructions.
pub open spec fn entries(list: Seq<AnnotatedInstr>) -> Seq<(u16, Seq<u8>, Instruction)> {
    list.map_values(|a: AnnotatedInstr| entry_of(a))
}

/// The bytes from `from` up to (not including) `to`.
pub open spec fn bytes_between<T: SubSystem>(bus: T, from: int, to: int) -> Seq<u8> {
    Seq::new((to - from) as nat, |i: int| bus.peek((from + i) as u16))
}

/// A decoded instruction is no longer than the listing assumes: 2 bytes after the prefix,
/// else the opcode and its immediate bytes.
pub proof fn lemma_decoded_len(opcode: u8)
    ensures
        (if opcode == OPCODE_PREFIX_16BIT {
            2
        } else {
            1 + immediate_len(opcode)
        }) <= listing_len(opcode),
{
}

/// The instructions listed from `pc` up to `end`, one after the other, as long as the
/// next one, by the length the listing assumes for its opcode, ends by `end`.
pub open spec fn listing<T: SubSystem>(bus: T, pc: int, end: int) -> Seq<(u16, Seq<u8>, Instruction)>
    decreases end + 1 - pc,
{
    if pc < 0 || pc > end || end >= 0xFFFF {
        Seq::empty()
    } else {
        let opcode = bus.peek(pc as u16);
        if pc + listing_len(opcode) - 1 > end {
            Seq::empty()
        } else {
            let (instruction, next) = peek_decode_spec(pc as u16, bus);
            proof {
                lemma_decoded_len(opcode);
                lemma_peek_decode_next(pc as u16, bus);
            }
            seq![(pc as u16, bytes_between(bus, pc, next as int), instruction)] + listing(
                bus,
                next as int,
                end,
            )
        }
    }
}

impl<T: SubSystem> DebugBus<T> {
    /// Wraps a bus.
    pub fn from(bus: T) -> (r: Self)
        ensures
            r.inner == bus,
    {
        Self { inner: bus }
    }

    /// Prefetch instruction from all sections that could contain code: the cartridge
    /// ROM, the cartridge RAM, the work RAM and the high RAM.
    pub fn fetch_instructions(&mut self) -> (r: Vec<AnnotatedInstr>)
        ensures
            *final(self) == *old(self),
            entries(r@) == listing(old(self).inner, ROM_LOW_BANK_BEGIN as int, ROM_HIGH_BANK_END as int)
                + listing(old(self).inner, CRAM_BANK_BEGIN as int, CRAM_BANK_END as int) + listing(
                old(self).inner,
                WRAM_BEGIN as int,
                WRAM_END as int,
            ) + listing(old(self).inner, HRAM_BEGIN as int, HRAM_END as int),
    {
        let mut instructions = self.instructions_from_range(ROM_LOW_BANK_BEGIN, ROM_HIGH_BANK_END);
        let ghost first = instructions@;
        let mut more = self.instructions_from_range(CRAM_BANK_BEGIN, CRAM_BANK_END);
        let ghost second = more@;
        instructions.append(&mut more);
        let ghost two = instructions@;
        let mut more = self.instructions_from_range(WRAM_BEGIN, WRAM_END);
        let ghost third = more@;
        instructions.append(&mut more);
        let ghost three = instructions@;
        let mut more = self.instructions_from_range(HRAM_BEGIN, HRAM_END);
        let ghost fourth = more@;
        instructions.append(&mut more);
        proof {
            assert(entries(first + second) =~= entries(first) + entries(second));
            assert(entries(two + third) =~= entries(two) + entries(third));
            assert(entries(three + fourth) =~= entries(three) + entries(fourth));
        }
        instructions
    }

    /// Fetches all instructions from the specified range (inclusive).
    #[verifier::spinoff_prover]
    pub fn instructions_from_range(&mut self, start: u16, end: u16) -> (r: Vec<AnnotatedInstr>)
        requires
            end < 0xFFFF,
        ensures
            *final(self) == *old(self),
            entries(r@) == listing(old(self).inner, start as int, end as int),
    {
        let ghost bus = self.inner;
        let mut instructions: Vec<AnnotatedInstr> = Vec::new();
        let mut pc = start;
        while pc <= end
            invariant
                self.inner == bus,
                end < 0xFFFF,
                pc == start || pc <= end + 1,
                listing(bus, start as int, end as int) == entries(instructions@) + listing(
                    bus,
                    pc as int,
                    end as int,
                ),
            ensures
                self.inner == bus,
                listing(bus, start as int, end as int) == entries(instructions@),
            decreases end + 1 - pc,
        {
            let opcode = self.inner.read(pc);
            // Check if resolving the current opcode would lead to an out-of-bounds read
            if pc as u32 + instruction_len(opcode) as u32 - 1 > end as u32 {
                assert(listing(bus, pc as int, end as int) =~= Seq::empty());
                assert(entries(instructions@) + Seq::empty() =~= entries(instructions@));
                break;
            }
            let (instruction, next_pc) = Instruction::peek_decode(pc, &mut self.inner);
            proof {
                lemma_decoded_len(opcode);
                lemma_peek_decode_next(pc, bus);
            }
            let mut bytes: Vec<u8> = Vec::new();
            let mut address = pc;
            while address < next_pc
                invariant
                    self.inner == bus,
                    pc <= address <= next_pc,
                    bytes@ == bytes_between(bus, pc as int, address as int),
                decreases next_pc - address,
            {
                let b = self.inner.read(address);
                assert(bytes_between(bus, pc as int, address + 1) =~= bytes_between(
                    bus,
                    pc as int,
                    address as int,
                ).push(b));
                bytes.push(b);
                address = address + 1;
            }
            let ghost before = instructions@;
            instructions.push(AnnotatedInstr::new(pc, bytes, instruction));
            proof {
                assert(entries(instructions@) =~= entries(before).push(
                    (pc, bytes_between(bus, pc as int, next_pc as int), instruction),
                ));
                assert(listing(bus, pc as int, end as int) == seq![
                    (pc, bytes_between(bus, pc as int, next_pc as int), instruction),
                ] + listing(bus, next_pc as int, end as int));
                assert(entries(before) + listing(bus, pc as int, end as int) =~= entries(
                    instructions@,
                ) + listing(bus, next_pc as int, end as int));
            }
            pc = next_pc;
        }
        proof {
            if pc > end {
                assert(entries(instructions@) + Seq::<(u16, Seq<u8>, Instruction)>::empty()
                    =~= entries(instructions@));
            }
        }
        instructions
    }
}

impl<T: SubSystem> SubSystem for DebugBus<T> {
    open spec fn peek(&self, address: u16) -> u8 {
        self.inner.peek(address)
    }

    open spec fn poke(&self, address: u16, value: u8) -> Self {
        DebugBus { inner: self.inner.poke(address, value) }
    }

    fn write(&mut self, address: u16, value: u8) {
        self.inner.write(address, value);
    }

    fn read(&mut self, address: u16) -> (value: u8) {
        self.inner.read(address)
    }
}

} // verus!
