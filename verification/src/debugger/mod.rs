//! The parts of the debugger that do not talk to the terminal: instruction lengths,
//! annotated instructions, the breakpoint set and its input dialog.
pub mod bus;
pub mod event;
pub mod format;

use crate::bus::Bus;
use crate::constants::BOOT_END;
use crate::cpu::instruction::{immediate_len, Instruction};
use crate::cpu::{step_spec, CPU};
use crate::text::{hex_digit_text, hex_digits, hex_text, pop_char, push_char};
use std::collections::{BTreeSet, HashSet};
use vstd::prelude::*;

verus! {

/// Whether the opcode (without prefix) is one of the eleven that the CPU does not define.
pub open spec fn is_illegal_opcode(opcode: u8) -> bool {
    opcode == 0xD3 || opcode == 0xDB || opcode == 0xDD || opcode == 0xE3 || opcode == 0xE4
        || opcode == 0xEB || opcode == 0xEC || opcode == 0xED || opcode == 0xF4 || opcode == 0xFC
        || opcode == 0xFD
}

/// Resolves the instruction byte length for the given opcode: 2 for a prefixed opcode and
/// for STOP (which is followed by a padding byte), otherwise the opcode and its immediate
/// bytes. The undefined opcodes have no length.
pub fn resolve_byte_length(opcode: u8, prefixed: bool) -> (r: u8)
    requires
        prefixed || !is_illegal_opcode(opcode),
    ensures
        r == if prefixed || opcode == 0x10 {
            2
        } else {
            1 + immediate_len(opcode)
        },
{
    // All prefixed opcodes have a length of 2 bytes
    if prefixed || opcode == 0x10 {
        return 2;
    }
    1 + Instruction::immediate_len(opcode)
}

/// The byte length that the listing assumes for an opcode, to stop before an instruction
/// that would reach past the end of a memory range: 2 for a prefixed opcode, for STOP and
/// for those with an 8-bit operand, 3 for those with a 16-bit operand, else 1.
pub open spec fn listing_len(opcode: u8) -> u8 {
    if opcode == 0xCB || opcode == 0x06 || opcode == 0x0E || opcode == 0x10 || opcode == 0x16
        || opcode == 0x18 || opcode == 0x1E || opcode == 0x20 || opcode == 0x26 || opcode == 0x28
        || opcode == 0x2E || opcode == 0x30 || opcode == 0x36 || opcode == 0x38 || opcode == 0x3E
        || opcode == 0xC6 || opcode == 0xCE || opcode == 0xD6 || opcode == 0xDE || opcode == 0xE0
        || opcode == 0xE6 || opcode == 0xE8 || opcode == 0xEE || opcode == 0xF0 || opcode == 0xF6
        || opcode == 0xF8 || opcode == 0xFE {
        2
    } else if opcode == 0x01 || opcode == 0x08 || opcode == 0x11 || opcode == 0x21 || opcode
        == 0x31 || opcode == 0xC2 || opcode == 0xC3 || opcode == 0xC4 || opcode == 0xCA || opcode
        == 0xCC || opcode == 0xCD || opcode == 0xD2 || opcode == 0xD4 || opcode == 0xDA || opcode
        == 0xDC || opcode == 0xEA || opcode == 0xFA {
        3
    } else {
        1
    }
}

/// Returns the byte length of the instruction based on the opcode.
pub fn instruction_len(opcode: u8) -> (r: u8)
    ensures
        r == listing_len(opcode),
{
    match opcode {
        // Prefixed opcodes always have a length of 2
        0xCB => 2,
        0x06 | 0x0E => 2,
        0x10 | 0x16 | 0x18 | 0x1E => 2,
        0x20 | 0x26 | 0x28 | 0x2E => 2,
        0x30 | 0x36 | 0x38 | 0x3E => 2,
        0xC6 | 0xCE => 2,
        0xD6 | 0xDE => 2,
        0xE0 | 0xE6 | 0xE8 | 0xEE => 2,
        0xF0 | 0xF6 | 0xF8 | 0xFE => 2,
        0x01 | 0x08 => 3,
        0x11 | 0x21 | 0x31 => 3,
        0xC2 | 0xC3 | 0xC4 | 0xCA | 0xCC | 0xCD => 3,
        0xD2 | 0xD4 | 0xDA | 0xDC => 3,
        0xEA | 0xFA => 3,
        _ => 1,
    }
}

/// The lengths that the listing assumes agree with the lengths of the decoded
/// instructions, for every opcode the CPU defines (0xCB only introduces a prefixed one).
pub proof fn lemma_listing_len_matches(opcode: u8, prefixed: bool)
    requires
        prefixed || (!is_illegal_opcode(opcode) && opcode != 0xCB),
    ensures
        (if prefixed {
            listing_len(0xCB)
        } else {
            listing_len(opcode)
        }) == (if prefixed || opcode == 0x10 {
            2
        } else {
            1 + immediate_len(opcode)
        }),
{
}

/// An instruction of the listing, with its address and its raw bytes.
#[derive(Clone, Debug)]
pub struct AnnotatedInstr {
    pub address: u16,  // address of the opcode
    pub bytes: Vec<u8>,  // all raw bytes of the instruction
    pub instruction: Instruction,
}

impl AnnotatedInstr {
    /// The annotated instruction.
    pub fn new(address: u16, bytes: Vec<u8>, instruction: Instruction) -> (r: Self)
        ensures
            r.address == address,
            r.bytes@ == bytes@,
            r.instruction == instruction,
    {
        Self { address, bytes, instruction }
    }
}


/// A request of the frontend to the debugger.
#[derive(Debug)]
pub enum FrontendDebugMessage {
    Step,
    Continue,
    Pause,
    SkipBootRom,
    Breakpoints(HashSet<u16>),
}

/// A copy of the addresses in `set`: std's `HashSet::clone`, whose copy holds the same
/// addresses. vstd gives the method no specification, so this contract is trusted.
#[verifier::external_body]
fn clone_addresses(set: &HashSet<u16>) -> (r: HashSet<u16>)
    ensures
        r@ == set@,
{
    set.clone()
}

/// The debugger: the last request of the frontend and the breakpoints. It decides when
/// the CPU steps and when the frontend is owed a snapshot of the machine; the caller
/// sends that snapshot.
#[derive(Debug)]
pub struct Debugger {
    pub message: Option<FrontendDebugMessage>,
    pub breakpoints: HashSet<u16>,
}

impl Debugger {
    /// The addresses where a `Continue` stops.
    pub open spec fn marked(self) -> Set<u16> {
        self.breakpoints@
    }

    /// A debugger with no pending request and no breakpoints.
    pub fn new() -> (r: Self)
        ensures
            r.message is None,
            r.marked() == Set::<u16>::empty(),
    {
        Self { message: None, breakpoints: HashSet::new() }
    }

    /// Takes a request of the frontend; it replaces any earlier one.
    pub fn handle_message(&mut self, message: FrontendDebugMessage)
        ensures
            final(self).message == Some(message),
            final(self).marked() == old(self).marked(),
    {
        self.message = Some(message);
    }

    /// How one call of `maybe_step` changes the debugger (`before` to `after`), the CPU
    /// and the bus, and whether it owes the frontend a snapshot (`report`).
    pub open spec fn stepped<T: Bus>(
        before: Debugger,
        after: Debugger,
        cpu: CPU,
        cpu_after: CPU,
        bus: T,
        bus_after: T,
        boot_rom_active: bool,
        report: bool,
    ) -> bool {
        &&& after.marked() == (match before.message {
            Some(FrontendDebugMessage::Breakpoints(b)) => b@,
            _ => before.marked(),
        })
        &&& match before.message {
            Some(FrontendDebugMessage::Step) => (cpu_after, bus_after) == step_spec(cpu, bus) && report
                && after.message is None,
            Some(FrontendDebugMessage::Continue) => (cpu_after, bus_after) == step_spec(cpu, bus)
                && report == after.marked().contains(cpu_after.r.pc) && (if report {
                after.message is None
            } else {
                after.message == before.message
            }),
            Some(FrontendDebugMessage::Pause) => cpu_after == cpu && bus_after == bus && report
                && after.message is None,
            Some(FrontendDebugMessage::SkipBootRom) => (cpu_after, bus_after) == step_spec(cpu, bus)
                && report == (boot_rom_active && cpu.r.pc == BOOT_END - 1) && (if report {
                after.message is None
            } else {
                after.message == before.message
            }),
            Some(FrontendDebugMessage::Breakpoints(_)) => cpu_after == cpu && bus_after == bus
                && !report && after.message == before.message,
            None => cpu_after == cpu && bus_after == bus && !report && after.message is None,
        }
    }

    /// Acts on the pending request, stepping the CPU at most once, and says whether the
    /// frontend is owed a snapshot. A single step or a pause is answered at once; a
    /// `Continue` steps until the CPU reaches a breakpoint, a `SkipBootRom` until it
    /// executes the last instruction of the boot ROM (at `BOOT_END - 1`); each of them
    /// is done once answered. New breakpoints replace the old ones.
    pub fn maybe_step<T: Bus>(&mut self, cpu: &mut CPU, bus: &mut T, boot_rom_active: bool) -> (report: bool)
        ensures
            Self::stepped(*old(self), *final(self), *old(cpu), *final(cpu), *old(bus), *final(bus), boot_rom_active, report),
    {
        let new_breakpoints: Option<HashSet<u16>> = match &self.message {
            Some(FrontendDebugMessage::Breakpoints(breakpoints)) => Some(clone_addresses(breakpoints)),
            _ => None,
        };
        if let Some(breakpoints) = new_breakpoints {
            // The frontend sent a new set of breakpoints.
            self.breakpoints = breakpoints;
            return false;
        }
        let report = match &self.message {
            // The frontend requested a single step.
            Some(FrontendDebugMessage::Step) => {
                cpu.step(bus);
                true
            },
            // The frontend requested normal execution: the CPU steps until a breakpoint
            // is hit.
            Some(FrontendDebugMessage::Continue) => {
                cpu.step(bus);
                broadcast use vstd::std_specs::hash::group_hash_axioms;

                self.breakpoints.contains(&cpu.r.pc)
            },
            // The frontend requested a pause: the CPU stops executing.
            Some(FrontendDebugMessage::Pause) => true,
            // The frontend requested to skip the boot ROM: the CPU steps until the end
            // of the boot ROM.
            Some(FrontendDebugMessage::SkipBootRom) => {
                let last = boot_rom_active && cpu.r.pc == BOOT_END - 1;
                cpu.step(bus);
                last
            },
            _ => false,
        };
        if report {
            self.message = None;
        }
        report
    }
}

/// Why a typed address was not accepted.
#[derive(Copy, Clone, PartialEq, Eq, Structural, Debug)]
pub enum AddressError {
    /// Nothing was left to read.
    Empty,
    /// A char is not a hexadecimal digit (or a sign stands alone).
    InvalidDigit,
    /// The number does not fit in 16 bits.
    Overflow,
}

/// The value of a hexadecimal digit of either case, `None` for any other char.
pub open spec fn hex_digit_value(c: char) -> Option<nat> {
    if '0' <= c <= '9' {
        Some((c as int - '0' as int) as nat)
    } else if 'a' <= c <= 'f' {
        Some((c as int - 'a' as int + 10) as nat)
    } else if 'A' <= c <= 'F' {
        Some((c as int - 'A' as int + 10) as nat)
    } else {
        None
    }
}

/// Reads `digits` as a hexadecimal number, digit by digit from the left: the first char
/// that is no digit, or the first digit that takes the number past 0xFFFF, ends it with
/// that error.
pub open spec fn read_hex(digits: Seq<char>) -> Result<nat, AddressError>
    decreases digits.len(),
{
    if digits.len() == 0 {
        Ok(0)
    } else {
        match read_hex(digits.drop_last()) {
            Err(e) => Err(e),
            Ok(v) => match hex_digit_value(digits.last()) {
                None => Err(AddressError::InvalidDigit),
                Some(x) => if v * 16 + x > 0xFFFF {
                    Err(AddressError::Overflow)
                } else {
                    Ok(v * 16 + x)
                },
            },
        }
    }
}

/// `text` without all of its leading `0x`.
pub open spec fn strip_hex_prefix(text: Seq<char>) -> Seq<char>
    decreases text.len(),
{
    if text.len() >= 2 && text[0] == '0' && text[1] == 'x' {
        strip_hex_prefix(text.subrange(2, text.len() as int))
    } else {
        text
    }
}

/// A 16-bit number in hexadecimal, after an optional `+`, as std's `u16::from_str_radix`
/// with radix 16 reads it.
pub open spec fn hex_u16_of(text: Seq<char>) -> Result<u16, AddressError> {
    if text.len() == 0 {
        Err(AddressError::Empty)
    } else if text.len() == 1 && (text[0] == '+' || text[0] == '-') {
        Err(AddressError::InvalidDigit)
    } else {
        let digits = if text[0] == '+' {
            text.drop_first()
        } else {
            text
        };
        match read_hex(digits) {
            Ok(v) => Ok(v as u16),
            Err(e) => Err(e),
        }
    }
}

/// The address that the breakpoint dialog reads from `text`: hexadecimal digits after
/// any number of leading `0x`.
pub open spec fn address_of_text(text: Seq<char>) -> Result<u16, AddressError> {
    hex_u16_of(strip_hex_prefix(text))
}

/// Once reading a prefix of the digits has failed, reading all of them fails the same way.
proof fn lemma_read_hex_error_stays(digits: Seq<char>, k: int)
    requires
        0 <= k <= digits.len(),
        read_hex(digits.take(k)) is Err,
    ensures
        read_hex(digits) == read_hex(digits.take(k)),
    decreases digits.len(),
{
    if k == digits.len() {
        assert(digits.take(k) =~= digits);
    } else {
        assert(digits.drop_last().take(k) =~= digits.take(k));
        lemma_read_hex_error_stays(digits.drop_last(), k);
    }
}

/// The value of the hexadecimal digit `c`, if it is one.
fn hex_digit_of(c: char) -> (r: Option<u32>)
    ensures
        match hex_digit_value(c) {
            Some(x) => r == Some(x as u32),
            None => r is None,
        },
{
    if '0' <= c && c <= '9' {
        Some(c as u32 - '0' as u32)
    } else if 'a' <= c && c <= 'f' {
        Some(c as u32 - 'a' as u32 + 10)
    } else if 'A' <= c && c <= 'F' {
        Some(c as u32 - 'A' as u32 + 10)
    } else {
        None
    }
}

/// Reads `text` as a breakpoint address: any number of leading `0x` are dropped, and the
/// rest is read as a hexadecimal 16-bit number.
pub fn parse_address(text: &str) -> (r: Result<u16, AddressError>)
    ensures
        r == address_of_text(text@),
{
    let n = text.unicode_len();
    let mut start: usize = 0;
    assert(text@.subrange(0, n as int) =~= text@);
    loop
        invariant
            n == text@.len(),
            start <= n,
            strip_hex_prefix(text@.subrange(start as int, n as int)) == strip_hex_prefix(text@),
        ensures
            start <= n,
            strip_hex_prefix(text@) == text@.subrange(start as int, n as int),
        decreases n - start,
    {
        let ghost rest = text@.subrange(start as int, n as int);
        if n - start >= 2 && text.get_char(start) == '0' && text.get_char(start + 1) == 'x' {
            assert(rest.subrange(2, rest.len() as int) =~= text@.subrange(start + 2, n as int));
            start = start + 2;
        } else {
            break;
        }
    }
    let ghost stripped = text@.subrange(start as int, n as int);
    if start == n {
        return Err(AddressError::Empty);
    }
    let first_char = text.get_char(start);
    if start + 1 == n && (first_char == '+' || first_char == '-') {
        return Err(AddressError::InvalidDigit);
    }
    let first: usize = if first_char == '+' {
        start + 1
    } else {
        start
    };
    let ghost digits = text@.subrange(first as int, n as int);
    assert(digits =~= (if stripped[0] == '+' {
        stripped.drop_first()
    } else {
        stripped
    }));
    let mut i: usize = first;
    let mut value: u32 = 0;
    assert(digits.take(0) =~= Seq::<char>::empty());
    assert(address_of_text(text@) == match read_hex(digits) {
        Ok(v) => Ok(v as u16),
        Err(e) => Err(e),
    });
    while i < n
        invariant
            address_of_text(text@) == match read_hex(digits) {
                Ok(v) => Ok(v as u16),
                Err(e) => Err(e),
            },
            n == text@.len(),
            first <= i <= n,
            digits == text@.subrange(first as int, n as int),
            read_hex(digits.take(i - first)) == Ok::<nat, AddressError>(value as nat),
            value <= 0xFFFF,
        decreases n - i,
    {
        let c = text.get_char(i);
        assert(digits.take(i - first + 1).drop_last() =~= digits.take(i - first));
        assert(digits.take(i - first + 1).last() == c);
        match hex_digit_of(c) {
            None => {
                proof {
                    assert(read_hex(digits.take(i - first + 1)) == Err::<nat, AddressError>(
                        AddressError::InvalidDigit,
                    ));
                    lemma_read_hex_error_stays(digits, i - first + 1);
                }
                return Err(AddressError::InvalidDigit);
            },
            Some(x) => {
                let next = value * 16 + x;
                if next > 0xFFFF {
                    proof {
                        assert(read_hex(digits.take(i - first + 1)) == Err::<nat, AddressError>(
                            AddressError::Overflow,
                        ));
                        lemma_read_hex_error_stays(digits, i - first + 1);
                    }
                    return Err(AddressError::Overflow);
                }
                value = next;
            },
        }
        i = i + 1;
    }
    assert(digits.take(n - first) =~= digits);
    Ok(value as u16)
}

/// Each hexadecimal digit that the listings print reads back as its value, and is none of
/// `x`, `+` or `-`.
proof fn lemma_hex_digit_reads_back(d: int)
    requires
        0 <= d < 16,
    ensures
        hex_digit_text(d).len() == 1,
        hex_digit_value(hex_digit_text(d)[0]) == Some(d as nat),
        hex_digit_text(d)[0] != 'x' && hex_digit_text(d)[0] != '+' && hex_digit_text(d)[0] != '-',
{
    reveal_strlit("0");
    reveal_strlit("1");
    reveal_strlit("2");
    reveal_strlit("3");
    reveal_strlit("4");
    reveal_strlit("5");
    reveal_strlit("6");
    reveal_strlit("7");
    reveal_strlit("8");
    reveal_strlit("9");
    reveal_strlit("a");
    reveal_strlit("b");
    reveal_strlit("c");
    reveal_strlit("d");
    reveal_strlit("e");
    reveal_strlit("f");
}

/// Typing an address into the breakpoint dialog as the listings spell it (`0x` and four
/// hexadecimal digits) reads back that very address.
pub proof fn lemma_listed_address_reads_back(address: u16)
    ensures
        address_of_text(hex_text(address as nat, 4)) == Ok::<u16, AddressError>(address),
{
    let a = address as nat;
    let d0 = (a % 16) as int;
    let d1 = ((a / 16) % 16) as int;
    let d2 = ((a / 16 / 16) % 16) as int;
    let d3 = ((a / 16 / 16 / 16) % 16) as int;
    lemma_hex_digit_reads_back(d0);
    lemma_hex_digit_reads_back(d1);
    lemma_hex_digit_reads_back(d2);
    lemma_hex_digit_reads_back(d3);
    let c0 = hex_digit_text(d0)[0];
    let c1 = hex_digit_text(d1)[0];
    let c2 = hex_digit_text(d2)[0];
    let c3 = hex_digit_text(d3)[0];
    reveal_with_fuel(hex_digits, 5);
    assert(hex_digits(a / 16 / 16 / 16 / 16, 0) =~= Seq::<char>::empty());
    let h = hex_digits(a, 4);
    assert(h =~= seq![c3, c2, c1, c0]);
    reveal_strlit("0x");
    let t = hex_text(a, 4);
    assert(t.subrange(2, t.len() as int) =~= h);
    assert(strip_hex_prefix(h) == h);
    assert(strip_hex_prefix(t) == h);
    assert(seq![c3, c2, c1, c0].drop_last() =~= seq![c3, c2, c1]);
    assert(seq![c3, c2, c1].drop_last() =~= seq![c3, c2]);
    assert(seq![c3, c2].drop_last() =~= seq![c3]);
    assert(seq![c3].drop_last() =~= Seq::<char>::empty());
    assert(read_hex(Seq::<char>::empty()) == Ok::<nat, AddressError>(0));
    assert(read_hex(seq![c3]) == Ok::<nat, AddressError>(d3 as nat));
    assert(read_hex(seq![c3, c2]) == Ok::<nat, AddressError>((d3 * 16 + d2) as nat));
    assert(read_hex(seq![c3, c2, c1]) == Ok::<nat, AddressError>(((d3 * 16 + d2) * 16 + d1) as nat));
    assert((((address / 16 / 16 / 16) % 16 * 16 + (address / 16 / 16) % 16) * 16 + (address / 16)
        % 16) * 16 + address % 16 == address) by (bit_vector);
    assert(read_hex(h) == Ok::<nat, AddressError>(a));
}

/// A key pressed while the breakpoint dialog is open.
#[derive(Copy, Clone, PartialEq, Eq, Structural, Debug)]
pub enum DialogKey {
    /// A typed char; `'\n'` confirms the input.
    Char(char),
    Backspace,
    /// Any other key, which the dialog ignores.
    Other,
}

/// The breakpoints of the debugger and the state of its input dialog.
#[derive(Clone, Debug)]
pub struct BreakpointHandler {
    pub breakpoints: BTreeSet<u16>,
    pub active: bool,
    pub input: String,
}

impl BreakpointHandler {
    /// The addresses marked as breakpoints.
    pub open spec fn marked(self) -> Set<u16> {
        self.breakpoints@
    }

    /// No breakpoints, the dialog closed and its input empty.
    pub fn new() -> (r: Self)
        ensures
            r.marked() == Set::<u16>::empty(),
            !r.active,
            r.input@ == Seq::<char>::empty(),
    {
        Self { breakpoints: BTreeSet::new(), active: false, input: String::new() }
    }

    /// Checks if a given address is marked as breakpoint.
    pub fn contains(&self, address: u16) -> (r: bool)
        ensures
            r == self.marked().contains(address),
    {
        broadcast use vstd::laws_cmp::group_laws_cmp;
        broadcast use vstd::std_specs::btree::group_btree_axioms;

        self.breakpoints.contains(&address)
    }

    /// Marks `address` as breakpoint; marking it again changes nothing.
    pub fn insert(&mut self, address: u16)
        ensures
            final(self).marked() == old(self).marked().insert(address),
            final(self).active == old(self).active,
            final(self).input@ == old(self).input@,
    {
        broadcast use vstd::laws_cmp::group_laws_cmp;
        broadcast use vstd::std_specs::btree::group_btree_axioms;

        self.breakpoints.insert(address);
    }

    /// Takes the typed text, leaving the input empty, and reads it as an address.
    pub fn parse_input(&mut self) -> (r: Result<u16, AddressError>)
        ensures
            r == address_of_text(old(self).input@),
            final(self).input@ == Seq::<char>::empty(),
            final(self).marked() == old(self).marked(),
            final(self).active == old(self).active,
    {
        let text = self.input.clone();
        self.input = String::new();
        parse_address(text.as_str())
    }

    /// Handles a key of the "Add Breakpoint" dialog: Enter reads the typed address (the
    /// input is emptied either way) and, when it is valid, marks it and closes the
    /// dialog; another char is appended to the input, Backspace removes the last one.
    pub fn handle_dialog_input(&mut self, key: DialogKey)
        requires
            old(self).active,
        ensures
            match key {
                DialogKey::Char(c) => if c == '\n' {
                    &&& final(self).input@ == Seq::<char>::empty()
                    &&& match address_of_text(old(self).input@) {
                        Ok(address) => final(self).marked() == old(self).marked().insert(address)
                            && !final(self).active,
                        Err(_) => final(self).marked() == old(self).marked()
                            && final(self).active,
                    }
                } else {
                    final(self).input@ == old(self).input@.push(c) && final(self).marked()
                        == old(self).marked() && final(self).active
                },
                DialogKey::Backspace => final(self).input@ == (if old(self).input@.len() == 0 {
                    old(self).input@
                } else {
                    old(self).input@.drop_last()
                }) && final(self).marked() == old(self).marked() && final(self).active,
                DialogKey::Other => final(self).input@ == old(self).input@
                    && final(self).marked() == old(self).marked() && final(self).active,
            },
    {
        match key {
            DialogKey::Char(c) => {
                if c == '\n' {
                    if let Ok(address) = self.parse_input() {
                        self.insert(address);
                        self.active = false;
                    }
                } else {
                    push_char(&mut self.input, c);
                }
            },
            DialogKey::Backspace => {
                let _ = pop_char(&mut self.input);
            },
            DialogKey::Other => {},
        }
    }
}

} // verus!
