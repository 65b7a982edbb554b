//! The arithmetic and logic of the CPU: results and flags of each operation,
//! stated over integers, with the executable computation of each.
use crate::bus::add16;
use crate::cpu::registers::FlagsRegister;
use crate::utils::{bit_at, bit_spec, set_bit, with_bit_spec};
use vstd::prelude::*;

verus! {

/// 8-bit addition of `a`, `v` and the incoming carry: the sum modulo 256, Zero when
/// it is 0, Half Carry when the low nibbles overflow and Carry when the sum exceeds 255.
pub open spec fn add_result(a: u8, v: u8, carry: bool) -> (u8, FlagsRegister) {
    let cin: int = if carry { 1 } else { 0 };
    let sum = a + v + cin;
    (
        (sum % 256) as u8,
        FlagsRegister::of(sum % 256 == 0, false, a % 16 + v % 16 + cin > 15, sum > 255),
    )
}

/// 8-bit subtraction of `v` and the incoming carry from `a`: the difference modulo 256,
/// Subtraction set, Half Carry when the low nibble borrows and Carry when `a` is smaller
/// than what is subtracted.
pub open spec fn sub_result(a: u8, v: u8, carry: bool) -> (u8, FlagsRegister) {
    let cin: int = if carry { 1 } else { 0 };
    let diff = a - v - cin;
    (
        ((diff + 512) % 256) as u8,
        FlagsRegister::of((diff + 512) % 256 == 0, true, a % 16 < v % 16 + cin, diff < 0),
    )
}

/// The result of a bitwise operation: Zero when it is 0, Half Carry only for AND.
pub open spec fn logic_flags(result: u8, half_carry: bool) -> FlagsRegister {
    FlagsRegister::of(result == 0, false, half_carry, false)
}

/// Increment of a byte: the carry flag is kept.
pub open spec fn inc_result(v: u8, f: FlagsRegister) -> (u8, FlagsRegister) {
    let r = ((v + 1) % 256) as u8;
    (r, FlagsRegister::of(r == 0, false, v % 16 == 15, f.carry))
}

/// Decrement of a byte: the carry flag is kept.
pub open spec fn dec_result(v: u8, f: FlagsRegister) -> (u8, FlagsRegister) {
    let r = ((v + 255) % 256) as u8;
    (r, FlagsRegister::of(r == 0, true, v % 16 == 0, f.carry))
}

/// 16-bit addition to HL: Zero is kept, Half Carry from bit 11 and Carry from bit 15.
pub open spec fn add_hl_result(hl: u16, v: u16, f: FlagsRegister) -> (u16, FlagsRegister) {
    (
        add16(hl, v as int),
        FlagsRegister::of(f.zero, false, hl % 4096 + v % 4096 > 4095, hl + v > 65535),
    )
}

/// The stack pointer plus a signed byte: Half Carry and Carry come from the unsigned
/// addition of the low byte of SP and the operand byte.
pub open spec fn add_sp_result(sp: u16, e: i8) -> (u16, FlagsRegister) {
    let u = (e as u8) as int;
    (add16(sp, e as int), FlagsRegister::of(false, false, sp % 16 + u % 16 > 15, sp % 256 + u > 255))
}

/// Decimal adjustment of A after a BCD addition or subtraction.
pub open spec fn daa_result(a: u8, f: FlagsRegister) -> (u8, FlagsRegister) {
    if f.subtraction {
        let a1 = if f.carry { ((a + 256 - 0x60) % 256) as u8 } else { a };
        let a2 = if f.half_carry { ((a1 + 256 - 0x06) % 256) as u8 } else { a1 };
        (a2, FlagsRegister::of(a2 == 0, true, false, f.carry))
    } else {
        let carry = f.carry || a > 0x99;
        let a1 = if carry { ((a + 0x60) % 256) as u8 } else { a };
        let a2 = if f.half_carry || a1 % 16 > 9 { ((a1 + 0x06) % 256) as u8 } else { a1 };
        (a2, FlagsRegister::of(a2 == 0, false, false, carry))
    }
}

/// The rotations and shifts of the CPU, by the position of their opcode.
pub enum Shift {
    RotateLeftCircular,
    RotateRightCircular,
    RotateLeft,
    RotateRight,
    ShiftLeftArithmetic,
    ShiftRightArithmetic,
    Swap,
    ShiftRightLogical,
}

/// The byte after a rotation or shift and the carry it produces.
/// The rotations through carry take the incoming carry into the freed bit.
pub open spec fn shift_result(op: Shift, v: u8, carry: bool) -> (u8, bool) {
    let cin: int = if carry { 1 } else { 0 };
    match op {
        Shift::RotateLeftCircular => (((v * 2) % 256 + v / 128) as u8, v >= 128),
        Shift::RotateRightCircular => ((v / 2 + (v % 2) * 128) as u8, v % 2 == 1),
        Shift::RotateLeft => (((v * 2) % 256 + cin) as u8, v >= 128),
        Shift::RotateRight => ((v / 2 + cin * 128) as u8, v % 2 == 1),
        Shift::ShiftLeftArithmetic => (((v * 2) % 256) as u8, v >= 128),
        Shift::ShiftRightArithmetic => ((v / 2 + (if v >= 128 { 128int } else { 0 })) as u8, v % 2 == 1),
        Shift::Swap => (((v % 16) * 16 + v / 16) as u8, false),
        Shift::ShiftRightLogical => ((v / 2) as u8, v % 2 == 1),
    }
}

/// Adds with incoming carry; see `add_result`.
pub fn add8(a: u8, v: u8, carry: bool) -> (r: (u8, FlagsRegister))
    ensures
        r == add_result(a, v, carry),
{
    let cin: u8 = if carry { 1 } else { 0 };
    let sum: u16 = a as u16 + v as u16 + cin as u16;
    let result = (sum % 256) as u8;
    let half_carry = a % 16 + v % 16 + cin > 15;
    let mut f = FlagsRegister::empty();
    f.update(result == 0, false, half_carry, sum > 255);
    (result, f)
}

/// Subtracts with incoming carry; see `sub_result`.
pub fn sub8(a: u8, v: u8, carry: bool) -> (r: (u8, FlagsRegister))
    ensures
        r == sub_result(a, v, carry),
{
    let cin: u8 = if carry { 1 } else { 0 };
    let result = a.wrapping_sub(v).wrapping_sub(cin);
    let half_carry = a % 16 < v % 16 + cin;
    let borrow = (a as u16) < v as u16 + cin as u16;
    let mut f = FlagsRegister::empty();
    f.update(result == 0, true, half_carry, borrow);
    (result, f)
}

/// Increments a byte; see `inc_result`.
pub fn inc(v: u8, f: FlagsRegister) -> (r: (u8, FlagsRegister))
    ensures
        r == inc_result(v, f),
{
    let result = v.wrapping_add(1);
    let mut flags = f;
    flags.update(result == 0, false, v % 16 == 15, f.carry);
    (result, flags)
}

/// Decrements a byte; see `dec_result`.
pub fn dec(v: u8, f: FlagsRegister) -> (r: (u8, FlagsRegister))
    ensures
        r == dec_result(v, f),
{
    let result = v.wrapping_sub(1);
    let mut flags = f;
    flags.update(result == 0, true, v % 16 == 0, f.carry);
    (result, flags)
}

/// Adds a word to HL; see `add_hl_result`.
pub fn add_hl(hl: u16, v: u16, f: FlagsRegister) -> (r: (u16, FlagsRegister))
    ensures
        r == add_hl_result(hl, v, f),
{
    let result = hl.wrapping_add(v);
    let half_carry = hl % 4096 + v % 4096 > 4095;
    let carry = hl as u32 + v as u32 > 65535;
    let mut flags = f;
    flags.update(f.zero, false, half_carry, carry);
    (result, flags)
}

/// Adds a signed byte to the stack pointer; see `add_sp_result`.
pub fn add_sp(sp: u16, e: i8) -> (r: (u16, FlagsRegister))
    ensures
        r == add_sp_result(sp, e),
{
    let u = e as u8;
    let result = sp.wrapping_add_signed(e as i16);
    let half_carry = sp % 16 + (u % 16) as u16 > 15;
    let carry = sp % 256 + u as u16 > 255;
    let mut flags = FlagsRegister::empty();
    flags.update(false, false, half_carry, carry);
    (result, flags)
}

/// Decimal adjustment of A; see `daa_result`.
pub fn daa(a: u8, f: FlagsRegister) -> (r: (u8, FlagsRegister))
    ensures
        r == daa_result(a, f),
{
    let mut flags = f;
    if f.subtraction {
        let a1 = if f.carry { a.wrapping_sub(0x60) } else { a };
        assert(a1 == (if f.carry { ((a + 256 - 0x60) % 256) as u8 } else { a }));
        let a2 = if f.half_carry { a1.wrapping_sub(0x06) } else { a1 };
        assert(a2 == (if f.half_carry { ((a1 + 256 - 0x06) % 256) as u8 } else { a1 }));
        flags.update(a2 == 0, true, false, f.carry);
        (a2, flags)
    } else {
        let carry = f.carry || a > 0x99;
        let a1 = if carry { a.wrapping_add(0x60) } else { a };
        assert(a1 == (if carry { ((a + 0x60) % 256) as u8 } else { a }));
        let a2 = if f.half_carry || a1 % 16 > 0x09 { a1.wrapping_add(0x06) } else { a1 };
        assert(a2 == (if f.half_carry || a1 % 16 > 9 { ((a1 + 0x06) % 256) as u8 } else { a1 }));
        flags.update(a2 == 0, false, false, carry);
        (a2, flags)
    }
}

/// Rotates or shifts a byte; see `shift_result`.
pub fn shift(op: Shift, v: u8, carry: bool) -> (r: (u8, bool))
    ensures
        r == shift_result(op, v, carry),
{
    let cin: u8 = if carry { 1 } else { 0 };
    match op {
        Shift::RotateLeftCircular => (((v as u16 * 2) % 256) as u8 + v / 128, v >= 128),
        Shift::RotateRightCircular => (v / 2 + (v % 2) * 128, v % 2 == 1),
        Shift::RotateLeft => (((v as u16 * 2) % 256) as u8 + cin, v >= 128),
        Shift::RotateRight => (v / 2 + cin * 128, v % 2 == 1),
        Shift::ShiftLeftArithmetic => (((v as u16 * 2) % 256) as u8, v >= 128),
        Shift::ShiftRightArithmetic => (v / 2 + (if v >= 128 { 128u8 } else { 0 }), v % 2 == 1),
        Shift::Swap => ((v % 16) * 16 + v / 16, false),
        Shift::ShiftRightLogical => (v / 2, v % 2 == 1),
    }
}

/// The flags after testing bit `bit` of `v`: Zero is the complement of the bit.
pub fn test_bit(v: u8, bit: u8, f: FlagsRegister) -> (r: FlagsRegister)
    requires
        bit < 8,
    ensures
        r == FlagsRegister::of(!bit_spec(v, bit as nat), false, true, f.carry),
{
    let mut flags = f;
    flags.update(!bit_at(v, bit), false, true, f.carry);
    flags
}

/// `v` with bit `bit` set to `state`.
pub fn assign_bit(v: u8, bit: u8, state: bool) -> (r: u8)
    requires
        bit < 8,
    ensures
        r == with_bit_spec(v, bit as nat, state),
{
    set_bit(v, bit, state)
}

} // verus!
