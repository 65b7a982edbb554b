use vstd::prelude::*;

verus! {

/// The 16-bit value whose high byte is `hi` and low byte is `lo`.
pub open spec fn word(hi: u8, lo: u8) -> u16 {
    (hi as int * 256 + lo as int) as u16
}

/// Represents the special purpose "flags" register.
/// Only the upper 4 bits are used:
/// bit 7 is Zero, bit 6 Subtraction, bit 5 Half Carry and bit 4 Carry.
#[derive(Copy, Clone, PartialEq, Eq, Structural, Debug)]
pub struct FlagsRegister {
    pub zero: bool,
    pub subtraction: bool,
    pub half_carry: bool,
    pub carry: bool,
}

impl FlagsRegister {
    /// The register value as a byte.
    pub open spec fn view(self) -> u8 {
        ((if self.zero { 0x80int } else { 0 }) + (if self.subtraction { 0x40int } else { 0 }) + (
        if self.half_carry { 0x20int } else { 0 }) + (if self.carry { 0x10int } else { 0 })) as u8
    }

    /// The flags register built from the four flag values.
    pub open spec fn of(zero: bool, subtraction: bool, half_carry: bool, carry: bool) -> Self {
        FlagsRegister { zero, subtraction, half_carry, carry }
    }

    /// The Zero flag alone.
    pub fn zero() -> (r: Self)
        ensures
            r == Self::of(true, false, false, false),
    {
        FlagsRegister { zero: true, subtraction: false, half_carry: false, carry: false }
    }

    /// The Subtraction flag alone.
    pub fn subtraction() -> (r: Self)
        ensures
            r == Self::of(false, true, false, false),
    {
        FlagsRegister { zero: false, subtraction: true, half_carry: false, carry: false }
    }

    /// The Half Carry flag alone.
    pub fn half_carry() -> (r: Self)
        ensures
            r == Self::of(false, false, true, false),
    {
        FlagsRegister { zero: false, subtraction: false, half_carry: true, carry: false }
    }

    /// The Carry flag alone.
    pub fn carry() -> (r: Self)
        ensures
            r == Self::of(false, false, false, true),
    {
        FlagsRegister { zero: false, subtraction: false, half_carry: false, carry: true }
    }

    /// No flag set.
    pub fn empty() -> (r: Self)
        ensures
            r == Self::of(false, false, false, false),
    {
        FlagsRegister { zero: false, subtraction: false, half_carry: false, carry: false }
    }

    /// The register value as a byte; the lower nibble is always zero.
    pub fn bits(&self) -> (r: u8)
        ensures
            r == self@,
    {
        let mut value: u8 = 0;
        if self.zero {
            value = value + 0x80;
        }
        if self.subtraction {
            value = value + 0x40;
        }
        if self.half_carry {
            value = value + 0x20;
        }
        if self.carry {
            value = value + 0x10;
        }
        value
    }

    /// The flags held in the upper nibble of `bits`; the lower nibble is dropped.
    pub fn from_bits_truncate(bits: u8) -> (r: Self)
        ensures
            r.zero == (bits & 0x80 != 0),
            r.subtraction == (bits & 0x40 != 0),
            r.half_carry == (bits & 0x20 != 0),
            r.carry == (bits & 0x10 != 0),
            r@ == bits & 0xF0,
    {
        proof {
            lemma_flag_bits(bits);
        }
        FlagsRegister {
            zero: bits & 0x80 != 0,
            subtraction: bits & 0x40 != 0,
            half_carry: bits & 0x20 != 0,
            carry: bits & 0x10 != 0,
        }
    }

    /// Whether all flags set in `other` are set here.
    pub fn contains(&self, other: Self) -> (r: bool)
        ensures
            r == ((other.zero ==> self.zero) && (other.subtraction ==> self.subtraction) && (
            other.half_carry ==> self.half_carry) && (other.carry ==> self.carry)),
    {
        (!other.zero || self.zero) && (!other.subtraction || self.subtraction) && (!other.half_carry
            || self.half_carry) && (!other.carry || self.carry)
    }

    /// Sets all flags set in `other`.
    pub fn insert(&mut self, other: Self)
        ensures
            *final(self) == Self::of(
                old(self).zero || other.zero,
                old(self).subtraction || other.subtraction,
                old(self).half_carry || other.half_carry,
                old(self).carry || other.carry,
            ),
    {
        self.zero = self.zero || other.zero;
        self.subtraction = self.subtraction || other.subtraction;
        self.half_carry = self.half_carry || other.half_carry;
        self.carry = self.carry || other.carry;
    }

    /// Clears all flags set in `other`.
    pub fn remove(&mut self, other: Self)
        ensures
            *final(self) == Self::of(
                old(self).zero && !other.zero,
                old(self).subtraction && !other.subtraction,
                old(self).half_carry && !other.half_carry,
                old(self).carry && !other.carry,
            ),
    {
        self.zero = self.zero && !other.zero;
        self.subtraction = self.subtraction && !other.subtraction;
        self.half_carry = self.half_carry && !other.half_carry;
        self.carry = self.carry && !other.carry;
    }

    /// Sets (`value` true) or clears the flags set in `other`.
    pub fn set(&mut self, other: Self, value: bool)
        ensures
            *final(self) == Self::of(
                if other.zero { value } else { old(self).zero },
                if other.subtraction { value } else { old(self).subtraction },
                if other.half_carry { value } else { old(self).half_carry },
                if other.carry { value } else { old(self).carry },
            ),
    {
        if value {
            self.insert(other);
        } else {
            self.remove(other);
        }
    }

    /// Flips the flags set in `other`.
    pub fn toggle(&mut self, other: Self)
        ensures
            *final(self) == Self::of(
                old(self).zero != other.zero,
                old(self).subtraction != other.subtraction,
                old(self).half_carry != other.half_carry,
                old(self).carry != other.carry,
            ),
    {
        self.zero = self.zero != other.zero;
        self.subtraction = self.subtraction != other.subtraction;
        self.half_carry = self.half_carry != other.half_carry;
        self.carry = self.carry != other.carry;
    }

    /// Sets all four flags at once.
    pub fn update(&mut self, zero: bool, negative: bool, half_carry: bool, carry: bool)
        ensures
            *final(self) == Self::of(zero, negative, half_carry, carry),
    {
        self.zero = zero;
        self.subtraction = negative;
        self.half_carry = half_carry;
        self.carry = carry;
    }
}

/// The byte value of a flags register read back from the upper nibble of `bits`.
proof fn lemma_flag_bits(bits: u8)
    ensures
        (((if bits & 0x80 != 0 { 0x80int } else { 0 }) + (if bits & 0x40 != 0 { 0x40int } else { 0 })
            + (if bits & 0x20 != 0 { 0x20int } else { 0 }) + (if bits & 0x10 != 0 {
            0x10int
        } else {
            0
        })) as u8) == bits & 0xF0,
{
    assert((((if bits & 0x80 != 0 { 0x80u8 } else { 0 }) + (if bits & 0x40 != 0 { 0x40u8 } else { 0 })
        + (if bits & 0x20 != 0 { 0x20u8 } else { 0 }) + (if bits & 0x10 != 0 {
        0x10u8
    } else {
        0
    })) as u8) == bits & 0xF0) by (bit_vector);
}

/// Holds all CPU registers.
#[derive(Copy, Clone, PartialEq, Eq, Structural, Debug)]
pub struct Registers {
    pub a: u8,
    pub b: u8,
    pub c: u8,
    pub d: u8,
    pub e: u8,
    pub f: FlagsRegister,
    pub h: u8,
    pub l: u8,
    pub pc: u16,  // Program counter
    pub sp: u16,  // Stack pointer
}

impl Registers {
    /// AF as one 16-bit value.
    pub open spec fn af(self) -> u16 {
        word(self.a, self.f@)
    }

    /// BC as one 16-bit value.
    pub open spec fn bc(self) -> u16 {
        word(self.b, self.c)
    }

    /// DE as one 16-bit value.
    pub open spec fn de(self) -> u16 {
        word(self.d, self.e)
    }

    /// HL as one 16-bit value.
    pub open spec fn hl(self) -> u16 {
        word(self.h, self.l)
    }

    /// The registers after `value` is written to AF; the lower nibble of F stays zero.
    pub open spec fn with_af(self, value: u16) -> Self {
        Registers {
            a: (value / 256) as u8,
            f: FlagsRegister::of(
                value & 0x80 != 0,
                value & 0x40 != 0,
                value & 0x20 != 0,
                value & 0x10 != 0,
            ),
            ..self
        }
    }

    /// The registers after `value` is written to BC.
    pub open spec fn with_bc(self, value: u16) -> Self {
        Registers { b: (value / 256) as u8, c: (value % 256) as u8, ..self }
    }

    /// The registers after `value` is written to DE.
    pub open spec fn with_de(self, value: u16) -> Self {
        Registers { d: (value / 256) as u8, e: (value % 256) as u8, ..self }
    }

    /// The registers after `value` is written to HL.
    pub open spec fn with_hl(self, value: u16) -> Self {
        Registers { h: (value / 256) as u8, l: (value % 256) as u8, ..self }
    }

    pub fn get_af(&self) -> (r: u16)
        ensures
            r == self.af(),
    {
        (self.a as u16) * 256 + (self.f.bits() as u16)
    }

    pub fn set_af(&mut self, value: u16)
        ensures
            *final(self) == old(self).with_af(value),
    {
        self.a = (value / 256) as u8;
        let low = (value % 256) as u8;
        proof {
            lemma_low_byte(value);
        }
        self.f = FlagsRegister::from_bits_truncate(low);
    }

    pub fn get_bc(&self) -> (r: u16)
        ensures
            r == self.bc(),
    {
        (self.b as u16) * 256 + (self.c as u16)
    }

    pub fn set_bc(&mut self, value: u16)
        ensures
            *final(self) == old(self).with_bc(value),
    {
        self.b = (value / 256) as u8;
        self.c = (value % 256) as u8;
    }

    pub fn get_de(&self) -> (r: u16)
        ensures
            r == self.de(),
    {
        (self.d as u16) * 256 + (self.e as u16)
    }

    pub fn set_de(&mut self, value: u16)
        ensures
            *final(self) == old(self).with_de(value),
    {
        self.d = (value / 256) as u8;
        self.e = (value % 256) as u8;
    }

    pub fn get_hl(&self) -> (r: u16)
        ensures
            r == self.hl(),
    {
        (self.h as u16) * 256 + (self.l as u16)
    }

    pub fn set_hl(&mut self, value: u16)
        ensures
            *final(self) == old(self).with_hl(value),
    {
        self.h = (value / 256) as u8;
        self.l = (value % 256) as u8;
    }
}

impl Default for Registers {
    fn default() -> (r: Self)
        ensures
            r == (Registers {
                a: 0,
                b: 0,
                c: 0,
                d: 0,
                e: 0,
                f: FlagsRegister::of(false, false, false, false),
                h: 0,
                l: 0,
                pc: 0,
                sp: 0,
            }),
    {
        Registers {
            a: 0,
            b: 0,
            c: 0,
            d: 0,
            e: 0,
            f: FlagsRegister::empty(),
            h: 0,
            l: 0,
            pc: 0,
            sp: 0,
        }
    }
}

/// How the low byte of a 16-bit value carries its flag bits.
proof fn lemma_low_byte(value: u16)
    ensures
        ((value % 256) as u8 & 0x80 != 0) == (value & 0x80 != 0),
        ((value % 256) as u8 & 0x40 != 0) == (value & 0x40 != 0),
        ((value % 256) as u8 & 0x20 != 0) == (value & 0x20 != 0),
        ((value % 256) as u8 & 0x10 != 0) == (value & 0x10 != 0),
        ((value % 256) as u8 & 0xF0) as int == (value % 256) as int - (value % 16) as int,
        (value & 0xFFF0) as int == value as int - (value % 16) as int,
{
    assert(((value % 256) as u8 & 0x80 != 0) == (value & 0x80 != 0) && ((value % 256) as u8 & 0x40
        != 0) == (value & 0x40 != 0) && ((value % 256) as u8 & 0x20 != 0) == (value & 0x20 != 0)
        && ((value % 256) as u8 & 0x10 != 0) == (value & 0x10 != 0)) by (bit_vector);
    assert(((value % 256) as u8 & 0xF0) as int == (value % 256) as int - (value % 16) as int && (
    value & 0xFFF0) as int == value as int - (value % 16) as int) by (bit_vector);
}

/// Writing a register pair and reading it back yields the written value
/// (for AF, with the lower nibble of F cleared).
pub proof fn lemma_register_pairs_roundtrip(r: Registers, value: u16)
    ensures
        r.with_bc(value).bc() == value,
        r.with_de(value).de() == value,
        r.with_hl(value).hl() == value,
        r.with_af(value).af() == value & 0xFFF0,
{
    let low = (value % 256) as u8;
    lemma_low_byte(value);
    lemma_flag_bits(low);
}

} // verus!
