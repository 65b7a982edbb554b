//! Hexadecimal spelling of numbers, as used by the assembly listings of instructions.
use vstd::prelude::*;

verus! {

/// The lowercase hexadecimal digit for `d` (0 to 15).
pub open spec fn hex_digit_text(d: int) -> Seq<char> {
    if d == 0 {
        "0"@
    } else if d == 1 {
        "1"@
    } else if d == 2 {
        "2"@
    } else if d == 3 {
        "3"@
    } else if d == 4 {
        "4"@
    } else if d == 5 {
        "5"@
    } else if d == 6 {
        "6"@
    } else if d == 7 {
        "7"@
    } else if d == 8 {
        "8"@
    } else if d == 9 {
        "9"@
    } else if d == 10 {
        "a"@
    } else if d == 11 {
        "b"@
    } else if d == 12 {
        "c"@
    } else if d == 13 {
        "d"@
    } else if d == 14 {
        "e"@
    } else {
        "f"@
    }
}

/// The last `count` hexadecimal digits of `value`, most significant first.
pub open spec fn hex_digits(value: nat, count: nat) -> Seq<char>
    decreases count,
{
    if count == 0 {
        Seq::empty()
    } else {
        hex_digits(value / 16, (count - 1) as nat) + hex_digit_text((value % 16) as int)
    }
}

/// `value` as `0x` followed by `count` hexadecimal digits (Rust's `{:#0Nx}` with N = count + 2).
pub open spec fn hex_text(value: nat, count: nat) -> Seq<char> {
    "0x"@ + hex_digits(value, count)
}

/// A signed byte as its sign (`-` when negative, `+` when `plus` is set and it is not),
/// `0x` and two hexadecimal digits of its magnitude.
pub open spec fn signed_hex_text(value: i8, plus: bool) -> Seq<char> {
    let sign = if value < 0 {
        "-"@
    } else if plus {
        "+"@
    } else {
        Seq::empty()
    };
    let magnitude = if value < 0 {
        -value
    } else {
        value as int
    };
    sign + hex_text(magnitude as nat, 2)
}

/// `value` in decimal, without leading zeros.
pub open spec fn decimal_text(value: nat) -> Seq<char> {
    if value < 10 {
        hex_digit_text(value as int)
    } else if value < 100 {
        hex_digit_text((value / 10) as int) + hex_digit_text((value % 10) as int)
    } else {
        hex_digit_text((value / 100) as int) + hex_digit_text((value / 10 % 10) as int)
            + hex_digit_text((value % 10) as int)
    }
}

/// Appends `c` to the end of `s`: a call of std's `String::push`, which the standard
/// library documents as appending the given char to the end of the string.
#[verifier::external_body]
pub(crate) fn push_char(s: &mut String, c: char)
    ensures
        final(s)@ == old(s)@.push(c),
{
    s.push(c);
}

/// Removes and returns the last char of `s`, `None` when `s` is empty: a call of std's
/// `String::pop`, which the standard library documents as removing the last character
/// from the string and returning it, or returning `None` if the string is empty.
#[verifier::external_body]
pub(crate) fn pop_char(s: &mut String) -> (r: Option<char>)
    ensures
        old(s)@.len() == 0 ==> r is None && final(s)@ == old(s)@,
        old(s)@.len() > 0 ==> r == Some(old(s)@.last()) && final(s)@ == old(s)@.drop_last(),
{
    s.pop()
}

/// `prefix` followed by `text`.
pub fn concat(prefix: &str, text: &str) -> (s: String)
    ensures
        s@ == prefix@ + text@,
{
    let mut s = String::from_str(prefix);
    s.append(text);
    s
}

/// `first`, `second` and `third`, in this order.
pub fn concat3(first: &str, second: &str, third: &str) -> (s: String)
    ensures
        s@ == first@ + second@ + third@,
{
    let mut s = String::from_str(first);
    s.append(second);
    s.append(third);
    s
}

/// `prefix`, `first`, `separator` and `second`, in this order.
pub fn concat4(prefix: &str, first: &str, separator: &str, second: &str) -> (s: String)
    ensures
        s@ == prefix@ + first@ + separator@ + second@,
{
    let mut s = String::from_str(prefix);
    s.append(first);
    s.append(separator);
    s.append(second);
    s
}

/// A byte in decimal, without leading zeros.
pub fn decimal_u8(value: u8) -> (s: String)
    ensures
        s@ == decimal_text(value as nat),
{
    if value < 10 {
        String::from_str(hex_digit(value))
    } else if value < 100 {
        concat(hex_digit(value / 10), hex_digit(value % 10))
    } else {
        let mut s = concat(hex_digit(value / 100), hex_digit(value / 10 % 10));
        s.append(hex_digit(value % 10));
        s
    }
}

/// The lowercase hexadecimal digit for `d`.
pub fn hex_digit(d: u8) -> (s: &'static str)
    requires
        d < 16,
    ensures
        s@ == hex_digit_text(d as int),
{
    if d == 0 {
        "0"
    } else if d == 1 {
        "1"
    } else if d == 2 {
        "2"
    } else if d == 3 {
        "3"
    } else if d == 4 {
        "4"
    } else if d == 5 {
        "5"
    } else if d == 6 {
        "6"
    } else if d == 7 {
        "7"
    } else if d == 8 {
        "8"
    } else if d == 9 {
        "9"
    } else if d == 10 {
        "a"
    } else if d == 11 {
        "b"
    } else if d == 12 {
        "c"
    } else if d == 13 {
        "d"
    } else if d == 14 {
        "e"
    } else {
        "f"
    }
}

/// A byte as `0x` and two hexadecimal digits.
pub fn hex_u8(value: u8) -> (s: String)
    ensures
        s@ == hex_text(value as nat, 2),
{
    let mut s = String::from_str("0x");
    s.append(hex_digit(value / 16));
    s.append(hex_digit(value % 16));
    proof {
        let v = value as nat;
        assert(v / 16 / 16 == 0);
        assert(hex_digits(v / 16 / 16, 0) =~= Seq::<char>::empty());
        assert(hex_digits(v / 16, 1) =~= hex_digit_text((v / 16 % 16) as int));
    }
    s
}

/// A word as `0x` and four hexadecimal digits.
pub fn hex_u16(value: u16) -> (s: String)
    ensures
        s@ == hex_text(value as nat, 4),
{
    let mut s = String::from_str("0x");
    s.append(hex_digit((value / 4096) as u8));
    s.append(hex_digit((value / 256 % 16) as u8));
    s.append(hex_digit((value / 16 % 16) as u8));
    s.append(hex_digit((value % 16) as u8));
    proof {
        let v = value as nat;
        assert(v / 16 / 16 == v / 256);
        assert(v / 256 / 16 == v / 4096);
        assert(v / 4096 / 16 == 0);
        assert(v / 4096 % 16 == v / 4096);
        assert(hex_digits(v / 4096 / 16, 0) =~= Seq::<char>::empty());
        assert(hex_digits(v / 4096, 1) =~= hex_digit_text((v / 4096) as int));
        assert(hex_digits(v / 256, 2) =~= hex_digits(v / 4096, 1) + hex_digit_text((v / 256 % 16) as int));
        assert(hex_digits(v / 16, 3) =~= hex_digits(v / 256, 2) + hex_digit_text((v / 16 % 16) as int));
    }
    s
}

/// A signed byte as its sign, `0x` and two hexadecimal digits of its magnitude; a
/// non-negative value gets a `+` only when `plus` is set.
pub fn signed_hex(value: i8, plus: bool) -> (s: String)
    ensures
        s@ == signed_hex_text(value, plus),
{
    let mut s = if value < 0 {
        String::from_str("-")
    } else if plus {
        String::from_str("+")
    } else {
        String::new()
    };
    let magnitude: u8 = if value < 0 {
        (0 - (value as i16)) as u8
    } else {
        value as u8
    };
    let digits = hex_u8(magnitude);
    s.append(digits.as_str());
    s
}

} // verus!
