use vstd::prelude::*;

verus! {

/// The value of bit `n` of `input`, bits numbered from 0 (least significant) to 7.
pub open spec fn bit_spec(input: u8, n: nat) -> bool {
    (input as nat / pow2_spec(n)) % 2 == 1
}

/// Two to the power of `n`.
pub open spec fn pow2_spec(n: nat) -> nat
    decreases n,
{
    if n == 0 {
        1
    } else {
        2 * pow2_spec((n - 1) as nat)
    }
}

/// Whether `n` is a power of two.
pub open spec fn is_power_of_two(n: nat) -> bool {
    exists|k: nat| pow2_spec(k) == n
}

/// Twice a power of two is a power of two.
pub proof fn lemma_double_power_of_two(n: nat)
    ensures
        n == 1 ==> is_power_of_two(n),
        is_power_of_two(n) ==> is_power_of_two(2 * n),
{
    assert(pow2_spec(0) == 1);
    if is_power_of_two(n) {
        let k = choose|k: nat| pow2_spec(k) == n;
        assert(pow2_spec(k + 1) == 2 * n);
    }
}

/// `input` with bit `n` forced to `state`.
pub open spec fn with_bit_spec(input: u8, n: nat, state: bool) -> int {
    let p = pow2_spec(n) as int;
    if bit_spec(input, n) == state {
        input as int
    } else if state {
        input as int + p
    } else {
        input as int - p
    }
}

/// Links the shift-and-mask form of a single bit with its arithmetic meaning.
proof fn lemma_bit_masks(input: u8, n: u8)
    requires
        n < 8,
    ensures
        (input & (1u8 << n) != 0) == ((input >> n) & 1 == 1),
        input | (1u8 << n) == (if (input >> n) & 1 == 1 { input as int } else { input + (1u8 << n) }),
        input & !(1u8 << n) == (if (input >> n) & 1 == 1 { input - (1u8 << n) } else { input as int }),
{
    assert((input & (1u8 << n) != 0) == ((input >> n) & 1 == 1) && input | (1u8 << n) == (if (input
        >> n) & 1 == 1 {
        input as int
    } else {
        input + (1u8 << n)
    }) && input & !(1u8 << n) == (if (input >> n) & 1 == 1 {
        input - (1u8 << n)
    } else {
        input as int
    })) by (bit_vector)
        requires
            n < 8,
    ;
}

/// Links shifts of a byte with division by powers of two.
proof fn lemma_shift_is_pow2(input: u8, n: u8)
    requires
        n < 8,
    ensures
        (1u8 << n) as nat == pow2_spec(n as nat),
        (input >> n) as nat == input as nat / pow2_spec(n as nat),
        ((input >> n) & 1 == 1) == bit_spec(input, n as nat),
{
    reveal_with_fuel(pow2_spec, 9);
    assert(((input >> n) & 1 == 1) == ((input >> n) % 2 == 1) && (n == 0 ==> 1u8 << n == 1 && input
        >> n == input) && (n == 1 ==> 1u8 << n == 2 && input >> n == input / 2) && (n == 2 ==> 1u8
        << n == 4 && input >> n == input / 4) && (n == 3 ==> 1u8 << n == 8 && input >> n == input
        / 8) && (n == 4 ==> 1u8 << n == 16 && input >> n == input / 16) && (n == 5 ==> 1u8 << n
        == 32 && input >> n == input / 32) && (n == 6 ==> 1u8 << n == 64 && input >> n == input
        / 64) && (n == 7 ==> 1u8 << n == 128 && input >> n == input / 128)) by (bit_vector);
}

/// Bits 4 and 5 of a byte as masks.
pub proof fn lemma_bits_4_5(input: u8)
    ensures
        bit_spec(input, 4) == (input & 0b0001_0000 != 0),
        bit_spec(input, 5) == (input & 0b0010_0000 != 0),
{
    lemma_shift_is_pow2(input, 4);
    lemma_shift_is_pow2(input, 5);
    lemma_bit_masks(input, 4);
    lemma_bit_masks(input, 5);
    assert(1u8 << 4u8 == 0b0001_0000u8 && 1u8 << 5u8 == 0b0010_0000u8) by (bit_vector);
}

/// Gets the bit at position `n`.
/// Bits are numbered from 0 (least significant) to 7 (most significant).
pub fn bit_at(input: u8, n: u8) -> (r: bool)
    ensures
        r == (n < 8 && bit_spec(input, n as nat)),
{
    if n < 8 {
        proof {
            lemma_bit_masks(input, n);
            lemma_shift_is_pow2(input, n);
        }
        input & (1 << n) != 0
    } else {
        false
    }
}

/// Sets the bit at position `n` to the given state.
/// Bits are numbered from 0 (least significant) to 7 (most significant).
pub fn set_bit(input: u8, n: u8, state: bool) -> (r: u8)
    requires
        n < 8,
    ensures
        r == with_bit_spec(input, n as nat, state),
{
    proof {
        lemma_bit_masks(input, n);
        lemma_shift_is_pow2(input, n);
    }
    if state {
        input | (1 << n)
    } else {
        input & !(1 << n)
    }
}

/// Setting bit `n` to `state` and reading bit `m` back gives `state` when `m` is `n`, and
/// the bit as it was before otherwise.
pub proof fn lemma_set_bit_read_back(input: u8, n: u8, m: u8, state: bool)
    requires
        n < 8,
        m < 8,
    ensures
        bit_spec(with_bit_spec(input, n as nat, state) as u8, m as nat) == if m == n {
            state
        } else {
            bit_spec(input, m as nat)
        },
{
    lemma_bit_masks(input, n);
    lemma_shift_is_pow2(input, n);
    lemma_shift_is_pow2(input, m);
    let set = input | (1u8 << n);
    let cleared = input & !(1u8 << n);
    lemma_shift_is_pow2(set, m);
    lemma_shift_is_pow2(cleared, m);
    assert(((set >> m) & 1 == 1) == (m == n || (input >> m) & 1 == 1)) by (bit_vector)
        requires
            set == input | (1u8 << n),
            n < 8,
            m < 8,
    ;
    assert(((cleared >> m) & 1 == 1) == (m != n && (input >> m) & 1 == 1)) by (bit_vector)
        requires
            cleared == input & !(1u8 << n),
            n < 8,
            m < 8,
    ;
}

/// Checks if half carry from bit 3 to bit 4 occurred.
pub fn half_carry_u8(x: u8, y: u8) -> (r: bool)
    ensures
        r == (x % 16 + y % 16 >= 16),
{
    proof {
        assert((x & 0x0F) <= 15 && (y & 0x0F) <= 15 && ((((x & 0x0F) + (y & 0x0F)) as u8) & 0x10
            == 0x10) == (x % 16 + y % 16 >= 16)) by (bit_vector);
    }
    ((x & 0x0F) + (y & 0x0F)) & 0x10 == 0x10
}

} // verus!
