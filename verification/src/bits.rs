//! Bits of a byte: what they are, how many are set, and how fields are replaced.

use vstd::arithmetic::power2::pow2;
use vstd::prelude::*;

verus! {

/// Whether bit `i` of `byte` is set. Bit 0 is the least significant one.
pub open spec fn bit(byte: u8, i: u8) -> bool {
    (byte >> i) & 1 == 1
}

/// The number of set bits among the `n` lowest of `byte`.
pub open spec fn ones_below(byte: u8, n: nat) -> nat
    decreases n,
{
    if n == 0 {
        0
    } else {
        ones_below(byte, (n - 1) as nat) + if bit(byte, (n - 1) as u8) {
            1nat
        } else {
            0nat
        }
    }
}

/// The number of set bits of `byte`.
pub open spec fn ones(byte: u8) -> nat {
    ones_below(byte, 8)
}

/// `orig` with the bits of `mask` taken from `value << shift`.
pub open spec fn with_field(orig: u8, mask: u8, shift: u8, value: u8) -> u8 {
    (orig & !mask) | ((value << shift) & mask)
}

/// `orig` with all bits of `mask` set, or all of them cleared.
pub open spec fn with_flag(orig: u8, mask: u8, enabled: bool) -> u8 {
    if enabled {
        orig | mask
    } else {
        orig & !mask
    }
}

/// The signed number that the low `bits` bits of `value` denote in two's complement.
pub open spec fn twos_complement(bits: nat, value: int) -> int {
    let low = value % (pow2(bits) as int);
    if low >= pow2((bits - 1) as nat) {
        low - pow2(bits)
    } else {
        low
    }
}

/// Counts the set bits of a byte.
pub fn count_ones(byte: u8) -> (r: u32)
    ensures
        r == ones(byte),
        r <= 8,
{
    let mut count: u32 = 0;
    for i in 0..8u8
        invariant
            count == ones_below(byte, i as nat),
            count <= i,
    {
        if (byte >> i) & 1 == 1 {
            count += 1;
        }
    }
    count
}

/// Bit by bit, a replaced field holds the new value and everything else is kept.
pub broadcast proof fn lemma_with_field_bits(orig: u8, mask: u8, shift: u8, value: u8, i: u8)
    requires
        shift < 8,
        i < 8,
    ensures
        #[trigger] bit(with_field(orig, mask, shift, value), i) == (if bit(mask, i) {
            i >= shift && bit(value, (i - shift) as u8)
        } else {
            bit(orig, i)
        }),
{
    let field: u8 = with_field(orig, mask, shift, value);
    let from: u8 = (i - shift) as u8;
    assert(((field >> i) & 1 == 1) == (if (mask >> i) & 1 == 1 {
        i >= shift && (value >> from) & 1 == 1
    } else {
        (orig >> i) & 1 == 1
    })) by (bit_vector)
        requires
            field == (orig & !mask) | ((value << shift) & mask),
            shift < 8,
            i < 8,
            i >= shift ==> from == i - shift,
    ;
}

/// Bit by bit, a replaced flag has its new state and everything else is kept.
pub broadcast proof fn lemma_with_flag_bits(orig: u8, mask: u8, enabled: bool, i: u8)
    requires
        i < 8,
    ensures
        #[trigger] bit(with_flag(orig, mask, enabled), i) == (if bit(mask, i) {
            enabled
        } else {
            bit(orig, i)
        }),
{
    assert((((orig | mask) >> i) & 1 == 1) == ((mask >> i) & 1 == 1 || (orig >> i) & 1 == 1)
        && (((orig & !mask) >> i) & 1 == 1) == (!((mask >> i) & 1 == 1) && (orig >> i) & 1 == 1))
        by (bit_vector)
        requires
            i < 8,
    ;
}

/// The bits of a byte, added up.
spec fn bit_sum(byte: u8) -> int {
    (byte & 1) + ((byte >> 1) & 1) + ((byte >> 2) & 1) + ((byte >> 3) & 1) + ((byte >> 4) & 1) + ((
    byte >> 5) & 1) + ((byte >> 6) & 1) + ((byte >> 7) & 1)
}

/// Adding the bits up counts those that are set.
proof fn lemma_ones_is_bit_sum(byte: u8)
    ensures
        ones(byte) == bit_sum(byte),
{
    reveal_with_fuel(ones_below, 9);
    assert(byte >> 0 == byte && forall|i: u8| #[trigger] ((byte >> i) & 1) <= 1) by (bit_vector);
}

/// Exclusive or adds the numbers of set bits, up to an even number.
pub proof fn lemma_xor_ones(a: u8, b: u8)
    ensures
        ones(a ^ b) % 2 == (ones(a) + ones(b)) % 2,
{
    lemma_ones_is_bit_sum(a);
    lemma_ones_is_bit_sum(b);
    lemma_ones_is_bit_sum(a ^ b);
    assert(bit_sum(a ^ b) % 2 == (bit_sum(a) + bit_sum(b)) % 2) by (bit_vector);
}

/// Setting a clear bit adds one to the number of set bits.
pub proof fn lemma_set_bit_ones(byte: u8, i: u8)
    requires
        i < 8,
        !bit(byte, i),
    ensures
        ones(byte | (1u8 << i)) == ones(byte) + 1,
{
    lemma_ones_is_bit_sum(byte);
    lemma_ones_is_bit_sum(byte | (1u8 << i));
    assert(bit_sum(byte | (1u8 << i)) == bit_sum(byte) + 1) by (bit_vector)
        requires
            i < 8,
            (byte >> i) & 1 != 1,
    ;
}

/// Inverting a bit changes whether the number of set bits is odd.
pub proof fn lemma_flip_bit_ones(byte: u8, i: u8)
    requires
        i < 8,
    ensures
        ones(byte ^ (1u8 << i)) % 2 != ones(byte) % 2,
{
    lemma_ones_is_bit_sum(byte);
    lemma_ones_is_bit_sum(byte ^ (1u8 << i));
    assert(bit_sum(byte ^ (1u8 << i)) % 2 != bit_sum(byte) % 2) by (bit_vector)
        requires
            i < 8,
    ;
}

/// Taking the lowest bit off a byte takes it off the number of set bits.
pub proof fn lemma_halved_ones(byte: u8)
    ensures
        ones(byte) == ones((byte / 2) as u8) + byte % 2,
        ones(0) == 0,
{
    lemma_ones_is_bit_sum(byte);
    lemma_ones_is_bit_sum((byte / 2) as u8);
    lemma_ones_is_bit_sum(0);
    let half = (byte / 2) as u8;
    let low = (byte % 2) as u8;
    assert(bit_sum(byte) == bit_sum(half) + low && bit_sum(0) == 0) by (bit_vector)
        requires
            half == byte / 2,
            low == byte % 2,
    ;
}

/// The number of set bits is odd where the exclusive or of all bits is 1.
pub proof fn lemma_folded_ones(byte: u8)
    ensures
        (ones(byte) % 2 == 1) == ((byte ^ (byte >> 1) ^ (byte >> 2) ^ (byte >> 3) ^ (byte >> 4) ^ (
        byte >> 5) ^ (byte >> 6) ^ (byte >> 7)) & 1 == 1),
{
    lemma_ones_is_bit_sum(byte);
    assert((bit_sum(byte) % 2 == 1) == ((byte ^ (byte >> 1) ^ (byte >> 2) ^ (byte >> 3) ^ (byte
        >> 4) ^ (byte >> 5) ^ (byte >> 6) ^ (byte >> 7)) & 1 == 1)) by (bit_vector);
}

} // verus!
