//! Bit and byte helpers shared by the register file and the executor.

use vstd::prelude::*;

verus! {

/// The byte with only bit `bit` set.
pub open spec fn bit_mask(bit: usize) -> u8
    recommends
        bit < 8,
{
    1u8 << bit
}

/// Whether bit `bit` of `value` is set.
pub open spec fn bit_is_set(value: u8, bit: usize) -> bool
    recommends
        bit < 8,
{
    value & bit_mask(bit) != 0
}

/// `value` with bit `bit` forced to `enabled`, every other bit kept.
pub open spec fn with_bit(value: u8, bit: usize, enabled: bool) -> u8
    recommends
        bit < 8,
{
    if enabled {
        value | bit_mask(bit)
    } else {
        value & !bit_mask(bit)
    }
}

/// The number of set bits among the lowest `n` bits of `value`.
pub open spec fn count_low_bits(value: u8, n: nat) -> nat
    decreases n,
{
    if n == 0 {
        0
    } else {
        let below = count_low_bits(value, (n - 1) as nat);
        if (value >> ((n - 1) as u8)) & 1 == 1 {
            below + 1
        } else {
            below
        }
    }
}

/// The 16-bit value whose high byte is `high` and whose low byte is `low`.
pub open spec fn spec_join_bytes(high: u8, low: u8) -> u16 {
    (high * 256 + low) as u16
}

/// The low byte of a 16-bit value.
pub open spec fn spec_low_byte(reg: u16) -> u8 {
    (reg % 256) as u8
}

/// The high byte of a 16-bit value.
pub open spec fn spec_high_byte(reg: u16) -> u8 {
    (reg / 256) as u8
}

/// Forcing a bit gives that bit the value asked for and leaves every other
/// bit as it was.
pub proof fn lemma_with_bit(value: u8, bit: usize, enabled: bool, other: usize)
    requires
        bit < 8,
        other < 8,
    ensures
        bit_is_set(with_bit(value, bit, enabled), other) == if other == bit {
            enabled
        } else {
            bit_is_set(value, other)
        },
{
    let b = bit as u8;
    let o = other as u8;
    assert(1u8 << bit == 1u8 << b) by (bit_vector)
        requires
            b == bit,
            bit < 8,
    ;
    assert(1u8 << other == 1u8 << o) by (bit_vector)
        requires
            o == other,
            other < 8,
    ;
    assert(((value | (1u8 << b)) & (1u8 << o) != 0) == (o == b || value & (1u8 << o) != 0))
        by (bit_vector)
        requires
            b < 8,
            o < 8,
    ;
    assert(((value & !(1u8 << b)) & (1u8 << o) != 0) == (o != b && value & (1u8 << o) != 0))
        by (bit_vector)
        requires
            b < 8,
            o < 8,
    ;
}

/// A byte has a set bit exactly when it is not zero.
pub proof fn lemma_count_bits_zero(value: u8)
    ensures
        count_low_bits(value, 8) > 0 <==> value != 0,
{
    reveal_with_fuel(count_low_bits, 9);
    assert(value == 0 <==> ((value >> 0u8) & 1 != 1 && (value >> 1u8) & 1 != 1 && (value >> 2u8) & 1
        != 1 && (value >> 3u8) & 1 != 1 && (value >> 4u8) & 1 != 1 && (value >> 5u8) & 1 != 1 && (
    value >> 6u8) & 1 != 1 && (value >> 7u8) & 1 != 1)) by (bit_vector);
}

/// The low byte and the high byte of a joined pair are the two bytes that
/// were joined, and a word is the join of its two bytes.
pub proof fn lemma_join_split(high: u8, low: u8, word: u16)
    ensures
        spec_high_byte(spec_join_bytes(high, low)) == high,
        spec_low_byte(spec_join_bytes(high, low)) == low,
        spec_join_bytes(spec_high_byte(word), spec_low_byte(word)) == word,
{
}

/// Sets or clears bit `bit` of `value` according to `enabled`.
pub fn set_bit_enabled(value: &mut u8, bit: usize, enabled: bool)
    requires
        bit < 8,
    ensures
        *final(value) == with_bit(*old(value), bit, enabled),
{
    if enabled {
        set_bit(value, bit);
    } else {
        clear_bit(value, bit);
    }
}

/// Sets bit `bit` of `value`.
pub fn set_bit(value: &mut u8, bit: usize)
    requires
        bit < 8,
    ensures
        *final(value) == with_bit(*old(value), bit, true),
{
    *value |= 1u8 << bit;
}

/// Clears bit `bit` of `value`.
pub fn clear_bit(value: &mut u8, bit: usize)
    requires
        bit < 8,
    ensures
        *final(value) == with_bit(*old(value), bit, false),
{
    *value &= !(1u8 << bit);
}

/// Reads bit `bit` of `value`.
pub fn get_bit(value: u8, bit: usize) -> (set: bool)
    requires
        bit < 8,
    ensures
        set == bit_is_set(value, bit),
{
    value & (1u8 << bit) > 0
}

/// The low byte of `reg`.
pub fn get_low_byte(reg: u16) -> (low: u8)
    ensures
        low == spec_low_byte(reg),
{
    proof {
        assert(reg & 0xff == reg % 256) by (bit_vector);
    }
    (reg & 0xff) as u8
}

/// The high byte of `reg`.
pub fn get_high_byte(reg: u16) -> (high: u8)
    ensures
        high == spec_high_byte(reg),
{
    proof {
        assert(reg >> 8 == reg / 256) by (bit_vector);
    }
    (reg >> 8) as u8
}

/// Replaces the low byte of `reg` by `val`, keeping the high byte.
pub fn set_low_byte(reg: &mut u16, val: u8)
    ensures
        *final(reg) == spec_join_bytes(spec_high_byte(*old(reg)), val),
{
    proof {
        let r = *old(reg);
        assert((r & 0xff00) | (val as u16) == (r / 256) * 256 + (val as u16)) by (bit_vector);
    }
    *reg &= 0xff00;
    *reg |= val as u16;
}

/// Replaces the high byte of `reg` by `val`, keeping the low byte.
pub fn set_high_byte(reg: &mut u16, val: u8)
    ensures
        *final(reg) == spec_join_bytes(val, spec_low_byte(*old(reg))),
{
    proof {
        let r = *old(reg);
        assert((r & 0x00ff) | ((val as u16) << 8) == (val as u16) * 256 + r % 256)
            by (bit_vector);
    }
    *reg &= 0x00ff;
    *reg |= (val as u16) << 8;
}

/// Joins two bytes into a 16-bit value, `high` first.
pub fn join_bytes(high: u8, low: u8) -> (word: u16)
    ensures
        word == spec_join_bytes(high, low),
{
    proof {
        assert(((high as u16) << 8) | (low as u16) == (high as u16) * 256 + (low as u16))
            by (bit_vector);
    }
    ((high as u16) << 8) | (low as u16)
}

/// Counts the set bits of `value`.
pub fn get_enabled_bits(value: u8) -> (n: u8)
    ensures
        n == count_low_bits(value, 8),
        n <= 8,
{
    let mut n: u8 = 0;
    let mut i: u8 = 0;
    while i < 8
        invariant
            i <= 8,
            n <= i,
            n == count_low_bits(value, i as nat),
        decreases 8 - i,
    {
        if (value >> i) & 0x1 == 0x1 {
            n += 1;
        }
        i += 1;
    }
    n
}

} // verus!
