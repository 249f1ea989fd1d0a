//! The tachometer encoding. The device keeps a count in two registers as
//! thirteen active-low bits, each with a weight of its own: a bit that is
//! clear adds its weight to the count, a bit that is set adds nothing.

use vstd::prelude::*;
use crate::registers::{FAN_TAC_HIGH_VAL, FAN_TAC_LOW_VAL};

verus! {

/// The largest tachometer count: every weight of both tables added.
pub const FAN_TAC_MAX: u16 = 8191;

/// Whether the bit of `byte` that lies `place` positions below its most
/// significant bit is clear.
pub open spec fn bit_is_clear(byte: u8, place: int) -> bool {
    byte & (0x80u8 >> place) == 0
}

/// The sum of the first `n` entries of `weights`, an entry counted only
/// where the bit of `byte` at its place, the most significant bit first, is
/// clear.
pub open spec fn clear_bit_weights(byte: u8, weights: Seq<u16>, n: nat) -> int
    decreases n,
{
    if n == 0 {
        0
    } else {
        clear_bit_weights(byte, weights, (n - 1) as nat) + if bit_is_clear(byte, n - 1) {
            weights[n - 1] as int
        } else {
            0
        }
    }
}

/// The tachometer count that the register pair `high`, `low` stands for:
/// all eight bits of `high` against the high table, then the top five bits
/// of `low` against the low table.
pub open spec fn tach_count(high: u8, low: u8) -> int {
    clear_bit_weights(high, FAN_TAC_HIGH_VAL@, 8) + clear_bit_weights(low, FAN_TAC_LOW_VAL@, 5)
}

/// Decodes the tachometer count from the two bytes of a register pair.
pub fn decode(high: u8, low: u8) -> (total: u16)
    ensures
        total == tach_count(high, low),
        total <= FAN_TAC_MAX,
{
    let mut total: u16 = 0;
    let mut tac_high: u8 = high;
    let mut tac_low: u8 = low;
    proof {
        lemma_shift_walks_bits(high, 0);
        lemma_shift_walks_bits(low, 0);
    }
    let mut i: usize = 0;
    while i < 8
        invariant
            i <= 8,
            tac_high == high << (i as u8),
            total == clear_bit_weights(high, FAN_TAC_HIGH_VAL@, i as nat),
        decreases 8 - i,
    {
        proof {
            lemma_shift_walks_bits(high, i as u8);
            lemma_partial_sums(high, i as nat);
        }
        let bit: bool = (tac_high & 0x80) == 0;
        tac_high = tac_high << 1;
        if bit {
            total += FAN_TAC_HIGH_VAL[i];
        }
        i += 1;
    }
    let mut j: usize = 0;
    while j < 5
        invariant
            j <= 5,
            tac_low == low << (j as u8),
            total == clear_bit_weights(high, FAN_TAC_HIGH_VAL@, 8) + clear_bit_weights(
                low,
                FAN_TAC_LOW_VAL@,
                j as nat,
            ),
        decreases 5 - j,
    {
        proof {
            lemma_shift_walks_bits(low, j as u8);
            lemma_partial_sums(high, 8);
            lemma_partial_sums(low, j as nat);
        }
        let bit: bool = (tac_low & 0x80) == 0;
        tac_low = tac_low << 1;
        if bit {
            total += FAN_TAC_LOW_VAL[j];
        }
        j += 1;
    }
    proof {
        lemma_tach_count_in_range(high, low);
    }
    total
}

/// A count never leaves the range from 0 to `FAN_TAC_MAX`.
pub proof fn lemma_tach_count_in_range(high: u8, low: u8)
    ensures
        0 <= tach_count(high, low) <= FAN_TAC_MAX,
{
    lemma_partial_sums(high, 8);
    lemma_partial_sums(low, 5);
}

/// The thirteen bits that a count is read from form a binary number, the
/// high byte above the top five bits of the low byte, and the count is what
/// that number lacks to `FAN_TAC_MAX`.
pub proof fn lemma_tach_count_is_complement(high: u8, low: u8)
    ensures
        tach_count(high, low) == FAN_TAC_MAX - (32 * high + low / 8),
{
    reveal_with_fuel(clear_bit_weights, 9);
    lemma_bit_masks();
    lemma_weights_complement(high, low);
}

/// The three lowest bits of the low byte are never consulted: two low bytes
/// that agree in their top five bits give the same count.
pub proof fn lemma_low_bits_carry_no_weight(high: u8, low: u8, other: u8)
    requires
        low & 0xf8 == other & 0xf8,
    ensures
        tach_count(high, low) == tach_count(high, other),
{
    lemma_tach_count_is_complement(high, low);
    lemma_tach_count_is_complement(high, other);
    assert(low / 8 == other / 8) by (bit_vector)
        requires
            low & 0xf8 == other & 0xf8,
    ;
}

/// `decode` keeps nothing between calls: whatever two calls on the same pair
/// of bytes return is the same count.
pub proof fn lemma_decode_is_repeatable(high: u8, low: u8, first: u16, second: u16)
    requires
        call_ensures(decode, (high, low), first),
        call_ensures(decode, (high, low), second),
    ensures
        first == second,
{
}

/// Shifting a byte left by `place` brings the bit at that place to the top,
/// and one more shift moves on to the next place.
proof fn lemma_shift_walks_bits(byte: u8, place: u8)
    by (bit_vector)
    requires
        place < 8,
    ensures
        byte << 0u8 == byte,
        ((byte << place) & 0x80 == 0) == (byte & (0x80u8 >> place) == 0),
        (byte << place) << 1u8 == byte << ((place + 1) as u8),
{
}

/// What the first `n` weights of either table can add up to.
proof fn lemma_partial_sums(byte: u8, n: nat)
    ensures
        n <= 8 ==> 0 <= clear_bit_weights(byte, FAN_TAC_HIGH_VAL@, n) <= 8160,
        n <= 5 ==> 0 <= clear_bit_weights(byte, FAN_TAC_LOW_VAL@, n) <= 31,
{
    reveal_with_fuel(clear_bit_weights, 9);
}

/// The mask of each place of a byte.
proof fn lemma_bit_masks()
    by (bit_vector)
    ensures
        0x80u8 >> 0u8 == 0x80u8,
        0x80u8 >> 1u8 == 0x40u8,
        0x80u8 >> 2u8 == 0x20u8,
        0x80u8 >> 3u8 == 0x10u8,
        0x80u8 >> 4u8 == 0x08u8,
        0x80u8 >> 5u8 == 0x04u8,
        0x80u8 >> 6u8 == 0x02u8,
        0x80u8 >> 7u8 == 0x01u8,
{
}

/// `weight` where `byte` has no bit of `mask` set, else nothing.
spec fn weight_if_clear(byte: u8, mask: u8, weight: u16) -> u16 {
    if byte & mask == 0 {
        weight
    } else {
        0
    }
}

/// The thirteen weights, each under its mask, against the binary number
/// that the same bits form.
proof fn lemma_weights_complement(high: u8, low: u8)
    by (bit_vector)
    ensures
        weight_if_clear(high, 0x80, 4096) + weight_if_clear(high, 0x40, 2048) + weight_if_clear(
            high,
            0x20,
            1024,
        ) + weight_if_clear(high, 0x10, 512) + weight_if_clear(high, 0x08, 256) + weight_if_clear(
            high,
            0x04,
            128,
        ) + weight_if_clear(high, 0x02, 64) + weight_if_clear(high, 0x01, 32) + weight_if_clear(
            low,
            0x80,
            16,
        ) + weight_if_clear(low, 0x40, 8) + weight_if_clear(low, 0x20, 4) + weight_if_clear(
            low,
            0x10,
            2,
        ) + weight_if_clear(low, 0x08, 1) == 8191 - (32 * high + low / 8),
{
}

} // verus!
