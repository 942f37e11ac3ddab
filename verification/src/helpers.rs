//! Signed fixed-point codec for the INA3221 measurement registers.
//!
//! The chip stores each measurement as a 16-bit word whose upper 13 bits hold
//! a two's-complement magnitude and whose lower 3 bits are reserved. Encoding
//! shifts a count left by 3 (clearing the reserved bits); decoding normalizes
//! the sign bit by two's-complement negation and shifts right by 3, which
//! yields the magnitude of the stored count.

use vstd::prelude::*;
use vstd::arithmetic::div_mod::{
    lemma_div_is_ordered, lemma_div_is_ordered_by_denominator, lemma_div_pos_is_pos,
    lemma_small_mod,
};

verus! {

/// The 16-bit register word that encodes a signed count: the magnitude of the
/// count, shifted left by 3, truncated to 16 bits.
pub open spec fn encoded_word(value: int) -> u16 {
    (((if value < 0 {
        -value
    } else {
        value
    }) * 8) % 0x10000) as u16
}

/// The count decoded from a 16-bit register word: if the sign bit is set, the
/// word is replaced by its two's-complement negation, and the result is the
/// word shifted right by 3. The sign bit itself is discarded, so the decoded
/// count is the magnitude of the stored value.
pub open spec fn decoded_count(word: u16) -> int {
    if word >= 0x8000 {
        (0x10000 - word) / 8
    } else {
        (word as int) / 8
    }
}

/// Encodes a signed count into the chip's 13-bit-left-justified register
/// format. The low 3 bits of the result are always zero.
pub fn convert_to_12bit_signed(value: i32) -> (word: u16)
    requires
        value != i32::MIN,
    ensures
        word == encoded_word(value as int),
        word & 0x7 == 0,
{
    let magnitude: i32 = if value < 0 {
        -value
    } else {
        value
    };
    let wide: u32 = magnitude as u32;
    let word: u16 = (wide << 3) as u16;
    proof {
        assert(((wide << 3) as u16) as int == ((wide as int) * 8) % 0x10000 && ((wide << 3) as u16)
            & 0x7 == 0) by (bit_vector);
    }
    word
}

/// Decodes a register word into the magnitude of the stored count. Total over
/// the full 16-bit domain; the result always lies in `[0, 4096]`.
pub fn convert_from_12bit_signed(value: u16) -> (count: i32)
    ensures
        count == decoded_count(value),
        0 <= count <= 4096,
{
    proof {
        assert((value & 0x8000 != 0) == (value >= 0x8000)) by (bit_vector);
        assert(value >= 0x8000 ==> !value == 0xFFFF - value) by (bit_vector);
    }
    let normalized: u16 = if value & 0x8000 != 0 {
        !value + 1
    } else {
        value
    };
    let count: i32 = (normalized >> 3) as i32;
    proof {
        assert(normalized >> 3 == normalized / 8) by (bit_vector);
    }
    count
}

/// Division truncated toward zero, as the machine's signed division behaves.
pub open spec fn spec_div_toward_zero(value: int, divisor: int) -> int {
    if value >= 0 {
        value / divisor
    } else {
        -((-value) / divisor)
    }
}

/// Divides a signed count by a positive scale factor, truncating toward
/// zero. The magnitude strictly shrinks, so the quotient stays clear of the
/// ends of the 32-bit range.
pub(crate) fn div_toward_zero(value: i32, divisor: i32) -> (quotient: i32)
    requires
        2 <= divisor,
    ensures
        quotient == spec_div_toward_zero(value as int, divisor as int),
        i32::MIN < quotient < i32::MAX,
{
    if value >= 0 {
        let q: u32 = (value as u32) / (divisor as u32);
        proof {
            lemma_div_pos_is_pos(value as int, divisor as int);
            lemma_div_is_ordered_by_denominator(value as int, 2, divisor as int);
            lemma_div_is_ordered(value as int, 0x7FFFFFFF, 2);
        }
        q as i32
    } else {
        let magnitude: u64 = (-(value as i64)) as u64;
        let q: u64 = magnitude / (divisor as u64);
        proof {
            lemma_div_pos_is_pos(magnitude as int, divisor as int);
            lemma_div_is_ordered_by_denominator(magnitude as int, 2, divisor as int);
            lemma_div_is_ordered(magnitude as int, 0x80000000, 2);
        }
        -((q as u32) as i32)
    }
}

/// The codec round trip: for any count whose magnitude is at most 4096 — the
/// largest magnitude whose encoding stays within the sign-normalized range —
/// decoding the encoded word returns the magnitude of the count. The sign is
/// discarded on decode, so a negative count comes back negated.
pub proof fn lemma_codec_round_trip(value: int)
    requires
        -4096 <= value <= 4096,
    ensures
        decoded_count(encoded_word(value)) == if value < 0 {
            -value
        } else {
            value
        },
{
    let magnitude = if value < 0 {
        -value
    } else {
        value
    };
    let word = encoded_word(value);
    lemma_small_mod((magnitude * 8) as nat, 0x10000nat);
    assert(word == magnitude * 8);
    if magnitude < 4096 {
        assert(word < 0x8000);
        assert(decoded_count(word) == (magnitude * 8) / 8);
    } else {
        assert(word == 0x8000);
        assert(decoded_count(word) == (0x10000 - 0x8000) / 8);
    }
    assert((magnitude * 8) / 8 == magnitude) by (nonlinear_arith);
}

} // verus!
