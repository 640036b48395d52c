//! Bit fields of a 32-bit word.
//!
//! A field is named by the position of its lowest bit and by its width, bit 0
//! being the least significant. Its value is defined arithmetically, as a
//! quotient and a remainder by powers of two, so that a caller can reason
//! about it without bit-vector arguments; the extraction functions compute it
//! with a shift and a mask.

use vstd::arithmetic::power2::{lemma2_to64, pow2};
use vstd::bits::{
    lemma_u32_low_bits_mask_is_mod, lemma_u32_pow2_no_overflow, lemma_u32_shl_is_mul,
    lemma_u32_shr_is_div,
};
use vstd::prelude::*;

verus! {

/// Two to the power `n`, written out for every exponent that occurs with a
/// 32-bit word. Beyond 32 the value is that for 32.
#[verifier::inline]
pub open spec fn two_to(n: nat) -> int {
    if n == 0 {
        0x1
    } else if n == 1 {
        0x2
    } else if n == 2 {
        0x4
    } else if n == 3 {
        0x8
    } else if n == 4 {
        0x10
    } else if n == 5 {
        0x20
    } else if n == 6 {
        0x40
    } else if n == 7 {
        0x80
    } else if n == 8 {
        0x100
    } else if n == 9 {
        0x200
    } else if n == 10 {
        0x400
    } else if n == 11 {
        0x800
    } else if n == 12 {
        0x1000
    } else if n == 13 {
        0x2000
    } else if n == 14 {
        0x4000
    } else if n == 15 {
        0x8000
    } else if n == 16 {
        0x1_0000
    } else if n == 17 {
        0x2_0000
    } else if n == 18 {
        0x4_0000
    } else if n == 19 {
        0x8_0000
    } else if n == 20 {
        0x10_0000
    } else if n == 21 {
        0x20_0000
    } else if n == 22 {
        0x40_0000
    } else if n == 23 {
        0x80_0000
    } else if n == 24 {
        0x100_0000
    } else if n == 25 {
        0x200_0000
    } else if n == 26 {
        0x400_0000
    } else if n == 27 {
        0x800_0000
    } else if n == 28 {
        0x1000_0000
    } else if n == 29 {
        0x2000_0000
    } else if n == 30 {
        0x4000_0000
    } else if n == 31 {
        0x8000_0000
    } else {
        0x1_0000_0000
    }
}

/// The number held by the `width` bits of `word` that start at bit `low`:
/// the quotient of `word` by `2^low`, reduced modulo `2^width`.
pub open spec fn field(word: u32, low: nat, width: nat) -> int {
    (word as int / two_to(low)) % two_to(width)
}

/// Whether bit `index` of `word` is set.
pub open spec fn bit(word: u32, index: nat) -> bool {
    field(word, index, 1) == 1
}

/// The table `two_to` agrees with the power of two up to the exponent 32.
pub proof fn lemma_two_to_is_power(n: nat)
    requires
        n <= 32,
    ensures
        two_to(n) == pow2(n),
{
    lemma2_to64();
}

/// A field is a natural number below two to the power of its width.
pub proof fn lemma_field_range(word: u32, low: nat, width: nat)
    ensures
        0 <= field(word, low, width) < two_to(width),
{
}

/// Extracts the `width` bits of `word` that start at bit `low`.
pub fn extract(word: u32, low: u32, width: u32) -> (value: u32)
    requires
        1 <= width,
        low + width <= 32,
    ensures
        value == field(word, low as nat, width as nat),
{
    let shifted: u32 = word >> low;
    proof {
        lemma_u32_shr_is_div(word, low);
        lemma_two_to_is_power(low as nat);
        lemma_two_to_is_power(width as nat);
    }
    if width == 32 {
        shifted
    } else {
        proof {
            lemma_u32_pow2_no_overflow(width as nat);
            lemma_u32_shl_is_mul(1u32, width);
            lemma_u32_low_bits_mask_is_mod(shifted, width as nat);
        }
        let mask: u32 = (1u32 << width) - 1;
        shifted & mask
    }
}

/// Extracts a field of at most eight bits as a byte.
pub fn extract_u8(word: u32, low: u32, width: u32) -> (value: u8)
    requires
        1 <= width <= 8,
        low + width <= 32,
    ensures
        value == field(word, low as nat, width as nat),
{
    let wide: u32 = extract(word, low, width);
    wide as u8
}

/// Extracts a field of at most sixteen bits as a half word.
pub fn extract_u16(word: u32, low: u32, width: u32) -> (value: u16)
    requires
        1 <= width <= 16,
        low + width <= 32,
    ensures
        value == field(word, low as nat, width as nat),
{
    let wide: u32 = extract(word, low, width);
    wide as u16
}

/// Tests bit `index` of `word`.
pub fn test_bit(word: u32, index: u32) -> (set: bool)
    requires
        index < 32,
    ensures
        set == bit(word, index as nat),
{
    extract(word, index, 1) == 1
}

} // verus!
