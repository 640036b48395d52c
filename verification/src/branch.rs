//! The offset of a branch.
//!
//! A branch holds its target as a 24-bit two's-complement number of words,
//! relative to the branch. The decoder hands this number on as it stands: it
//! is neither scaled to a byte offset nor corrected for the position of the
//! program counter, both of which are left to whoever takes the branch.

use crate::fields::field;
use vstd::prelude::*;

verus! {

/// The largest 24-bit pattern: every value of a 24-bit field is at most this.
pub const INT24_MASK: u32 = 0xFF_FFFF;

/// The largest 24-bit pattern that stands for a number that is not negative.
pub const INT24_MAX: u32 = 0x7F_FFFF;

/// The number of 24-bit patterns, two to the power 24.
pub const INT24_MODULUS: i32 = 0x100_0000;

/// The number that the 24-bit pattern `value` stands for in two's complement:
/// `value` itself up to `2^23 - 1`, and `value - 2^24` above.
pub open spec fn sign_extend_24(value: int) -> int {
    if value > INT24_MAX {
        value - INT24_MODULUS
    } else {
        value
    }
}

/// The offset, in words, that the low 24 bits of `word` hold.
pub open spec fn branch_offset_of(word: u32) -> i32 {
    sign_extend_24(field(word, 0, 24)) as i32
}

/// Reads a 24-bit pattern as a two's-complement number.
///
/// The result lies between `-2^23` and `2^23 - 1` and differs from `value` by
/// nothing or by `2^24`.
pub fn decode_int24(value: &u32) -> (offset: i32)
    requires
        *value <= INT24_MASK,
    ensures
        offset == sign_extend_24(*value as int),
        -0x80_0000 <= offset <= 0x7F_FFFF,
        offset as int % 0x100_0000 == *value as int,
{
    if *value > INT24_MAX {
        return (*value as i32) - INT24_MODULUS;
    }
    *value as i32
}

/// Sign extension is one to one on 24-bit patterns, keeps the patterns up to
/// `2^23 - 1` as they are, and makes the others negative.
pub proof fn lemma_sign_extend_24(first: int, second: int)
    requires
        0 <= first <= INT24_MASK,
        0 <= second <= INT24_MASK,
    ensures
        sign_extend_24(first) == sign_extend_24(second) ==> first == second,
        first <= INT24_MAX ==> sign_extend_24(first) == first,
        first > INT24_MAX ==> sign_extend_24(first) == first - 0x100_0000 && sign_extend_24(first)
            < 0,
        sign_extend_24(INT24_MASK as int) == -1,
{
}

} // verus!
