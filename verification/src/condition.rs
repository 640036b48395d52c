//! The condition under which an instruction executes.

use crate::fields::{extract_u8, field};
use vstd::prelude::*;

verus! {

/// The condition field of an instruction, bits 31..28 of its word.
#[derive(Clone, Copy, Debug, PartialEq, Eq)]
pub enum Cond {
    /// Equal.
    EQ,
    /// Not equal.
    NE,
    /// Carry set.
    CS,
    /// Carry clear.
    CC,
    /// Negative.
    MI,
    /// Positive or zero.
    PL,
    /// Overflow set.
    VS,
    /// Overflow clear.
    VC,
    /// Unsigned higher.
    HI,
    /// Unsigned lower or same.
    LS,
    /// Signed greater than or equal.
    GE,
    /// Signed less than.
    LT,
    /// Signed greater than.
    GT,
    /// Signed less than or equal.
    LE,
    /// Always.
    AL,
    /// The reserved pattern `1111`, which names no condition. It is kept
    /// apart from `AL` so that a caller can trap on it.
    NV,
}

impl Cond {
    /// The four-bit pattern that encodes this condition.
    pub open spec fn code(self) -> int {
        match self {
            Cond::EQ => 0b0000,
            Cond::NE => 0b0001,
            Cond::CS => 0b0010,
            Cond::CC => 0b0011,
            Cond::MI => 0b0100,
            Cond::PL => 0b0101,
            Cond::VS => 0b0110,
            Cond::VC => 0b0111,
            Cond::HI => 0b1000,
            Cond::LS => 0b1001,
            Cond::GE => 0b1010,
            Cond::LT => 0b1011,
            Cond::GT => 0b1100,
            Cond::LE => 0b1101,
            Cond::AL => 0b1110,
            Cond::NV => 0b1111,
        }
    }

    /// Whether this is one of the fifteen conditions, and not the reserved
    /// pattern.
    pub open spec fn is_defined(self) -> bool {
        self != Cond::NV
    }
}

/// The condition that the four-bit pattern `code` encodes.
pub open spec fn condition_from_code(code: int) -> Cond {
    if code == 0b0000 {
        Cond::EQ
    } else if code == 0b0001 {
        Cond::NE
    } else if code == 0b0010 {
        Cond::CS
    } else if code == 0b0011 {
        Cond::CC
    } else if code == 0b0100 {
        Cond::MI
    } else if code == 0b0101 {
        Cond::PL
    } else if code == 0b0110 {
        Cond::VS
    } else if code == 0b0111 {
        Cond::VC
    } else if code == 0b1000 {
        Cond::HI
    } else if code == 0b1001 {
        Cond::LS
    } else if code == 0b1010 {
        Cond::GE
    } else if code == 0b1011 {
        Cond::LT
    } else if code == 0b1100 {
        Cond::GT
    } else if code == 0b1101 {
        Cond::LE
    } else if code == 0b1110 {
        Cond::AL
    } else {
        Cond::NV
    }
}

/// The condition of the instruction `word`: the one that bits 31..28 encode.
pub open spec fn condition_of(word: u32) -> Cond {
    condition_from_code(field(word, 28, 4))
}

/// Decodes the condition field of an instruction word.
///
/// Every word has a condition. The reserved pattern `1111` gives `Cond::NV`
/// and nothing else does.
pub fn decode_cond(instruction: &u32) -> (cond: Cond)
    ensures
        cond == condition_of(*instruction),
        cond.code() == field(*instruction, 28, 4),
{
    let code: u8 = extract_u8(*instruction, 28, 4);
    match code {
        0b0000 => Cond::EQ,
        0b0001 => Cond::NE,
        0b0010 => Cond::CS,
        0b0011 => Cond::CC,
        0b0100 => Cond::MI,
        0b0101 => Cond::PL,
        0b0110 => Cond::VS,
        0b0111 => Cond::VC,
        0b1000 => Cond::HI,
        0b1001 => Cond::LS,
        0b1010 => Cond::GE,
        0b1011 => Cond::LT,
        0b1100 => Cond::GT,
        0b1101 => Cond::LE,
        0b1110 => Cond::AL,
        _ => Cond::NV,
    }
}

/// The conditions and the four-bit patterns correspond one to one: the
/// condition of a pattern has that pattern as its code, and the pattern of a
/// condition decodes to that condition.
pub proof fn lemma_condition_code_round_trip(code: int, cond: Cond)
    ensures
        0 <= code <= 15 ==> condition_from_code(code).code() == code,
        condition_from_code(cond.code()) == cond,
        0 <= cond.code() <= 15,
{
}

/// The condition of a word is the one whose code is the top four bits of the
/// word. In particular the word's condition is `AL` exactly for the pattern
/// `1110`, and the reserved `NV`, never `AL`, exactly for `1111`.
pub proof fn lemma_condition_of_word(word: u32)
    ensures
        condition_of(word).code() == field(word, 28, 4),
        condition_of(word) == Cond::AL <==> field(word, 28, 4) == 0b1110,
        condition_of(word) == Cond::NV <==> field(word, 28, 4) == 0b1111,
        condition_of(word).is_defined() <==> field(word, 28, 4) <= 0b1110,
{
}

/// Two words have the same condition exactly when their top four bits agree.
pub proof fn lemma_condition_depends_on_top_bits(first: u32, second: u32)
    ensures
        condition_of(first) == condition_of(second) <==> field(first, 28, 4) == field(
            second,
            28,
            4,
        ),
{
    lemma_condition_of_word(first);
    lemma_condition_of_word(second);
}

} // verus!
