//! The operands of a data-processing instruction.
//!
//! All sixteen data-processing operations share one layout. Bit 25 says
//! whether the second operand is an immediate, bit 20 whether the operation
//! updates the condition flags, bits 19..16 name the first operand register,
//! bits 15..12 the destination register, and bits 11..0 hold the second
//! operand. Each part is read from its own bits; none is derived from
//! another.

use crate::fields::{bit, extract_u8, field, test_bit};
use crate::register::{is_register, Register};
use vstd::prelude::*;

verus! {

/// The second operand of a data-processing instruction.
#[derive(Clone, Copy, Debug, PartialEq, Eq)]
pub enum Operand2 {
    /// A register, bits 3..0, to which the shift described by bits 11..4 is
    /// applied. The shift descriptor is handed on as the eight bits it is.
    Register { register: Register, shift: u8 },
    /// An eight-bit value, bits 7..0, with a four-bit rotation, bits 11..8.
    /// The rotation is reported as encoded and is not applied to the value.
    Immediate { value: u8, rotate: u8 },
}

impl Operand2 {
    /// Whether each part fits the bits that hold it.
    pub open spec fn wf(self) -> bool {
        match self {
            Operand2::Register { register, shift } => is_register(register),
            Operand2::Immediate { value, rotate } => rotate <= 15,
        }
    }
}

/// What a data-processing instruction works on.
#[derive(Clone, Copy, Debug, PartialEq, Eq)]
pub struct DataProcessingOperation {
    /// The register that takes the result.
    pub destination: Register,
    /// Whether the operation updates the condition flags. This is bit 20 as
    /// encoded, also for the comparing operations, which update the flags
    /// whatever the bit says.
    pub set_flag: bool,
    /// The register that holds the first operand.
    pub operand1: Register,
    /// The second operand.
    pub operand2: Operand2,
}

impl DataProcessingOperation {
    /// Whether each part fits the bits that hold it.
    pub open spec fn wf(self) -> bool {
        &&& is_register(self.destination)
        &&& is_register(self.operand1)
        &&& self.operand2.wf()
    }
}

/// The second operand that bits 25 and 11..0 of `word` encode.
pub open spec fn operand2_of(word: u32) -> Operand2 {
    if bit(word, 25) {
        Operand2::Immediate { value: field(word, 0, 8) as u8, rotate: field(word, 8, 4) as u8 }
    } else {
        Operand2::Register { register: field(word, 0, 4) as u8, shift: field(word, 4, 8) as u8 }
    }
}

/// The operands that `word` encodes when read as a data-processing
/// instruction.
pub open spec fn data_processing_of(word: u32) -> DataProcessingOperation {
    DataProcessingOperation {
        destination: field(word, 12, 4) as u8,
        set_flag: bit(word, 20),
        operand1: field(word, 16, 4) as u8,
        operand2: operand2_of(word),
    }
}

/// Decodes the second operand of a data-processing instruction.
pub fn decode_operand2(instruction: &u32) -> (operand: Operand2)
    ensures
        operand == operand2_of(*instruction),
        operand.wf(),
{
    let word: u32 = *instruction;
    if test_bit(word, 25) {
        Operand2::Immediate { value: extract_u8(word, 0, 8), rotate: extract_u8(word, 8, 4) }
    } else {
        Operand2::Register { register: extract_u8(word, 0, 4), shift: extract_u8(word, 4, 8) }
    }
}

/// Decodes the operands of a data-processing instruction.
pub fn decode_data_processing(instruction: &u32) -> (operands: DataProcessingOperation)
    ensures
        operands == data_processing_of(*instruction),
        operands.wf(),
{
    let word: u32 = *instruction;
    DataProcessingOperation {
        destination: extract_u8(word, 12, 4),
        set_flag: test_bit(word, 20),
        operand1: extract_u8(word, 16, 4),
        operand2: decode_operand2(instruction),
    }
}

} // verus!
