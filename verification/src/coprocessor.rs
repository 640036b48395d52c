//! The operands of the coprocessor instructions.
//!
//! What a coprocessor makes of its operation codes and registers is its own
//! affair: the decoder reports each field as the number it holds.

use crate::fields::{bit, extract_u8, field, test_bit};
use crate::register::{is_register, Register};
use vstd::prelude::*;

verus! {

/// What a load or store of a coprocessor's registers works on.
#[derive(Clone, Copy, Debug, PartialEq, Eq)]
pub struct CoprocessorDataTransfer {
    /// The number of the coprocessor, bits 11..8.
    pub coprocessor: u8,
    /// The coprocessor's register that is loaded or stored, bits 15..12.
    pub register: u8,
    /// The base register, bits 19..16.
    pub base: Register,
    /// The offset from the base in words, bits 7..0.
    pub offset: u8,
    /// Whether the offset is applied before the transfer, bit 24.
    pub pre_indexed: bool,
    /// Whether the offset is added to the base, bit 23, and not subtracted.
    pub up: bool,
    /// The transfer length, bit 22.
    pub long: bool,
    /// Whether the address is written back to the base, bit 21.
    pub write_back: bool,
}

impl CoprocessorDataTransfer {
    /// Whether each part fits the bits that hold it.
    pub open spec fn wf(self) -> bool {
        &&& self.coprocessor <= 15
        &&& self.register <= 15
        &&& is_register(self.base)
    }
}

/// What an operation inside a coprocessor works on.
#[derive(Clone, Copy, Debug, PartialEq, Eq)]
pub struct CoprocessorDataOperation {
    /// The number of the coprocessor, bits 11..8.
    pub coprocessor: u8,
    /// The coprocessor's operation code, bits 23..20.
    pub opcode: u8,
    /// The coprocessor's destination register, bits 15..12.
    pub destination: u8,
    /// The coprocessor's first operand register, bits 19..16.
    pub operand1: u8,
    /// The coprocessor's second operand register, bits 3..0.
    pub operand2: u8,
    /// Further information for the coprocessor, bits 7..5.
    pub information: u8,
}

impl CoprocessorDataOperation {
    /// Whether each part fits the bits that hold it.
    pub open spec fn wf(self) -> bool {
        &&& self.coprocessor <= 15
        &&& self.opcode <= 15
        &&& self.destination <= 15
        &&& self.operand1 <= 15
        &&& self.operand2 <= 15
        &&& self.information <= 7
    }
}

/// What a transfer between a register and a coprocessor's register works on.
#[derive(Clone, Copy, Debug, PartialEq, Eq)]
pub struct CoprocessorRegisterTransfer {
    /// The number of the coprocessor, bits 11..8.
    pub coprocessor: u8,
    /// The coprocessor's operation code, bits 23..21.
    pub opcode: u8,
    /// The register that is read or written, bits 15..12.
    pub register: Register,
    /// The coprocessor's register that is written or read, bits 19..16.
    pub operand1: u8,
    /// A further register of the coprocessor, bits 3..0.
    pub operand2: u8,
    /// Further information for the coprocessor, bits 7..5.
    pub information: u8,
}

impl CoprocessorRegisterTransfer {
    /// Whether each part fits the bits that hold it.
    pub open spec fn wf(self) -> bool {
        &&& self.coprocessor <= 15
        &&& self.opcode <= 7
        &&& is_register(self.register)
        &&& self.operand1 <= 15
        &&& self.operand2 <= 15
        &&& self.information <= 7
    }
}

/// The operands that `word` encodes when read as a coprocessor data
/// transfer.
pub open spec fn coprocessor_data_transfer_of(word: u32) -> CoprocessorDataTransfer {
    CoprocessorDataTransfer {
        coprocessor: field(word, 8, 4) as u8,
        register: field(word, 12, 4) as u8,
        base: field(word, 16, 4) as u8,
        offset: field(word, 0, 8) as u8,
        pre_indexed: bit(word, 24),
        up: bit(word, 23),
        long: bit(word, 22),
        write_back: bit(word, 21),
    }
}

/// The operands that `word` encodes when read as a coprocessor data
/// operation.
pub open spec fn coprocessor_data_operation_of(word: u32) -> CoprocessorDataOperation {
    CoprocessorDataOperation {
        coprocessor: field(word, 8, 4) as u8,
        opcode: field(word, 20, 4) as u8,
        destination: field(word, 12, 4) as u8,
        operand1: field(word, 16, 4) as u8,
        operand2: field(word, 0, 4) as u8,
        information: field(word, 5, 3) as u8,
    }
}

/// The operands that `word` encodes when read as a coprocessor register
/// transfer.
pub open spec fn coprocessor_register_transfer_of(word: u32) -> CoprocessorRegisterTransfer {
    CoprocessorRegisterTransfer {
        coprocessor: field(word, 8, 4) as u8,
        opcode: field(word, 21, 3) as u8,
        register: field(word, 12, 4) as u8,
        operand1: field(word, 16, 4) as u8,
        operand2: field(word, 0, 4) as u8,
        information: field(word, 5, 3) as u8,
    }
}

/// Decodes the operands of a coprocessor data transfer.
pub fn decode_coprocessor_data_transfer(instruction: &u32) -> (operands: CoprocessorDataTransfer)
    ensures
        operands == coprocessor_data_transfer_of(*instruction),
        operands.wf(),
{
    let word: u32 = *instruction;
    CoprocessorDataTransfer {
        coprocessor: extract_u8(word, 8, 4),
        register: extract_u8(word, 12, 4),
        base: extract_u8(word, 16, 4),
        offset: extract_u8(word, 0, 8),
        pre_indexed: test_bit(word, 24),
        up: test_bit(word, 23),
        long: test_bit(word, 22),
        write_back: test_bit(word, 21),
    }
}

/// Decodes the operands of a coprocessor data operation.
pub fn decode_coprocessor_data_operation(instruction: &u32) -> (operands:
    CoprocessorDataOperation)
    ensures
        operands == coprocessor_data_operation_of(*instruction),
        operands.wf(),
{
    let word: u32 = *instruction;
    CoprocessorDataOperation {
        coprocessor: extract_u8(word, 8, 4),
        opcode: extract_u8(word, 20, 4),
        destination: extract_u8(word, 12, 4),
        operand1: extract_u8(word, 16, 4),
        operand2: extract_u8(word, 0, 4),
        information: extract_u8(word, 5, 3),
    }
}

/// Decodes the operands of a coprocessor register transfer.
pub fn decode_coprocessor_register_transfer(instruction: &u32) -> (operands:
    CoprocessorRegisterTransfer)
    ensures
        operands == coprocessor_register_transfer_of(*instruction),
        operands.wf(),
{
    let word: u32 = *instruction;
    CoprocessorRegisterTransfer {
        coprocessor: extract_u8(word, 8, 4),
        opcode: extract_u8(word, 21, 3),
        register: extract_u8(word, 12, 4),
        operand1: extract_u8(word, 16, 4),
        operand2: extract_u8(word, 0, 4),
        information: extract_u8(word, 5, 3),
    }
}

} // verus!
