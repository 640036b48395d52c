//! The instruction families and the fixed bits that tell them apart.
//!
//! Each family is known by the bits that every instruction of the family
//! sets the same way, and a word is tested for them by equality on the whole
//! of those bits. The tests are made in one order of priority: branch and
//! exchange, branch, data processing, and then the families of the rest of
//! the encoding space. The order decides only between branch and exchange
//! and data processing, whose tests overlap; no other two tests admit the
//! same word. A word that no test admits belongs to no family.

use crate::fields::{bit, extract, extract_u8, field, test_bit};
use vstd::prelude::*;

verus! {

/// What bits 27..4 of a branch and exchange hold.
pub const BRANCH_EXCHANGE_PATTERN: u32 = 0b0001_0010_1111_1111_1111_0000;

/// The family of instructions that a word belongs to.
#[derive(Clone, Copy, Debug, PartialEq, Eq)]
pub enum Family {
    /// Branch to the address in a register, and exchange the instruction set.
    BranchExchange,
    /// Branch, with or without link.
    Branch,
    /// The sixteen arithmetic, logical, moving and comparing operations.
    DataProcessing,
    /// Load or store of one word or byte.
    SingleDataTransfer,
    /// Load or store of several registers.
    BlockDataTransfer,
    /// Load or store of a coprocessor's registers.
    CoprocessorDataTransfer,
    /// An operation inside a coprocessor.
    CoprocessorDataOperation,
    /// A transfer between a register and a coprocessor's register.
    CoprocessorRegisterTransfer,
    /// Software interrupt.
    SoftwareInterrupt,
    /// No family: the word is not an instruction.
    Undefined,
}

/// Bits 27..4 hold the branch and exchange pattern.
pub open spec fn is_branch_exchange(word: u32) -> bool {
    field(word, 4, 24) == BRANCH_EXCHANGE_PATTERN
}

/// Bits 27..25 are `101`.
pub open spec fn is_branch(word: u32) -> bool {
    field(word, 25, 3) == 0b101
}

/// Bits 27..26 are `00`.
pub open spec fn is_data_processing(word: u32) -> bool {
    field(word, 26, 2) == 0b00
}

/// Bits 27..26 are `01`, and bits 25 and 4 are not both set: with a register
/// as the offset, bit 4 is clear.
pub open spec fn is_single_data_transfer(word: u32) -> bool {
    field(word, 26, 2) == 0b01 && !(bit(word, 25) && bit(word, 4))
}

/// Bits 27..25 are `100`.
pub open spec fn is_block_data_transfer(word: u32) -> bool {
    field(word, 25, 3) == 0b100
}

/// Bits 27..25 are `110`.
pub open spec fn is_coprocessor_data_transfer(word: u32) -> bool {
    field(word, 25, 3) == 0b110
}

/// Bits 27..24 are `1110` and bit 4 is clear.
pub open spec fn is_coprocessor_data_operation(word: u32) -> bool {
    field(word, 24, 4) == 0b1110 && !bit(word, 4)
}

/// Bits 27..24 are `1110` and bit 4 is set.
pub open spec fn is_coprocessor_register_transfer(word: u32) -> bool {
    field(word, 24, 4) == 0b1110 && bit(word, 4)
}

/// Bits 27..24 are `1111`.
pub open spec fn is_software_interrupt(word: u32) -> bool {
    field(word, 24, 4) == 0b1111
}

/// The family of `word`: that of the first test, in the order of priority,
/// that admits it, and `Undefined` where none does.
pub open spec fn family_of(word: u32) -> Family {
    if is_branch_exchange(word) {
        Family::BranchExchange
    } else if is_branch(word) {
        Family::Branch
    } else if is_data_processing(word) {
        Family::DataProcessing
    } else if is_single_data_transfer(word) {
        Family::SingleDataTransfer
    } else if is_block_data_transfer(word) {
        Family::BlockDataTransfer
    } else if is_coprocessor_data_transfer(word) {
        Family::CoprocessorDataTransfer
    } else if is_coprocessor_data_operation(word) {
        Family::CoprocessorDataOperation
    } else if is_coprocessor_register_transfer(word) {
        Family::CoprocessorRegisterTransfer
    } else if is_software_interrupt(word) {
        Family::SoftwareInterrupt
    } else {
        Family::Undefined
    }
}

/// Finds the family of an instruction word.
pub fn classify(instruction: &u32) -> (family: Family)
    ensures
        family == family_of(*instruction),
{
    let word: u32 = *instruction;
    let marker: bool = test_bit(word, 4);
    if extract(word, 4, 24) == BRANCH_EXCHANGE_PATTERN {
        Family::BranchExchange
    } else if extract_u8(word, 25, 3) == 0b101 {
        Family::Branch
    } else if extract_u8(word, 26, 2) == 0b00 {
        Family::DataProcessing
    } else if extract_u8(word, 26, 2) == 0b01 && !(test_bit(word, 25) && marker) {
        Family::SingleDataTransfer
    } else if extract_u8(word, 25, 3) == 0b100 {
        Family::BlockDataTransfer
    } else if extract_u8(word, 25, 3) == 0b110 {
        Family::CoprocessorDataTransfer
    } else if extract_u8(word, 24, 4) == 0b1110 && !marker {
        Family::CoprocessorDataOperation
    } else if extract_u8(word, 24, 4) == 0b1110 && marker {
        Family::CoprocessorRegisterTransfer
    } else if extract_u8(word, 24, 4) == 0b1111 {
        Family::SoftwareInterrupt
    } else {
        Family::Undefined
    }
}

/// A word belongs to no family exactly when bits 27..25 are `011` and bit 4
/// is set.
pub proof fn lemma_undefined_words(word: u32)
    ensures
        family_of(word) == Family::Undefined <==> field(word, 25, 3) == 0b011 && bit(word, 4),
{
    lemma_field_nesting(word);
}

/// How the fields that the tests read lie inside one another.
pub proof fn lemma_field_nesting(word: u32)
    ensures
        field(word, 26, 2) == field(word, 24, 4) / 4,
        field(word, 25, 3) == field(word, 24, 4) / 2,
        field(word, 24, 4) == field(word, 4, 24) / 0x10_0000,
        bit(word, 25) <==> field(word, 25, 3) % 2 == 1,
        bit(word, 4) <==> field(word, 4, 24) % 2 == 1,
{
    assert({
        &&& (word / 0x400_0000) % 0x4 == ((word / 0x100_0000) % 0x10) / 4
        &&& (word / 0x200_0000) % 0x8 == ((word / 0x100_0000) % 0x10) / 2
        &&& (word / 0x100_0000) % 0x10 == ((word / 0x10) % 0x100_0000) / 0x10_0000
        &&& (word / 0x200_0000) % 0x2 == ((word / 0x200_0000) % 0x8) % 2
        &&& (word / 0x10) % 0x2 == ((word / 0x10) % 0x100_0000) % 2
    }) by (bit_vector);
}

/// The tests of two families admit no common word, but for branch and
/// exchange, every word of which the test of data processing admits too.
pub proof fn lemma_tests_exclusive(word: u32)
    ensures
        is_branch_exchange(word) ==> is_data_processing(word),
        is_branch(word) ==> !is_branch_exchange(word) && !is_data_processing(word)
            && !is_single_data_transfer(word) && !is_block_data_transfer(word)
            && !is_coprocessor_data_transfer(word) && !is_coprocessor_data_operation(word)
            && !is_coprocessor_register_transfer(word) && !is_software_interrupt(word),
        is_data_processing(word) ==> !is_single_data_transfer(word) && !is_block_data_transfer(
            word,
        ) && !is_coprocessor_data_transfer(word) && !is_coprocessor_data_operation(word)
            && !is_coprocessor_register_transfer(word) && !is_software_interrupt(word),
        is_single_data_transfer(word) ==> !is_block_data_transfer(word)
            && !is_coprocessor_data_transfer(word) && !is_coprocessor_data_operation(word)
            && !is_coprocessor_register_transfer(word) && !is_software_interrupt(word),
        is_block_data_transfer(word) ==> !is_coprocessor_data_transfer(word)
            && !is_coprocessor_data_operation(word) && !is_coprocessor_register_transfer(word)
            && !is_software_interrupt(word),
        is_coprocessor_data_transfer(word) ==> !is_coprocessor_data_operation(word)
            && !is_coprocessor_register_transfer(word) && !is_software_interrupt(word),
        is_coprocessor_data_operation(word) ==> !is_coprocessor_register_transfer(word)
            && !is_software_interrupt(word),
        is_coprocessor_register_transfer(word) ==> !is_software_interrupt(word),
{
    lemma_field_nesting(word);
}

} // verus!
