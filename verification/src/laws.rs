//! What holds of the decoder on every word.
//!
//! The lemmas of this module are stated over the functions that the
//! contracts of the decoder use, so that each is a statement about what
//! [`decode_arm_instruction`](crate::instruction::decode_arm_instruction)
//! returns.

use crate::branch::{sign_extend_24, INT24_MASK, INT24_MAX};
use crate::condition::condition_from_code;
use crate::data_processing::{data_processing_of, DataProcessingOperation, Operand2};
use crate::family::{
    family_of, is_block_data_transfer, is_branch, is_branch_exchange,
    is_coprocessor_data_operation, is_coprocessor_data_transfer,
    is_coprocessor_register_transfer, is_data_processing, is_single_data_transfer,
    is_software_interrupt, lemma_tests_exclusive, lemma_undefined_words, Family,
    BRANCH_EXCHANGE_PATTERN,
};
use crate::fields::{bit, field};
use crate::instruction::{instruction_of, ArmInstruction};
use crate::operation::{data_processing_operation, operation_of, Operation};
use crate::transfer::lemma_shift_descriptor_parity;
use vstd::prelude::*;

verus! {

/// The operation of a word is of the family of the word, and its operands
/// fit the bits that hold them. So no word decodes to an operation of a
/// family whose test it fails.
pub proof fn lemma_operation_of_its_family(word: u32)
    ensures
        operation_of(word).family() == family_of(word),
        operation_of(word).wf(),
        instruction_of(word).wf(),
{
    lemma_tests_exclusive(word);
    lemma_shift_descriptor_parity(word);
}

/// A word decodes to `Undefined` exactly when no family's test admits it;
/// the operation then holds the word itself. These are the words whose bits
/// 27..25 are `011` and whose bit 4 is set.
pub proof fn lemma_unmatched_word_is_undefined(word: u32)
    ensures
        operation_of(word) is Undefined <==> !is_branch_exchange(word) && !is_branch(word)
            && !is_data_processing(word) && !is_single_data_transfer(word)
            && !is_block_data_transfer(word) && !is_coprocessor_data_transfer(word)
            && !is_coprocessor_data_operation(word) && !is_coprocessor_register_transfer(word)
            && !is_software_interrupt(word),
        operation_of(word) is Undefined <==> operation_of(word) == (Operation::Undefined { word }),
        operation_of(word) is Undefined <==> field(word, 25, 3) == 0b011 && bit(word, 4),
{
    lemma_operation_of_its_family(word);
    lemma_undefined_words(word);
}

/// A word decodes to `BX`, to a branch or to a data-processing operation
/// exactly when the test of that family admits it, and for data processing
/// when it is no branch and exchange besides. A word that the three tests
/// refuse decodes to none of these operations.
pub proof fn lemma_no_operation_without_its_test(word: u32)
    ensures
        operation_of(word) is BX <==> is_branch_exchange(word),
        operation_of(word) is B || operation_of(word) is BL <==> is_branch(word),
        operation_of(word).data_processing() is Some <==> is_data_processing(word)
            && !is_branch_exchange(word),
        operation_of(word).opcode() >= 0 <==> is_data_processing(word) && !is_branch_exchange(
            word,
        ),
{
    lemma_operation_of_its_family(word);
    lemma_tests_exclusive(word);
}

/// A word with the branch and exchange pattern in bits 27..4 decodes to `BX`
/// of the register that bits 3..0 name, whichever of the sixteen it is.
pub proof fn lemma_branch_exchange(word: u32)
    requires
        is_branch_exchange(word),
    ensures
        operation_of(word) == (Operation::BX { jump: field(word, 0, 4) as u8 }),
        0 <= field(word, 0, 4) <= 15,
{
}

/// The word made of a condition pattern, the branch and exchange pattern
/// and a register number decodes to that condition and to `BX` of that
/// register.
pub proof fn lemma_branch_exchange_of_register(word: u32, code: u32, register: u8)
    requires
        code <= 15,
        register <= 15,
        word == code * 0x1000_0000 + BRANCH_EXCHANGE_PATTERN * 0x10 + register,
    ensures
        instruction_of(word) == (ArmInstruction {
            cond: condition_from_code(code as int),
            op: Operation::BX { jump: register },
        }),
{
    assert({
        &&& (word / 0x1000_0000) % 0x10 == code
        &&& (word / 0x10) % 0x100_0000 == 0x12_FFF0
        &&& (word / 0x1) % 0x10 == register
    }) by (bit_vector)
        requires
            code <= 15,
            register <= 15,
            word == code * 0x1000_0000 + 0x12_FFF0u32 * 0x10 + register,
    ;
}

/// A word whose bits 27..25 are `101` decodes to `BL` where bit 24 is set
/// and to `B` where it is clear. Either way the offset is the number that
/// bits 23..0 stand for in two's complement: the bits themselves up to
/// `2^23 - 1`, and the bits less `2^24` above.
pub proof fn lemma_branch(word: u32)
    requires
        is_branch(word),
    ensures
        bit(word, 24) ==> operation_of(word) == (Operation::BL {
            offset: sign_extend_24(field(word, 0, 24)) as i32,
        }),
        !bit(word, 24) ==> operation_of(word) == (Operation::B {
            offset: sign_extend_24(field(word, 0, 24)) as i32,
        }),
        sign_extend_24(field(word, 0, 24)) as i32 == sign_extend_24(field(word, 0, 24)),
        field(word, 0, 24) <= INT24_MAX ==> sign_extend_24(field(word, 0, 24)) == field(
            word,
            0,
            24,
        ),
        field(word, 0, 24) > INT24_MAX ==> sign_extend_24(field(word, 0, 24)) == field(
            word,
            0,
            24,
        ) - 0x100_0000,
{
    lemma_tests_exclusive(word);
}

/// The word made of a condition pattern, the branch bits, a link bit and a
/// 24-bit offset pattern decodes to that condition and to a branch, with
/// link where the link bit is set, by the number that the pattern stands
/// for.
pub proof fn lemma_branch_of_offset(word: u32, code: u32, link: bool, pattern: u32)
    requires
        code <= 15,
        pattern <= INT24_MASK,
        word == code * 0x1000_0000 + 0xA00_0000 + (if link {
            0x100_0000int
        } else {
            0int
        }) + pattern,
    ensures
        instruction_of(word) == (ArmInstruction {
            cond: condition_from_code(code as int),
            op: if link {
                Operation::BL { offset: sign_extend_24(pattern as int) as i32 }
            } else {
                Operation::B { offset: sign_extend_24(pattern as int) as i32 }
            },
        }),
{
    let mark: u32 = if link {
        1
    } else {
        0
    };
    assert({
        &&& (word / 0x1000_0000) % 0x10 == code
        &&& (word / 0x10) % 0x100_0000 != 0x12_FFF0
        &&& (word / 0x200_0000) % 0x8 == 0b101
        &&& (word / 0x100_0000) % 0x2 == mark
        &&& (word / 0x1) % 0x100_0000 == pattern
    }) by (bit_vector)
        requires
            code <= 15,
            pattern <= 0xFF_FFFF,
            mark <= 1,
            word == code * 0x1000_0000 + 0xA00_0000 + mark * 0x100_0000 + pattern,
    ;
}

/// A word whose bits 27..26 are `00`, and which is no branch and exchange,
/// decodes to the data-processing operation that bits 24..21 select. Its
/// operands are read from the word bit for bit: the first operand register
/// from bits 19..16, the destination from bits 15..12, the flag from bit 20,
/// and the second operand from bits 11..0, as an immediate with its rotation
/// where bit 25 is set and as a register with its shift where it is clear.
pub proof fn lemma_data_processing(word: u32)
    requires
        is_data_processing(word),
        !is_branch_exchange(word),
    ensures
        operation_of(word) == data_processing_operation(
            field(word, 21, 4),
            data_processing_of(word),
        ),
        operation_of(word).opcode() == field(word, 21, 4),
        operation_of(word).data_processing() == Some(data_processing_of(word)),
        data_processing_of(word).operand1 == field(word, 16, 4),
        data_processing_of(word).destination == field(word, 12, 4),
        data_processing_of(word).set_flag == bit(word, 20),
        bit(word, 25) ==> data_processing_of(word).operand2 == (Operand2::Immediate {
            value: field(word, 0, 8) as u8,
            rotate: field(word, 8, 4) as u8,
        }) && field(word, 0, 8) as u8 == field(word, 0, 8) && field(word, 8, 4) as u8 == field(
            word,
            8,
            4,
        ),
        !bit(word, 25) ==> data_processing_of(word).operand2 == (Operand2::Register {
            register: field(word, 0, 4) as u8,
            shift: field(word, 4, 8) as u8,
        }) && field(word, 0, 4) as u8 == field(word, 0, 4) && field(word, 4, 8) as u8 == field(
            word,
            4,
            8,
        ),
{
    lemma_tests_exclusive(word);
}

/// The twelve bits that encode a second operand: the rotation above the
/// value of an immediate, the shift above the number of a register.
pub open spec fn operand2_bits(operand: Operand2) -> int {
    match operand {
        Operand2::Immediate { value, rotate } => rotate * 0x100 + value,
        Operand2::Register { register, shift } => shift * 0x10 + register,
    }
}

/// The word made of a condition pattern, an operation code and operands,
/// each in its own bits, decodes to that condition, to the operation that
/// the code selects and to those operands, unless it is a branch and
/// exchange. So every part of a data-processing instruction is read from
/// its own bits, and none is derived from another.
pub proof fn lemma_data_processing_of_operands(
    word: u32,
    code: u32,
    opcode: u32,
    operands: DataProcessingOperation,
)
    requires
        code <= 15,
        opcode <= 15,
        operands.wf(),
        word == code * 0x1000_0000 + (if operands.operand2 is Immediate {
            0x200_0000int
        } else {
            0int
        }) + opcode * 0x20_0000 + (if operands.set_flag {
            0x10_0000int
        } else {
            0int
        }) + operands.operand1 * 0x1_0000 + operands.destination * 0x1000 + operand2_bits(
            operands.operand2,
        ),
        !is_branch_exchange(word),
    ensures
        instruction_of(word) == (ArmInstruction {
            cond: condition_from_code(code as int),
            op: data_processing_operation(opcode as int, operands),
        }),
{
    let immediate: u32 = if operands.operand2 is Immediate {
        1
    } else {
        0
    };
    let flag: u32 = if operands.set_flag {
        1
    } else {
        0
    };
    let first: u32 = operands.operand1 as u32;
    let destination: u32 = operands.destination as u32;
    let (high, low): (u32, u32) = match operands.operand2 {
        Operand2::Immediate { value, rotate } => (rotate as u32, value as u32),
        Operand2::Register { register, shift } => (shift as u32, register as u32),
    };
    assert({
        &&& (word / 0x1000_0000) % 0x10 == code
        &&& (word / 0x200_0000) % 0x8 == immediate
        &&& (word / 0x400_0000) % 0x4 == 0
        &&& (word / 0x200_0000) % 0x2 == immediate
        &&& (word / 0x20_0000) % 0x10 == opcode
        &&& (word / 0x10_0000) % 0x2 == flag
        &&& (word / 0x1_0000) % 0x10 == first
        &&& (word / 0x1000) % 0x10 == destination
    }) by (bit_vector)
        requires
            code <= 15,
            opcode <= 15,
            immediate <= 1,
            flag <= 1,
            first <= 15,
            destination <= 15,
            high <= 0xFF,
            low <= 0xFF,
            immediate == 1 ==> high <= 0xF,
            immediate == 0 ==> low <= 0xF,
            word == code * 0x1000_0000 + immediate * 0x200_0000 + opcode * 0x20_0000 + flag
                * 0x10_0000 + first * 0x1_0000 + destination * 0x1000 + (if immediate == 1 {
                high * 0x100 + low
            } else {
                high * 0x10 + low
            }),
    ;
    assert({
        &&& immediate == 1 ==> (word / 0x1) % 0x100 == low && (word / 0x100) % 0x10 == high
        &&& immediate == 0 ==> (word / 0x1) % 0x10 == low && (word / 0x10) % 0x100 == high
    }) by (bit_vector)
        requires
            code <= 15,
            opcode <= 15,
            immediate <= 1,
            flag <= 1,
            first <= 15,
            destination <= 15,
            high <= 0xFF,
            low <= 0xFF,
            immediate == 1 ==> high <= 0xF,
            immediate == 0 ==> low <= 0xF,
            word == code * 0x1000_0000 + immediate * 0x200_0000 + opcode * 0x20_0000 + flag
                * 0x10_0000 + first * 0x1_0000 + destination * 0x1000 + (if immediate == 1 {
                high * 0x100 + low
            } else {
                high * 0x10 + low
            }),
    ;
}

/// The operation of a word does not depend on its condition bits: two words
/// that agree on bits 27..0 are of one family and, unless they are of none,
/// decode to one operation. The condition, for its part, depends on bits
/// 31..28 alone.
pub proof fn lemma_operation_ignores_condition(first: u32, second: u32)
    requires
        field(first, 0, 28) == field(second, 0, 28),
    ensures
        family_of(first) == family_of(second),
        family_of(first) != Family::Undefined ==> operation_of(first) == operation_of(second),
{
    assert({
        &&& (first / 0x10) % 0x100_0000 == (second / 0x10) % 0x100_0000
        &&& (first / 0x1) % 0x100_0000 == (second / 0x1) % 0x100_0000
        &&& (first / 0x1) % 0x1_0000 == (second / 0x1) % 0x1_0000
        &&& (first / 0x1) % 0x1000 == (second / 0x1) % 0x1000
        &&& (first / 0x1) % 0x100 == (second / 0x1) % 0x100
        &&& (first / 0x1) % 0x10 == (second / 0x1) % 0x10
        &&& (first / 0x10) % 0x100 == (second / 0x10) % 0x100
        &&& (first / 0x10) % 0x2 == (second / 0x10) % 0x2
        &&& (first / 0x20) % 0x8 == (second / 0x20) % 0x8
        &&& (first / 0x100) % 0x10 == (second / 0x100) % 0x10
        &&& (first / 0x1000) % 0x10 == (second / 0x1000) % 0x10
        &&& (first / 0x1_0000) % 0x10 == (second / 0x1_0000) % 0x10
        &&& (first / 0x10_0000) % 0x10 == (second / 0x10_0000) % 0x10
        &&& (first / 0x10_0000) % 0x2 == (second / 0x10_0000) % 0x2
        &&& (first / 0x20_0000) % 0x10 == (second / 0x20_0000) % 0x10
        &&& (first / 0x20_0000) % 0x8 == (second / 0x20_0000) % 0x8
        &&& (first / 0x20_0000) % 0x2 == (second / 0x20_0000) % 0x2
        &&& (first / 0x40_0000) % 0x2 == (second / 0x40_0000) % 0x2
        &&& (first / 0x80_0000) % 0x2 == (second / 0x80_0000) % 0x2
        &&& (first / 0x100_0000) % 0x2 == (second / 0x100_0000) % 0x2
        &&& (first / 0x100_0000) % 0x10 == (second / 0x100_0000) % 0x10
        &&& (first / 0x200_0000) % 0x2 == (second / 0x200_0000) % 0x2
        &&& (first / 0x200_0000) % 0x8 == (second / 0x200_0000) % 0x8
        &&& (first / 0x400_0000) % 0x4 == (second / 0x400_0000) % 0x4
    }) by (bit_vector)
        requires
            (first / 0x1) % 0x1000_0000 == (second / 0x1) % 0x1000_0000,
    ;
}

/// The sixteen operation codes select sixteen different operations, each
/// on the operands it was given.
pub proof fn lemma_opcode_selects_one_operation(
    opcode: int,
    operands: DataProcessingOperation,
    other_opcode: int,
    other_operands: DataProcessingOperation,
)
    requires
        0 <= opcode <= 15,
        0 <= other_opcode <= 15,
    ensures
        data_processing_operation(opcode, operands).opcode() == opcode,
        data_processing_operation(opcode, operands).data_processing() == Some(operands),
        data_processing_operation(opcode, operands).family() == Family::DataProcessing,
        data_processing_operation(opcode, operands) == data_processing_operation(
            other_opcode,
            other_operands,
        ) <==> opcode == other_opcode && operands == other_operands,
{
}

} // verus!
