//! The operation of an instruction.

use crate::branch::{branch_offset_of, decode_int24};
use crate::coprocessor::{
    coprocessor_data_operation_of, coprocessor_data_transfer_of,
    coprocessor_register_transfer_of, decode_coprocessor_data_operation,
    decode_coprocessor_data_transfer, decode_coprocessor_register_transfer,
    CoprocessorDataOperation, CoprocessorDataTransfer, CoprocessorRegisterTransfer,
};
use crate::data_processing::{
    data_processing_of, decode_data_processing, DataProcessingOperation,
};
use crate::family::{classify, family_of, Family};
use crate::fields::{bit, extract, extract_u8, field, test_bit};
use crate::register::{is_register, Register};
use crate::transfer::{
    block_data_transfer_of, decode_block_data_transfer, decode_single_data_transfer,
    single_data_transfer_of, BlockDataTransfer, SingleDataTransfer,
};
use vstd::prelude::*;

verus! {

/// What an instruction does, with what it does it to.
#[derive(Clone, Copy, Debug, PartialEq, Eq)]
pub enum Operation {
    /// Bitwise and. Operation code `0000`.
    AND(DataProcessingOperation),
    /// Bitwise exclusive or. Operation code `0001`.
    EOR(DataProcessingOperation),
    /// Subtract. Operation code `0010`.
    SUB(DataProcessingOperation),
    /// Subtract the first operand from the second. Operation code `0011`.
    RSB(DataProcessingOperation),
    /// Add. Operation code `0100`.
    ADD(DataProcessingOperation),
    /// Add with carry. Operation code `0101`.
    ADC(DataProcessingOperation),
    /// Subtract with carry. Operation code `0110`.
    SBC(DataProcessingOperation),
    /// Subtract the first operand from the second, with carry. Operation
    /// code `0111`.
    RSC(DataProcessingOperation),
    /// Test bits: and, for the flags only. Operation code `1000`.
    TST(DataProcessingOperation),
    /// Test equality: exclusive or, for the flags only. Operation code
    /// `1001`.
    TEQ(DataProcessingOperation),
    /// Compare: subtract, for the flags only. Operation code `1010`.
    CMP(DataProcessingOperation),
    /// Compare negated: add, for the flags only. Operation code `1011`.
    CMN(DataProcessingOperation),
    /// Bitwise or. Operation code `1100`.
    ORR(DataProcessingOperation),
    /// Move the second operand. Operation code `1101`.
    MOV(DataProcessingOperation),
    /// Clear the bits that are set in the second operand. Operation code
    /// `1110`.
    BIC(DataProcessingOperation),
    /// Move the complement of the second operand. Operation code `1111`.
    MVN(DataProcessingOperation),
    /// Branch. The offset counts words and is relative to the branch as
    /// encoded: it is not yet a byte offset and not yet corrected for the
    /// position of the program counter.
    B { offset: i32 },
    /// Branch with link. The offset is that of `B`.
    BL { offset: i32 },
    /// Branch to the address in a register and exchange the instruction set.
    BX { jump: Register },
    /// Load a word or byte.
    LDR(SingleDataTransfer),
    /// Store a word or byte.
    STR(SingleDataTransfer),
    /// Load several registers.
    LDM(BlockDataTransfer),
    /// Store several registers.
    STM(BlockDataTransfer),
    /// Load a coprocessor's registers from memory.
    LDC(CoprocessorDataTransfer),
    /// Store a coprocessor's registers to memory.
    STC(CoprocessorDataTransfer),
    /// An operation inside a coprocessor.
    CP(CoprocessorDataOperation),
    /// Move a register to a coprocessor's register.
    MCR(CoprocessorRegisterTransfer),
    /// Move a coprocessor's register to a register.
    MRC(CoprocessorRegisterTransfer),
    /// Software interrupt, with the 24 bits that the instruction leaves to
    /// the handler.
    SWI { comment: u32 },
    /// No instruction. The word is handed on whole, so that the caller can
    /// report it or trap.
    Undefined { word: u32 },
}

impl Operation {
    /// Whether each operand fits the bits that hold it.
    pub open spec fn wf(self) -> bool {
        match self {
            Operation::AND(operands)
            | Operation::EOR(operands)
            | Operation::SUB(operands)
            | Operation::RSB(operands)
            | Operation::ADD(operands)
            | Operation::ADC(operands)
            | Operation::SBC(operands)
            | Operation::RSC(operands)
            | Operation::TST(operands)
            | Operation::TEQ(operands)
            | Operation::CMP(operands)
            | Operation::CMN(operands)
            | Operation::ORR(operands)
            | Operation::MOV(operands)
            | Operation::BIC(operands)
            | Operation::MVN(operands) => operands.wf(),
            Operation::B { offset } | Operation::BL { offset } => -0x80_0000 <= offset
                <= 0x7F_FFFF,
            Operation::BX { jump } => is_register(jump),
            Operation::LDR(operands) | Operation::STR(operands) => operands.wf(),
            Operation::LDM(operands) | Operation::STM(operands) => operands.wf(),
            Operation::LDC(operands) | Operation::STC(operands) => operands.wf(),
            Operation::CP(operands) => operands.wf(),
            Operation::MCR(operands) | Operation::MRC(operands) => operands.wf(),
            Operation::SWI { comment } => comment <= 0xFF_FFFF,
            Operation::Undefined { word } => true,
        }
    }

    /// The family whose instructions perform this operation.
    pub open spec fn family(self) -> Family {
        match self {
            Operation::AND(_)
            | Operation::EOR(_)
            | Operation::SUB(_)
            | Operation::RSB(_)
            | Operation::ADD(_)
            | Operation::ADC(_)
            | Operation::SBC(_)
            | Operation::RSC(_)
            | Operation::TST(_)
            | Operation::TEQ(_)
            | Operation::CMP(_)
            | Operation::CMN(_)
            | Operation::ORR(_)
            | Operation::MOV(_)
            | Operation::BIC(_)
            | Operation::MVN(_) => Family::DataProcessing,
            Operation::B { .. } | Operation::BL { .. } => Family::Branch,
            Operation::BX { .. } => Family::BranchExchange,
            Operation::LDR(_) | Operation::STR(_) => Family::SingleDataTransfer,
            Operation::LDM(_) | Operation::STM(_) => Family::BlockDataTransfer,
            Operation::LDC(_) | Operation::STC(_) => Family::CoprocessorDataTransfer,
            Operation::CP(_) => Family::CoprocessorDataOperation,
            Operation::MCR(_) | Operation::MRC(_) => Family::CoprocessorRegisterTransfer,
            Operation::SWI { .. } => Family::SoftwareInterrupt,
            Operation::Undefined { .. } => Family::Undefined,
        }
    }

    /// The operands of a data-processing operation, and `None` for any other
    /// operation.
    pub open spec fn data_processing(self) -> Option<DataProcessingOperation> {
        match self {
            Operation::AND(operands)
            | Operation::EOR(operands)
            | Operation::SUB(operands)
            | Operation::RSB(operands)
            | Operation::ADD(operands)
            | Operation::ADC(operands)
            | Operation::SBC(operands)
            | Operation::RSC(operands)
            | Operation::TST(operands)
            | Operation::TEQ(operands)
            | Operation::CMP(operands)
            | Operation::CMN(operands)
            | Operation::ORR(operands)
            | Operation::MOV(operands)
            | Operation::BIC(operands)
            | Operation::MVN(operands) => Some(operands),
            _ => None,
        }
    }

    /// The operation code of a data-processing operation, and -1 for any
    /// other operation.
    pub open spec fn opcode(self) -> int {
        match self {
            Operation::AND(_) => 0b0000,
            Operation::EOR(_) => 0b0001,
            Operation::SUB(_) => 0b0010,
            Operation::RSB(_) => 0b0011,
            Operation::ADD(_) => 0b0100,
            Operation::ADC(_) => 0b0101,
            Operation::SBC(_) => 0b0110,
            Operation::RSC(_) => 0b0111,
            Operation::TST(_) => 0b1000,
            Operation::TEQ(_) => 0b1001,
            Operation::CMP(_) => 0b1010,
            Operation::CMN(_) => 0b1011,
            Operation::ORR(_) => 0b1100,
            Operation::MOV(_) => 0b1101,
            Operation::BIC(_) => 0b1110,
            Operation::MVN(_) => 0b1111,
            _ => -1,
        }
    }
}

/// The data-processing operation with the operation code `opcode`, on
/// `operands`.
pub open spec fn data_processing_operation(
    opcode: int,
    operands: DataProcessingOperation,
) -> Operation {
    if opcode == 0b0000 {
        Operation::AND(operands)
    } else if opcode == 0b0001 {
        Operation::EOR(operands)
    } else if opcode == 0b0010 {
        Operation::SUB(operands)
    } else if opcode == 0b0011 {
        Operation::RSB(operands)
    } else if opcode == 0b0100 {
        Operation::ADD(operands)
    } else if opcode == 0b0101 {
        Operation::ADC(operands)
    } else if opcode == 0b0110 {
        Operation::SBC(operands)
    } else if opcode == 0b0111 {
        Operation::RSC(operands)
    } else if opcode == 0b1000 {
        Operation::TST(operands)
    } else if opcode == 0b1001 {
        Operation::TEQ(operands)
    } else if opcode == 0b1010 {
        Operation::CMP(operands)
    } else if opcode == 0b1011 {
        Operation::CMN(operands)
    } else if opcode == 0b1100 {
        Operation::ORR(operands)
    } else if opcode == 0b1101 {
        Operation::MOV(operands)
    } else if opcode == 0b1110 {
        Operation::BIC(operands)
    } else {
        Operation::MVN(operands)
    }
}

/// The operation of the instruction `word`: its family decides how the word
/// is read, bits 24..21 select among the data-processing operations, bit 24
/// tells a branch with link from one without, bit 20 a load from a store.
pub open spec fn operation_of(word: u32) -> Operation {
    match family_of(word) {
        Family::BranchExchange => Operation::BX { jump: field(word, 0, 4) as u8 },
        Family::Branch => if bit(word, 24) {
            Operation::BL { offset: branch_offset_of(word) }
        } else {
            Operation::B { offset: branch_offset_of(word) }
        },
        Family::DataProcessing => data_processing_operation(
            field(word, 21, 4),
            data_processing_of(word),
        ),
        Family::SingleDataTransfer => if bit(word, 20) {
            Operation::LDR(single_data_transfer_of(word))
        } else {
            Operation::STR(single_data_transfer_of(word))
        },
        Family::BlockDataTransfer => if bit(word, 20) {
            Operation::LDM(block_data_transfer_of(word))
        } else {
            Operation::STM(block_data_transfer_of(word))
        },
        Family::CoprocessorDataTransfer => if bit(word, 20) {
            Operation::LDC(coprocessor_data_transfer_of(word))
        } else {
            Operation::STC(coprocessor_data_transfer_of(word))
        },
        Family::CoprocessorDataOperation => Operation::CP(coprocessor_data_operation_of(word)),
        Family::CoprocessorRegisterTransfer => if bit(word, 20) {
            Operation::MRC(coprocessor_register_transfer_of(word))
        } else {
            Operation::MCR(coprocessor_register_transfer_of(word))
        },
        Family::SoftwareInterrupt => Operation::SWI { comment: field(word, 0, 24) as u32 },
        Family::Undefined => Operation::Undefined { word },
    }
}

/// Selects the data-processing operation of a four-bit operation code.
pub fn decode_opcode(opcode: u8, operands: DataProcessingOperation) -> (op: Operation)
    requires
        opcode <= 0b1111,
    ensures
        op == data_processing_operation(opcode as int, operands),
        op.opcode() == opcode,
{
    match opcode {
        0b0000 => Operation::AND(operands),
        0b0001 => Operation::EOR(operands),
        0b0010 => Operation::SUB(operands),
        0b0011 => Operation::RSB(operands),
        0b0100 => Operation::ADD(operands),
        0b0101 => Operation::ADC(operands),
        0b0110 => Operation::SBC(operands),
        0b0111 => Operation::RSC(operands),
        0b1000 => Operation::TST(operands),
        0b1001 => Operation::TEQ(operands),
        0b1010 => Operation::CMP(operands),
        0b1011 => Operation::CMN(operands),
        0b1100 => Operation::ORR(operands),
        0b1101 => Operation::MOV(operands),
        0b1110 => Operation::BIC(operands),
        _ => Operation::MVN(operands),
    }
}

/// Decodes the operation of an instruction word.
///
/// Every word has an operation, which is `Undefined` exactly for the words
/// that belong to no family. The operation is of the family of the word,
/// and its operands fit the bits that hold them.
pub fn decode_operation(instruction: &u32) -> (op: Operation)
    ensures
        op == operation_of(*instruction),
        op.family() == family_of(*instruction),
        op.wf(),
{
    let word: u32 = *instruction;
    let load: bool = test_bit(word, 20);
    match classify(instruction) {
        Family::BranchExchange => Operation::BX { jump: extract_u8(word, 0, 4) },
        Family::Branch => {
            let offset: i32 = decode_int24(&extract(word, 0, 24));
            if test_bit(word, 24) {
                Operation::BL { offset }
            } else {
                Operation::B { offset }
            }
        },
        Family::DataProcessing => decode_opcode(
            extract_u8(word, 21, 4),
            decode_data_processing(instruction),
        ),
        Family::SingleDataTransfer => {
            let operands = decode_single_data_transfer(instruction);
            if load {
                Operation::LDR(operands)
            } else {
                Operation::STR(operands)
            }
        },
        Family::BlockDataTransfer => {
            let operands = decode_block_data_transfer(instruction);
            if load {
                Operation::LDM(operands)
            } else {
                Operation::STM(operands)
            }
        },
        Family::CoprocessorDataTransfer => {
            let operands = decode_coprocessor_data_transfer(instruction);
            if load {
                Operation::LDC(operands)
            } else {
                Operation::STC(operands)
            }
        },
        Family::CoprocessorDataOperation => Operation::CP(
            decode_coprocessor_data_operation(instruction),
        ),
        Family::CoprocessorRegisterTransfer => {
            let operands = decode_coprocessor_register_transfer(instruction);
            if load {
                Operation::MRC(operands)
            } else {
                Operation::MCR(operands)
            }
        },
        Family::SoftwareInterrupt => Operation::SWI { comment: extract(word, 0, 24) },
        Family::Undefined => Operation::Undefined { word },
    }
}

} // verus!
