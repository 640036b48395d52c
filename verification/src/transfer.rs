//! The operands of the loads and stores.
//!
//! A single data transfer moves one word or byte between a register and the
//! address that a base register and an offset give; a block data transfer
//! moves the registers of a list to or from the addresses that follow a
//! base register.

use crate::fields::{bit, extract_u16, extract_u8, field, test_bit};
use crate::register::{is_register, Register};
use vstd::prelude::*;

verus! {

/// The offset of a single data transfer.
#[derive(Clone, Copy, Debug, PartialEq, Eq)]
pub enum TransferOffset {
    /// A twelve-bit number, bits 11..0.
    Immediate { value: u16 },
    /// A register, bits 3..0, to which the shift described by bits 11..4 is
    /// applied. The shift descriptor is handed on as the eight bits it is;
    /// its lowest bit, bit 4 of the word, is clear.
    Register { register: Register, shift: u8 },
}

impl TransferOffset {
    /// Whether each part fits the bits that hold it.
    pub open spec fn wf(self) -> bool {
        match self {
            TransferOffset::Immediate { value } => value <= 0xFFF,
            TransferOffset::Register { register, shift } => is_register(register) && shift % 2
                == 0,
        }
    }
}

/// What a load or store of one word or byte works on.
#[derive(Clone, Copy, Debug, PartialEq, Eq)]
pub struct SingleDataTransfer {
    /// The register that is loaded or stored, bits 15..12.
    pub register: Register,
    /// The base register, bits 19..16.
    pub base: Register,
    /// The offset from the base: a register where bit 25 is set, else an
    /// immediate.
    pub offset: TransferOffset,
    /// Whether the offset is applied before the transfer, bit 24.
    pub pre_indexed: bool,
    /// Whether the offset is added to the base, bit 23, and not subtracted.
    pub up: bool,
    /// Whether a byte is transferred, bit 22, and not a word.
    pub byte: bool,
    /// Whether the address is written back to the base, bit 21.
    pub write_back: bool,
}

impl SingleDataTransfer {
    /// Whether each part fits the bits that hold it.
    pub open spec fn wf(self) -> bool {
        &&& is_register(self.register)
        &&& is_register(self.base)
        &&& self.offset.wf()
    }
}

/// What a load or store of several registers works on.
#[derive(Clone, Copy, Debug, PartialEq, Eq)]
pub struct BlockDataTransfer {
    /// The base register, bits 19..16.
    pub base: Register,
    /// The registers to transfer, bits 15..0: bit `n` stands for register
    /// `n`.
    pub registers: u16,
    /// Whether the address changes before each transfer, bit 24.
    pub pre_indexed: bool,
    /// Whether the addresses go up from the base, bit 23, and not down.
    pub up: bool,
    /// Whether the status register is loaded or the user bank transferred,
    /// bit 22.
    pub status: bool,
    /// Whether the address is written back to the base, bit 21.
    pub write_back: bool,
}

impl BlockDataTransfer {
    /// Whether each part fits the bits that hold it.
    pub open spec fn wf(self) -> bool {
        is_register(self.base)
    }
}

/// The offset that bits 25 and 11..0 of `word` encode.
pub open spec fn transfer_offset_of(word: u32) -> TransferOffset {
    if bit(word, 25) {
        TransferOffset::Register {
            register: field(word, 0, 4) as u8,
            shift: field(word, 4, 8) as u8,
        }
    } else {
        TransferOffset::Immediate { value: field(word, 0, 12) as u16 }
    }
}

/// The operands that `word` encodes when read as a single data transfer.
pub open spec fn single_data_transfer_of(word: u32) -> SingleDataTransfer {
    SingleDataTransfer {
        register: field(word, 12, 4) as u8,
        base: field(word, 16, 4) as u8,
        offset: transfer_offset_of(word),
        pre_indexed: bit(word, 24),
        up: bit(word, 23),
        byte: bit(word, 22),
        write_back: bit(word, 21),
    }
}

/// The operands that `word` encodes when read as a block data transfer.
pub open spec fn block_data_transfer_of(word: u32) -> BlockDataTransfer {
    BlockDataTransfer {
        base: field(word, 16, 4) as u8,
        registers: field(word, 0, 16) as u16,
        pre_indexed: bit(word, 24),
        up: bit(word, 23),
        status: bit(word, 22),
        write_back: bit(word, 21),
    }
}

/// Decodes the operands of a single data transfer.
///
/// The operands are well formed unless bits 25 and 4 of the word are both
/// set, which no single data transfer has.
pub fn decode_single_data_transfer(instruction: &u32) -> (operands: SingleDataTransfer)
    ensures
        operands == single_data_transfer_of(*instruction),
        operands.wf() <==> !(bit(*instruction, 25) && bit(*instruction, 4)),
{
    let word: u32 = *instruction;
    let offset = if test_bit(word, 25) {
        proof {
            lemma_shift_descriptor_parity(word);
        }
        TransferOffset::Register { register: extract_u8(word, 0, 4), shift: extract_u8(word, 4, 8) }
    } else {
        TransferOffset::Immediate { value: extract_u16(word, 0, 12) }
    };
    SingleDataTransfer {
        register: extract_u8(word, 12, 4),
        base: extract_u8(word, 16, 4),
        offset,
        pre_indexed: test_bit(word, 24),
        up: test_bit(word, 23),
        byte: test_bit(word, 22),
        write_back: test_bit(word, 21),
    }
}

/// Decodes the operands of a block data transfer.
pub fn decode_block_data_transfer(instruction: &u32) -> (operands: BlockDataTransfer)
    ensures
        operands == block_data_transfer_of(*instruction),
        operands.wf(),
{
    let word: u32 = *instruction;
    BlockDataTransfer {
        base: extract_u8(word, 16, 4),
        registers: extract_u16(word, 0, 16),
        pre_indexed: test_bit(word, 24),
        up: test_bit(word, 23),
        status: test_bit(word, 22),
        write_back: test_bit(word, 21),
    }
}

/// Bit 4 of a word is the lowest bit of the shift descriptor in bits 11..4.
pub proof fn lemma_shift_descriptor_parity(word: u32)
    ensures
        bit(word, 4) <==> field(word, 4, 8) % 2 == 1,
{
    assert((word / 0x10) % 0x2 == ((word / 0x10) % 0x100) % 2) by (bit_vector);
}

} // verus!
