//! A decoded instruction.

use crate::condition::{condition_of, decode_cond, Cond};
use crate::family::family_of;
use crate::operation::{decode_operation, operation_of, Operation};
use vstd::prelude::*;

verus! {

/// An instruction: the condition under which it executes, and what it does.
#[derive(Clone, Copy, Debug, PartialEq, Eq)]
pub struct ArmInstruction {
    /// The condition, from bits 31..28 of the word.
    pub cond: Cond,
    /// The operation, from bits 27..0 of the word.
    pub op: Operation,
}

impl ArmInstruction {
    /// Whether each operand of the operation fits the bits that hold it.
    pub open spec fn wf(self) -> bool {
        self.op.wf()
    }
}

/// The instruction that `word` encodes.
pub open spec fn instruction_of(word: u32) -> ArmInstruction {
    ArmInstruction { cond: condition_of(word), op: operation_of(word) }
}

/// Decodes an instruction word.
///
/// Decoding is defined for every word and depends on nothing but the word.
/// A word with the reserved condition pattern decodes to the condition `NV`,
/// and a word of no family to the operation `Undefined`.
pub fn decode_arm_instruction(instruction: &u32) -> (decoded: ArmInstruction)
    ensures
        decoded == instruction_of(*instruction),
        decoded.cond == condition_of(*instruction),
        decoded.op == operation_of(*instruction),
        decoded.op.family() == family_of(*instruction),
        decoded.wf(),
{
    ArmInstruction { cond: decode_cond(instruction), op: decode_operation(instruction) }
}

} // verus!
