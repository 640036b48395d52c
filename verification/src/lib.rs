//! Decoder for 32-bit ARM instruction words.
//!
//! A word is decoded into the condition under which it executes and the
//! operation it performs, with the operands of that operation. Decoding is
//! a function of the word alone and is defined for every word: a word that
//! belongs to no instruction family decodes to `Operation::Undefined`, and
//! the reserved condition pattern to `Cond::NV`.
//!
//! The decoder reports what the word encodes and nothing more. It does not
//! execute instructions, apply shifts or rotations, or turn a branch offset
//! into an address.

pub mod branch;
pub mod condition;
pub mod coprocessor;
pub mod data_processing;
pub mod family;
pub mod fields;
pub mod instruction;
pub mod laws;
pub mod operation;
pub mod register;
pub mod transfer;

pub use condition::{decode_cond, Cond};
pub use instruction::{decode_arm_instruction, ArmInstruction};
pub use operation::{decode_operation, Operation};
