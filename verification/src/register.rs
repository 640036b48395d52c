//! Register numbers.

use vstd::prelude::*;

verus! {

/// The number of a register. A register field is four bits wide, so a decoded
/// number lies between 0 and 15.
pub type Register = u8;

/// Whether `register` is a number that a four-bit register field can hold.
pub open spec fn is_register(register: Register) -> bool {
    register <= 15
}

} // verus!
