//! The fatal conditions that stop the interpreter.

use vstd::prelude::*;

verus! {

/// A condition that the emulated machine defines no recovery for.
#[derive(Clone, Copy, Debug, PartialEq, Eq, Structural)]
pub enum Fault {
    /// A program image of `len` bytes does not fit above the reserved area.
    RomTooLarge { len: usize },
    /// A call was made with sixteen return addresses already on the stack.
    StackOverflow,
    /// A return was made with no return address on the stack.
    StackUnderflow,
    /// The opcode matches no instruction pattern.
    UnknownOpcode { raw: u16 },
    /// An access starting at `addr` would run past the end of memory.
    AddressOutOfRange { addr: u16 },
}

} // verus!
