//! What can go wrong: faults of the running program and rejected requests
//! of the host.

use vstd::prelude::*;

verus! {

/// The reason a program cannot go on.
#[derive(Clone, Copy, Debug, PartialEq, Eq, Structural)]
pub enum FaultKind {
    /// The program counter points at or past the last byte of memory, so
    /// no instruction word can be read.
    Fetch,
    /// The word at the program counter is no instruction.
    UnknownInstruction,
    /// A call with sixteen calls already in progress.
    StackOverflow,
    /// A return with no call in progress.
    StackUnderflow,
    /// The index register and the instruction's extent reach past the end
    /// of memory.
    MemoryAccess,
    /// A key instruction on a register that holds no key number.
    InvalidKey,
}

/// A fault together with the instruction that raised it.
///
/// `address` is where the instruction stands; `opcode` is its word, or `0`
/// for a `Fetch` fault, where no word could be read.
#[derive(Clone, Copy, Debug, PartialEq, Eq, Structural)]
pub struct Fault {
    pub kind: FaultKind,
    pub address: u16,
    pub opcode: u16,
}

/// A request of the host that the processor refuses.
#[derive(Clone, Copy, Debug, PartialEq, Eq, Structural)]
pub enum Rejection {
    /// The program image does not fit between the start address and the
    /// end of memory.
    ImageTooLarge,
    /// The key number is not below sixteen.
    KeyOutOfRange,
}

} // verus!
