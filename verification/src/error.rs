//! Faults: what can stop a load or a run.
use vstd::prelude::*;

verus! {

/// The closed set of things that can go wrong.
#[derive(Clone, Copy, Debug, PartialEq, Eq, Structural)]
pub enum Fault {
    /// The instruction word matches no pattern of the instruction set.
    UnmatchedOpcode,
    /// A call was made with all sixteen stack slots in use.
    StackOverflow,
    /// A return was made with no call outstanding.
    StackUnderflow,
    /// An address outside memory was about to be read or written.
    OutOfBounds,
    /// A program image is larger than the space above the load address.
    LoadOverflow,
}

/// A fault met while executing, with the place where it was met.
#[derive(Clone, Copy, Debug, PartialEq, Eq, Structural)]
pub struct Error {
    /// What went wrong.
    pub fault: Fault,
    /// The program counter of the faulting instruction.
    pub pc: u16,
    /// The instruction word at `pc`, or zero where none could be fetched.
    pub opcode: u16,
}

} // verus!
