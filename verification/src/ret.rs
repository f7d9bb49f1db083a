//! What an instruction asks of the program counter.
use vstd::prelude::*;

verus! {

/// The control-flow effect of one executed instruction.
#[derive(Clone, Copy, Debug, PartialEq, Eq, Structural)]
pub enum Ret {
    /// Go on with the next instruction.
    Next,
    /// Pass over the next instruction.
    Skip,
    /// Go on at the given address.
    Jump(u16),
}

/// Bytes per instruction word.
pub const WORD: u16 = 2;

impl Ret {
    /// The program counter that follows `pc` under this effect.
    pub open spec fn target(self, pc: u16) -> int {
        match self {
            Ret::Next => pc + 2,
            Ret::Skip => pc + 4,
            Ret::Jump(address) => address as int,
        }
    }

    /// Applies the effect to the program counter `pc`.
    pub fn apply(self, pc: u16) -> (r: u16)
        requires
            pc + 4 <= u16::MAX,
        ensures
            r == self.target(pc),
    {
        match self {
            Ret::Next => pc + WORD,
            Ret::Skip => pc + 2 * WORD,
            Ret::Jump(address) => address,
        }
    }
}

} // verus!
