//! The ways in which a call can end other than by a plain halt.

use vstd::prelude::*;

verus! {

/// What went wrong in a call.
#[derive(Clone, Copy, Debug, PartialEq, Eq, Structural)]
pub enum RunError {
    /// Nothing went wrong.
    NoError,
    /// A jump to an offset that holds no `JUMPDEST` instruction.
    InvalidJump,
    /// The code asked for its effects to be undone.
    ExecutionReverted,
    /// A byte that selects no instruction.
    InvalidOpCode,
    /// An instruction needed more stack items than there were.
    StackUnderflow,
    /// An instruction would have raised the stack above its limit.
    StackOverflow,
    /// A change of state inside a read-only call.
    WriteProtection,
    /// A copy from beyond the end of the return data.
    ReturnDataOutOfBounds,
    /// A memory range that reaches beyond what the machine can address.
    MemoryOverflow,
}

} // verus!
