//! The state of one call.

use vstd::prelude::*;
use crate::contract::Contract;
use crate::memory::Memory;
use crate::stack::{ReturnStack, Stack};

verus! {

/// The operand stack, the memory, the return stack and the contract of one
/// call in progress.
pub struct CallContext {
    pub stack: Stack,
    pub memory: Memory,
    pub rstack: ReturnStack,
    pub contract: Contract,
}

} // verus!
