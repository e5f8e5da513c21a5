//! The operation table: for each opcode the instruction that it selects,
//! how far it needs the memory to reach, the stack heights between which it
//! may start, and how the call goes on after it.

use vstd::prelude::*;
use crate::err::RunError;
use crate::instruction::ExecuteFn;
use crate::memory::{
    memory_call, memory_calldata_copy, memory_code_copy, memory_create, memory_create2,
    memory_delegate_call, memory_extcode_copy, memory_log, memory_mload, memory_mstore,
    memory_mstore8, memory_return, memory_returndata_copy, memory_revert, memory_sha3,
    memory_static_call, mem_size64, from_top, range_size, two_range_size,
};
use crate::opcode::{
    ADD, ADDRESS, AND, BYTE, CALLDATACOPY, CALLDATALOAD, CALLDATASIZE, CALLER, CALLVALUE, CODECOPY,
    COINBASE, DIV, DUP1, DUP16, EQ, EXP, GT, ISZERO, JUMP, JUMPDEST, JUMPI, LOG0, LOG4, LT, MLOAD,
    MOD, MSIZE, MSTORE, MUL, NOT, OR, POP, PUSH1, PUSH32, RETURN, RETURNDATACOPY, RETURNDATASIZE,
    REVERT, SGT, SHA3, SLT, STOP, SUB, SWAP1, SWAP16, XOR,
};
use crate::stack::{
    max_dup_stack, max_stack, max_swap_stack, min_dup_stack, min_stack, min_swap_stack, Stack,
    STACK_LIMIT,
};
use crate::word::Word;

verus! {

/// The ways of telling from the stack how far an instruction needs the
/// memory to reach, each named after the instruction that it serves.
#[derive(Clone, Copy, Debug, PartialEq, Eq, Structural)]
pub enum MemSizeFn {
    Sha3,
    CallDataCopy,
    ReturnDataCopy,
    CodeCopy,
    ExtCodeCopy,
    MLoad,
    MStore8,
    MStore,
    Create,
    Create2,
    Call,
    DelegateCall,
    StaticCall,
    Return,
    Revert,
    Log,
}

/// `size`, for a stack that holds more than `depth` items; `StackUnderflow`
/// for any other.
pub open spec fn at_depth(s: Seq<Word>, depth: int, size: (u64, bool)) -> Result<
    (u64, bool),
    RunError,
> {
    if s.len() > depth {
        Ok(size)
    } else {
        Err(RunError::StackUnderflow)
    }
}

/// The memory size that an instruction asks for on the stack `s`, and
/// whether it is beyond 64 bits.
pub open spec fn mem_size_of(f: MemSizeFn, s: Seq<Word>) -> Result<(u64, bool), RunError> {
    match f {
        MemSizeFn::Sha3 => at_depth(s, 1, range_size(s, 0, 1)),
        MemSizeFn::CallDataCopy => at_depth(s, 2, range_size(s, 0, 2)),
        MemSizeFn::ReturnDataCopy => at_depth(s, 2, range_size(s, 0, 2)),
        MemSizeFn::CodeCopy => at_depth(s, 2, range_size(s, 0, 2)),
        MemSizeFn::ExtCodeCopy => at_depth(s, 3, range_size(s, 1, 3)),
        MemSizeFn::MLoad => at_depth(s, 0, mem_size64(from_top(s, 0)@, 32)),
        MemSizeFn::MStore8 => at_depth(s, 0, mem_size64(from_top(s, 0)@, 1)),
        MemSizeFn::MStore => at_depth(s, 0, mem_size64(from_top(s, 0)@, 32)),
        MemSizeFn::Create => at_depth(s, 2, range_size(s, 1, 2)),
        MemSizeFn::Create2 => at_depth(s, 2, range_size(s, 1, 2)),
        MemSizeFn::Call => at_depth(s, 6, two_range_size(s, 5, 6, 3, 4)),
        MemSizeFn::DelegateCall => at_depth(s, 5, two_range_size(s, 4, 5, 2, 3)),
        MemSizeFn::StaticCall => at_depth(s, 5, two_range_size(s, 4, 5, 2, 3)),
        MemSizeFn::Return => at_depth(s, 1, range_size(s, 0, 1)),
        MemSizeFn::Revert => at_depth(s, 1, range_size(s, 0, 1)),
        MemSizeFn::Log => at_depth(s, 1, range_size(s, 0, 1)),
    }
}

impl MemSizeFn {
    /// The memory size that the instruction asks for on `stack`.
    pub fn call(&self, stack: &Stack) -> (r: Result<(u64, bool), RunError>)
        ensures
            r == mem_size_of(*self, stack@),
    {
        match self {
            MemSizeFn::Sha3 => memory_sha3(stack),
            MemSizeFn::CallDataCopy => memory_calldata_copy(stack),
            MemSizeFn::ReturnDataCopy => memory_returndata_copy(stack),
            MemSizeFn::CodeCopy => memory_code_copy(stack),
            MemSizeFn::ExtCodeCopy => memory_extcode_copy(stack),
            MemSizeFn::MLoad => memory_mload(stack),
            MemSizeFn::MStore8 => memory_mstore8(stack),
            MemSizeFn::MStore => memory_mstore(stack),
            MemSizeFn::Create => memory_create(stack),
            MemSizeFn::Create2 => memory_create2(stack),
            MemSizeFn::Call => memory_call(stack),
            MemSizeFn::DelegateCall => memory_delegate_call(stack),
            MemSizeFn::StaticCall => memory_static_call(stack),
            MemSizeFn::Return => memory_return(stack),
            MemSizeFn::Revert => memory_revert(stack),
            MemSizeFn::Log => memory_log(stack),
        }
    }
}

/// What the table holds for one opcode.
#[derive(Clone, Copy, Debug)]
pub struct Operation {
    /// The instruction to run.
    pub execute: ExecuteFn,
    /// How to tell how far the instruction needs the memory to reach.
    pub memory_size: Option<MemSizeFn>,
    /// The least stack height at which the instruction may start.
    pub min_stack: i16,
    /// The greatest stack height at which the instruction may start.
    pub max_stack: i16,
    /// The call ends with this instruction, in success.
    pub halts: bool,
    /// The instruction sets the program counter itself.
    pub jumps: bool,
    /// The instruction changes state outside the call.
    pub writes: bool,
    /// The call ends with this instruction, its effects undone.
    pub reverts: bool,
    /// What the instruction hands out becomes the return data.
    pub returns: bool,
}

/// What the table holds for the opcode `op`; nothing for a byte that selects
/// no instruction.
#[verifier::opaque]
pub open spec fn operation_of(op: u8) -> Option<Operation> {
    if op == ADD {
        Some(
            Operation {
                execute: ExecuteFn::Add,
                memory_size: None,
                min_stack: 2,
                max_stack: (STACK_LIMIT + 2 - 1) as i16,
                halts: false,
                jumps: false,
                writes: false,
                reverts: false,
                returns: false,
            },
        )
    } else if op == SUB {
        Some(
            Operation {
                execute: ExecuteFn::Sub,
                memory_size: None,
                min_stack: 2,
                max_stack: (STACK_LIMIT + 2 - 1) as i16,
                halts: false,
                jumps: false,
                writes: false,
                reverts: false,
                returns: false,
            },
        )
    } else if op == MUL {
        Some(
            Operation {
                execute: ExecuteFn::Mul,
                memory_size: None,
                min_stack: 2,
                max_stack: (STACK_LIMIT + 2 - 1) as i16,
                halts: false,
                jumps: false,
                writes: false,
                reverts: false,
                returns: false,
            },
        )
    } else if op == DIV {
        Some(
            Operation {
                execute: ExecuteFn::Div,
                memory_size: None,
                min_stack: 2,
                max_stack: (STACK_LIMIT + 2 - 1) as i16,
                halts: false,
                jumps: false,
                writes: false,
                reverts: false,
                returns: false,
            },
        )
    } else if op == MOD {
        Some(
            Operation {
                execute: ExecuteFn::Mod,
                memory_size: None,
                min_stack: 2,
                max_stack: (STACK_LIMIT + 2 - 1) as i16,
                halts: false,
                jumps: false,
                writes: false,
                reverts: false,
                returns: false,
            },
        )
    } else if op == EXP {
        Some(
            Operation {
                execute: ExecuteFn::Exp,
                memory_size: None,
                min_stack: 2,
                max_stack: (STACK_LIMIT + 2 - 1) as i16,
                halts: false,
                jumps: false,
                writes: false,
                reverts: false,
                returns: false,
            },
        )
    } else if op == NOT {
        Some(
            Operation {
                execute: ExecuteFn::Not,
                memory_size: None,
                min_stack: 1,
                max_stack: (STACK_LIMIT + 1 - 1) as i16,
                halts: false,
                jumps: false,
                writes: false,
                reverts: false,
                returns: false,
            },
        )
    } else if op == LT {
        Some(
            Operation {
                execute: ExecuteFn::Lt,
                memory_size: None,
                min_stack: 2,
                max_stack: (STACK_LIMIT + 2 - 1) as i16,
                halts: false,
                jumps: false,
                writes: false,
                reverts: false,
                returns: false,
            },
        )
    } else if op == GT {
        Some(
            Operation {
                execute: ExecuteFn::Gt,
                memory_size: None,
                min_stack: 2,
                max_stack: (STACK_LIMIT + 2 - 1) as i16,
                halts: false,
                jumps: false,
                writes: false,
                reverts: false,
                returns: false,
            },
        )
    } else if op == SLT {
        Some(
            Operation {
                execute: ExecuteFn::Slt,
                memory_size: None,
                min_stack: 2,
                max_stack: (STACK_LIMIT + 2 - 1) as i16,
                halts: false,
                jumps: false,
                writes: false,
                reverts: false,
                returns: false,
            },
        )
    } else if op == SGT {
        Some(
            Operation {
                execute: ExecuteFn::Sgt,
                memory_size: None,
                min_stack: 2,
                max_stack: (STACK_LIMIT + 2 - 1) as i16,
                halts: false,
                jumps: false,
                writes: false,
                reverts: false,
                returns: false,
            },
        )
    } else if op == EQ {
        Some(
            Operation {
                execute: ExecuteFn::Eq,
                memory_size: None,
                min_stack: 2,
                max_stack: (STACK_LIMIT + 2 - 1) as i16,
                halts: false,
                jumps: false,
                writes: false,
                reverts: false,
                returns: false,
            },
        )
    } else if op == ISZERO {
        Some(
            Operation {
                execute: ExecuteFn::IsZero,
                memory_size: None,
                min_stack: 1,
                max_stack: (STACK_LIMIT + 1 - 1) as i16,
                halts: false,
                jumps: false,
                writes: false,
                reverts: false,
                returns: false,
            },
        )
    } else if op == AND {
        Some(
            Operation {
                execute: ExecuteFn::And,
                memory_size: None,
                min_stack: 2,
                max_stack: (STACK_LIMIT + 2 - 1) as i16,
                halts: false,
                jumps: false,
                writes: false,
                reverts: false,
                returns: false,
            },
        )
    } else if op == OR {
        Some(
            Operation {
                execute: ExecuteFn::Or,
                memory_size: None,
                min_stack: 2,
                max_stack: (STACK_LIMIT + 2 - 1) as i16,
                halts: false,
                jumps: false,
                writes: false,
                reverts: false,
                returns: false,
            },
        )
    } else if op == XOR {
        Some(
            Operation {
                execute: ExecuteFn::Xor,
                memory_size: None,
                min_stack: 2,
                max_stack: (STACK_LIMIT + 2 - 1) as i16,
                halts: false,
                jumps: false,
                writes: false,
                reverts: false,
                returns: false,
            },
        )
    } else if op == BYTE {
        Some(
            Operation {
                execute: ExecuteFn::Byte,
                memory_size: None,
                min_stack: 2,
                max_stack: (STACK_LIMIT + 2 - 1) as i16,
                halts: false,
                jumps: false,
                writes: false,
                reverts: false,
                returns: false,
            },
        )
    } else if op == SHA3 {
        Some(
            Operation {
                execute: ExecuteFn::Sha3,
                memory_size: Some(MemSizeFn::Sha3),
                min_stack: 2,
                max_stack: (STACK_LIMIT + 2 - 1) as i16,
                halts: false,
                jumps: false,
                writes: false,
                reverts: false,
                returns: false,
            },
        )
    } else if op == ADDRESS {
        Some(
            Operation {
                execute: ExecuteFn::Address,
                memory_size: None,
                min_stack: 0,
                max_stack: (STACK_LIMIT + 0 - 1) as i16,
                halts: false,
                jumps: false,
                writes: false,
                reverts: false,
                returns: false,
            },
        )
    } else if op == CALLER {
        Some(
            Operation {
                execute: ExecuteFn::Caller,
                memory_size: None,
                min_stack: 0,
                max_stack: (STACK_LIMIT + 0 - 1) as i16,
                halts: false,
                jumps: false,
                writes: false,
                reverts: false,
                returns: false,
            },
        )
    } else if op == CALLVALUE {
        Some(
            Operation {
                execute: ExecuteFn::CallValue,
                memory_size: None,
                min_stack: 0,
                max_stack: (STACK_LIMIT + 0 - 1) as i16,
                halts: false,
                jumps: false,
                writes: false,
                reverts: false,
                returns: false,
            },
        )
    } else if op == CALLDATALOAD {
        Some(
            Operation {
                execute: ExecuteFn::CallDataLoad,
                memory_size: None,
                min_stack: 1,
                max_stack: (STACK_LIMIT + 1 - 1) as i16,
                halts: false,
                jumps: false,
                writes: false,
                reverts: false,
                returns: false,
            },
        )
    } else if op == CALLDATASIZE {
        Some(
            Operation {
                execute: ExecuteFn::CallDataSize,
                memory_size: None,
                min_stack: 0,
                max_stack: (STACK_LIMIT + 0 - 1) as i16,
                halts: false,
                jumps: false,
                writes: false,
                reverts: false,
                returns: false,
            },
        )
    } else if op == CALLDATACOPY {
        Some(
            Operation {
                execute: ExecuteFn::CallDataCopy,
                memory_size: Some(MemSizeFn::CallDataCopy),
                min_stack: 3,
                max_stack: (STACK_LIMIT + 3 - 0) as i16,
                halts: false,
                jumps: false,
                writes: false,
                reverts: false,
                returns: false,
            },
        )
    } else if op == RETURNDATASIZE {
        Some(
            Operation {
                execute: ExecuteFn::ReturnDataSize,
                memory_size: None,
                min_stack: 0,
                max_stack: (STACK_LIMIT + 0 - 1) as i16,
                halts: false,
                jumps: false,
                writes: false,
                reverts: false,
                returns: false,
            },
        )
    } else if op == RETURNDATACOPY {
        Some(
            Operation {
                execute: ExecuteFn::ReturnDataCopy,
                memory_size: Some(MemSizeFn::ReturnDataCopy),
                min_stack: 3,
                max_stack: (STACK_LIMIT + 3 - 0) as i16,
                halts: false,
                jumps: false,
                writes: false,
                reverts: false,
                returns: false,
            },
        )
    } else if op == CODECOPY {
        Some(
            Operation {
                execute: ExecuteFn::CodeCopy,
                memory_size: Some(MemSizeFn::CodeCopy),
                min_stack: 3,
                max_stack: (STACK_LIMIT + 3 - 0) as i16,
                halts: false,
                jumps: false,
                writes: false,
                reverts: false,
                returns: false,
            },
        )
    } else if op == POP {
        Some(
            Operation {
                execute: ExecuteFn::Pop,
                memory_size: None,
                min_stack: 1,
                max_stack: (STACK_LIMIT + 1 - 0) as i16,
                halts: false,
                jumps: false,
                writes: false,
                reverts: false,
                returns: false,
            },
        )
    } else if op == COINBASE {
        Some(
            Operation {
                execute: ExecuteFn::Coinbase,
                memory_size: None,
                min_stack: 0,
                max_stack: (STACK_LIMIT + 0 - 1) as i16,
                halts: false,
                jumps: false,
                writes: false,
                reverts: false,
                returns: false,
            },
        )
    } else if op == MLOAD {
        Some(
            Operation {
                execute: ExecuteFn::MLoad,
                memory_size: Some(MemSizeFn::MLoad),
                min_stack: 1,
                max_stack: (STACK_LIMIT + 1 - 1) as i16,
                halts: false,
                jumps: false,
                writes: false,
                reverts: false,
                returns: false,
            },
        )
    } else if op == MSTORE {
        Some(
            Operation {
                execute: ExecuteFn::MStore,
                memory_size: Some(MemSizeFn::MStore),
                min_stack: 2,
                max_stack: (STACK_LIMIT + 2 - 0) as i16,
                halts: false,
                jumps: false,
                writes: false,
                reverts: false,
                returns: false,
            },
        )
    } else if op == JUMP {
        Some(
            Operation {
                execute: ExecuteFn::Jump,
                memory_size: None,
                min_stack: 1,
                max_stack: (STACK_LIMIT + 1 - 0) as i16,
                halts: false,
                jumps: true,
                writes: false,
                reverts: false,
                returns: false,
            },
        )
    } else if op == JUMPI {
        Some(
            Operation {
                execute: ExecuteFn::JumpI,
                memory_size: None,
                min_stack: 2,
                max_stack: (STACK_LIMIT + 2 - 0) as i16,
                halts: false,
                jumps: true,
                writes: false,
                reverts: false,
                returns: false,
            },
        )
    } else if op == JUMPDEST {
        Some(
            Operation {
                execute: ExecuteFn::JumpDest,
                memory_size: None,
                min_stack: 0,
                max_stack: (STACK_LIMIT + 0 - 0) as i16,
                halts: false,
                jumps: false,
                writes: false,
                reverts: false,
                returns: false,
            },
        )
    } else if op == MSIZE {
        Some(
            Operation {
                execute: ExecuteFn::MSize,
                memory_size: None,
                min_stack: 0,
                max_stack: (STACK_LIMIT + 0 - 1) as i16,
                halts: false,
                jumps: false,
                writes: false,
                reverts: false,
                returns: false,
            },
        )
    } else if op == RETURN {
        Some(
            Operation {
                execute: ExecuteFn::Return,
                memory_size: Some(MemSizeFn::Return),
                min_stack: 2,
                max_stack: (STACK_LIMIT + 2 - 0) as i16,
                halts: true,
                jumps: false,
                writes: false,
                reverts: false,
                returns: false,
            },
        )
    } else if op == REVERT {
        Some(
            Operation {
                execute: ExecuteFn::Revert,
                memory_size: Some(MemSizeFn::Revert),
                min_stack: 2,
                max_stack: (STACK_LIMIT + 2 - 0) as i16,
                halts: false,
                jumps: false,
                writes: false,
                reverts: true,
                returns: true,
            },
        )
    } else if op == STOP {
        Some(
            Operation {
                execute: ExecuteFn::Stop,
                memory_size: None,
                min_stack: 0,
                max_stack: (STACK_LIMIT + 0 - 0) as i16,
                halts: true,
                jumps: false,
                writes: false,
                reverts: false,
                returns: false,
            },
        )
    } else if LOG0 <= op <= LOG4 {
        Some(
            Operation {
                execute: ExecuteFn::Log((op - LOG0) as u8),
                memory_size: Some(MemSizeFn::Log),
                min_stack: (2 + (op - LOG0)) as i16,
                max_stack: (STACK_LIMIT + 2 + (op - LOG0)) as i16,
                halts: false,
                jumps: false,
                writes: true,
                reverts: false,
                returns: false,
            },
        )
    } else if PUSH1 <= op <= PUSH32 {
        Some(
            Operation {
                execute: ExecuteFn::Push((op - PUSH1 + 1) as u8),
                memory_size: None,
                min_stack: 0,
                max_stack: (STACK_LIMIT - 1) as i16,
                halts: false,
                jumps: false,
                writes: false,
                reverts: false,
                returns: false,
            },
        )
    } else if DUP1 <= op <= DUP16 {
        Some(
            Operation {
                execute: ExecuteFn::Dup((op - DUP1 + 1) as u8),
                memory_size: None,
                min_stack: (op - DUP1 + 1) as i16,
                max_stack: (STACK_LIMIT - 1) as i16,
                halts: false,
                jumps: false,
                writes: false,
                reverts: false,
                returns: false,
            },
        )
    } else if SWAP1 <= op <= SWAP16 {
        Some(
            Operation {
                execute: ExecuteFn::Swap((op - SWAP1 + 1) as u8),
                memory_size: None,
                min_stack: (op - SWAP1 + 2) as i16,
                max_stack: STACK_LIMIT,
                halts: false,
                jumps: false,
                writes: false,
                reverts: false,
                returns: false,
            },
        )
    } else {
        None
    }
}

/// What the table holds for the opcode `v`; nothing for a byte that selects
/// no instruction.
pub fn get_operation(v: u8) -> (r: Option<Operation>)
    ensures
        r == operation_of(v),
{
    proof {
        reveal(operation_of);
    }
    if v == ADD {
        Some(
            Operation {
                execute: ExecuteFn::Add,
                memory_size: None,
                min_stack: min_stack(&2, &1),
                max_stack: max_stack(&2, &1),
                halts: false,
                jumps: false,
                writes: false,
                reverts: false,
                returns: false,
            },
        )
    } else if v == SUB {
        Some(
            Operation {
                execute: ExecuteFn::Sub,
                memory_size: None,
                min_stack: min_stack(&2, &1),
                max_stack: max_stack(&2, &1),
                halts: false,
                jumps: false,
                writes: false,
                reverts: false,
                returns: false,
            },
        )
    } else if v == MUL {
        Some(
            Operation {
                execute: ExecuteFn::Mul,
                memory_size: None,
                min_stack: min_stack(&2, &1),
                max_stack: max_stack(&2, &1),
                halts: false,
                jumps: false,
                writes: false,
                reverts: false,
                returns: false,
            },
        )
    } else if v == DIV {
        Some(
            Operation {
                execute: ExecuteFn::Div,
                memory_size: None,
                min_stack: min_stack(&2, &1),
                max_stack: max_stack(&2, &1),
                halts: false,
                jumps: false,
                writes: false,
                reverts: false,
                returns: false,
            },
        )
    } else if v == MOD {
        Some(
            Operation {
                execute: ExecuteFn::Mod,
                memory_size: None,
                min_stack: min_stack(&2, &1),
                max_stack: max_stack(&2, &1),
                halts: false,
                jumps: false,
                writes: false,
                reverts: false,
                returns: false,
            },
        )
    } else if v == EXP {
        Some(
            Operation {
                execute: ExecuteFn::Exp,
                memory_size: None,
                min_stack: min_stack(&2, &1),
                max_stack: max_stack(&2, &1),
                halts: false,
                jumps: false,
                writes: false,
                reverts: false,
                returns: false,
            },
        )
    } else if v == NOT {
        Some(
            Operation {
                execute: ExecuteFn::Not,
                memory_size: None,
                min_stack: min_stack(&1, &1),
                max_stack: max_stack(&1, &1),
                halts: false,
                jumps: false,
                writes: false,
                reverts: false,
                returns: false,
            },
        )
    } else if v == LT {
        Some(
            Operation {
                execute: ExecuteFn::Lt,
                memory_size: None,
                min_stack: min_stack(&2, &1),
                max_stack: max_stack(&2, &1),
                halts: false,
                jumps: false,
                writes: false,
                reverts: false,
                returns: false,
            },
        )
    } else if v == GT {
        Some(
            Operation {
                execute: ExecuteFn::Gt,
                memory_size: None,
                min_stack: min_stack(&2, &1),
                max_stack: max_stack(&2, &1),
                halts: false,
                jumps: false,
                writes: false,
                reverts: false,
                returns: false,
            },
        )
    } else if v == SLT {
        Some(
            Operation {
                execute: ExecuteFn::Slt,
                memory_size: None,
                min_stack: min_stack(&2, &1),
                max_stack: max_stack(&2, &1),
                halts: false,
                jumps: false,
                writes: false,
                reverts: false,
                returns: false,
            },
        )
    } else if v == SGT {
        Some(
            Operation {
                execute: ExecuteFn::Sgt,
                memory_size: None,
                min_stack: min_stack(&2, &1),
                max_stack: max_stack(&2, &1),
                halts: false,
                jumps: false,
                writes: false,
                reverts: false,
                returns: false,
            },
        )
    } else if v == EQ {
        Some(
            Operation {
                execute: ExecuteFn::Eq,
                memory_size: None,
                min_stack: min_stack(&2, &1),
                max_stack: max_stack(&2, &1),
                halts: false,
                jumps: false,
                writes: false,
                reverts: false,
                returns: false,
            },
        )
    } else if v == ISZERO {
        Some(
            Operation {
                execute: ExecuteFn::IsZero,
                memory_size: None,
                min_stack: min_stack(&1, &1),
                max_stack: max_stack(&1, &1),
                halts: false,
                jumps: false,
                writes: false,
                reverts: false,
                returns: false,
            },
        )
    } else if v == AND {
        Some(
            Operation {
                execute: ExecuteFn::And,
                memory_size: None,
                min_stack: min_stack(&2, &1),
                max_stack: max_stack(&2, &1),
                halts: false,
                jumps: false,
                writes: false,
                reverts: false,
                returns: false,
            },
        )
    } else if v == OR {
        Some(
            Operation {
                execute: ExecuteFn::Or,
                memory_size: None,
                min_stack: min_stack(&2, &1),
                max_stack: max_stack(&2, &1),
                halts: false,
                jumps: false,
                writes: false,
                reverts: false,
                returns: false,
            },
        )
    } else if v == XOR {
        Some(
            Operation {
                execute: ExecuteFn::Xor,
                memory_size: None,
                min_stack: min_stack(&2, &1),
                max_stack: max_stack(&2, &1),
                halts: false,
                jumps: false,
                writes: false,
                reverts: false,
                returns: false,
            },
        )
    } else if v == BYTE {
        Some(
            Operation {
                execute: ExecuteFn::Byte,
                memory_size: None,
                min_stack: min_stack(&2, &1),
                max_stack: max_stack(&2, &1),
                halts: false,
                jumps: false,
                writes: false,
                reverts: false,
                returns: false,
            },
        )
    } else if v == SHA3 {
        Some(
            Operation {
                execute: ExecuteFn::Sha3,
                memory_size: Some(MemSizeFn::Sha3),
                min_stack: min_stack(&2, &1),
                max_stack: max_stack(&2, &1),
                halts: false,
                jumps: false,
                writes: false,
                reverts: false,
                returns: false,
            },
        )
    } else if v == ADDRESS {
        Some(
            Operation {
                execute: ExecuteFn::Address,
                memory_size: None,
                min_stack: min_stack(&0, &1),
                max_stack: max_stack(&0, &1),
                halts: false,
                jumps: false,
                writes: false,
                reverts: false,
                returns: false,
            },
        )
    } else if v == CALLER {
        Some(
            Operation {
                execute: ExecuteFn::Caller,
                memory_size: None,
                min_stack: min_stack(&0, &1),
                max_stack: max_stack(&0, &1),
                halts: false,
                jumps: false,
                writes: false,
                reverts: false,
                returns: false,
            },
        )
    } else if v == CALLVALUE {
        Some(
            Operation {
                execute: ExecuteFn::CallValue,
                memory_size: None,
                min_stack: min_stack(&0, &1),
                max_stack: max_stack(&0, &1),
                halts: false,
                jumps: false,
                writes: false,
                reverts: false,
                returns: false,
            },
        )
    } else if v == CALLDATALOAD {
        Some(
            Operation {
                execute: ExecuteFn::CallDataLoad,
                memory_size: None,
                min_stack: min_stack(&1, &1),
                max_stack: max_stack(&1, &1),
                halts: false,
                jumps: false,
                writes: false,
                reverts: false,
                returns: false,
            },
        )
    } else if v == CALLDATASIZE {
        Some(
            Operation {
                execute: ExecuteFn::CallDataSize,
                memory_size: None,
                min_stack: min_stack(&0, &1),
                max_stack: max_stack(&0, &1),
                halts: false,
                jumps: false,
                writes: false,
                reverts: false,
                returns: false,
            },
        )
    } else if v == CALLDATACOPY {
        Some(
            Operation {
                execute: ExecuteFn::CallDataCopy,
                memory_size: Some(MemSizeFn::CallDataCopy),
                min_stack: min_stack(&3, &0),
                max_stack: max_stack(&3, &0),
                halts: false,
                jumps: false,
                writes: false,
                reverts: false,
                returns: false,
            },
        )
    } else if v == RETURNDATASIZE {
        Some(
            Operation {
                execute: ExecuteFn::ReturnDataSize,
                memory_size: None,
                min_stack: min_stack(&0, &1),
                max_stack: max_stack(&0, &1),
                halts: false,
                jumps: false,
                writes: false,
                reverts: false,
                returns: false,
            },
        )
    } else if v == RETURNDATACOPY {
        Some(
            Operation {
                execute: ExecuteFn::ReturnDataCopy,
                memory_size: Some(MemSizeFn::ReturnDataCopy),
                min_stack: min_stack(&3, &0),
                max_stack: max_stack(&3, &0),
                halts: false,
                jumps: false,
                writes: false,
                reverts: false,
                returns: false,
            },
        )
    } else if v == CODECOPY {
        Some(
            Operation {
                execute: ExecuteFn::CodeCopy,
                memory_size: Some(MemSizeFn::CodeCopy),
                min_stack: min_stack(&3, &0),
                max_stack: max_stack(&3, &0),
                halts: false,
                jumps: false,
                writes: false,
                reverts: false,
                returns: false,
            },
        )
    } else if v == POP {
        Some(
            Operation {
                execute: ExecuteFn::Pop,
                memory_size: None,
                min_stack: min_stack(&1, &0),
                max_stack: max_stack(&1, &0),
                halts: false,
                jumps: false,
                writes: false,
                reverts: false,
                returns: false,
            },
        )
    } else if v == COINBASE {
        Some(
            Operation {
                execute: ExecuteFn::Coinbase,
                memory_size: None,
                min_stack: min_stack(&0, &1),
                max_stack: max_stack(&0, &1),
                halts: false,
                jumps: false,
                writes: false,
                reverts: false,
                returns: false,
            },
        )
    } else if v == MLOAD {
        Some(
            Operation {
                execute: ExecuteFn::MLoad,
                memory_size: Some(MemSizeFn::MLoad),
                min_stack: min_stack(&1, &1),
                max_stack: max_stack(&1, &1),
                halts: false,
                jumps: false,
                writes: false,
                reverts: false,
                returns: false,
            },
        )
    } else if v == MSTORE {
        Some(
            Operation {
                execute: ExecuteFn::MStore,
                memory_size: Some(MemSizeFn::MStore),
                min_stack: min_stack(&2, &0),
                max_stack: max_stack(&2, &0),
                halts: false,
                jumps: false,
                writes: false,
                reverts: false,
                returns: false,
            },
        )
    } else if v == JUMP {
        Some(
            Operation {
                execute: ExecuteFn::Jump,
                memory_size: None,
                min_stack: min_stack(&1, &0),
                max_stack: max_stack(&1, &0),
                halts: false,
                jumps: true,
                writes: false,
                reverts: false,
                returns: false,
            },
        )
    } else if v == JUMPI {
        Some(
            Operation {
                execute: ExecuteFn::JumpI,
                memory_size: None,
                min_stack: min_stack(&2, &0),
                max_stack: max_stack(&2, &0),
                halts: false,
                jumps: true,
                writes: false,
                reverts: false,
                returns: false,
            },
        )
    } else if v == JUMPDEST {
        Some(
            Operation {
                execute: ExecuteFn::JumpDest,
                memory_size: None,
                min_stack: min_stack(&0, &0),
                max_stack: max_stack(&0, &0),
                halts: false,
                jumps: false,
                writes: false,
                reverts: false,
                returns: false,
            },
        )
    } else if v == MSIZE {
        Some(
            Operation {
                execute: ExecuteFn::MSize,
                memory_size: None,
                min_stack: min_stack(&0, &1),
                max_stack: max_stack(&0, &1),
                halts: false,
                jumps: false,
                writes: false,
                reverts: false,
                returns: false,
            },
        )
    } else if v == RETURN {
        Some(
            Operation {
                execute: ExecuteFn::Return,
                memory_size: Some(MemSizeFn::Return),
                min_stack: min_stack(&2, &0),
                max_stack: max_stack(&2, &0),
                halts: true,
                jumps: false,
                writes: false,
                reverts: false,
                returns: false,
            },
        )
    } else if v == REVERT {
        Some(
            Operation {
                execute: ExecuteFn::Revert,
                memory_size: Some(MemSizeFn::Revert),
                min_stack: min_stack(&2, &0),
                max_stack: max_stack(&2, &0),
                halts: false,
                jumps: false,
                writes: false,
                reverts: true,
                returns: true,
            },
        )
    } else if v == STOP {
        Some(
            Operation {
                execute: ExecuteFn::Stop,
                memory_size: None,
                min_stack: min_stack(&0, &0),
                max_stack: max_stack(&0, &0),
                halts: true,
                jumps: false,
                writes: false,
                reverts: false,
                returns: false,
            },
        )
    } else if LOG0 <= v && v <= LOG4 {
        let topics: i16 = (v - LOG0) as i16;
        Some(
            Operation {
                execute: ExecuteFn::Log(v - LOG0),
                memory_size: Some(MemSizeFn::Log),
                min_stack: min_stack(&(2 + topics), &0),
                max_stack: max_stack(&(2 + topics), &0),
                halts: false,
                jumps: false,
                writes: true,
                reverts: false,
                returns: false,
            },
        )
    } else if PUSH1 <= v && v <= PUSH32 {
        Some(
            Operation {
                execute: ExecuteFn::Push(v - PUSH1 + 1),
                memory_size: None,
                min_stack: min_stack(&0, &1),
                max_stack: max_stack(&0, &1),
                halts: false,
                jumps: false,
                writes: false,
                reverts: false,
                returns: false,
            },
        )
    } else if DUP1 <= v && v <= DUP16 {
        let n: i16 = (v - DUP1 + 1) as i16;
        Some(
            Operation {
                execute: ExecuteFn::Dup(v - DUP1 + 1),
                memory_size: None,
                min_stack: min_dup_stack(&n),
                max_stack: max_dup_stack(&n),
                halts: false,
                jumps: false,
                writes: false,
                reverts: false,
                returns: false,
            },
        )
    } else if SWAP1 <= v && v <= SWAP16 {
        let n: i16 = (v - SWAP1 + 2) as i16;
        Some(
            Operation {
                execute: ExecuteFn::Swap(v - SWAP1 + 1),
                memory_size: None,
                min_stack: min_swap_stack(&n),
                max_stack: max_swap_stack(&n),
                halts: false,
                jumps: false,
                writes: false,
                reverts: false,
                returns: false,
            },
        )
    } else {
        None
    }
}

/// The whole table: at each index what `get_operation` gives for that byte.
pub fn get_instruction_set() -> (table: Vec<Option<Operation>>)
    ensures
        table@.len() == 256,
        forall|op: u8| #[trigger] table@[op as int] == operation_of(op),
{
    let mut table: Vec<Option<Operation>> = Vec::new();
    let mut i: usize = 0;
    while i < 256
        invariant
            i <= 256,
            table@.len() == i,
            forall|op: u8| (op as int) < i ==> #[trigger] table@[op as int] == operation_of(op),
        decreases 256 - i,
    {
        table.push(get_operation(i as u8));
        i += 1;
    }
    table
}

} // verus!
