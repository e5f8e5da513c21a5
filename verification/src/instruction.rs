//! The instructions: what each does to the stack, the memory and the
//! program counter, stated once as a function on plain values and once as
//! the code that does it.

use vstd::prelude::*;
use vstd::arithmetic::div_mod::lemma_small_mod;
use vstd::arithmetic::power::pow;
use crate::context::CallContext;
use crate::contract::jumpdest_at;
use crate::err::RunError;
use crate::hash::{keccak256, keccak256_of};
use crate::interpreter::Interpreter;
use crate::memory::{get_data, window, written};
use crate::vecutil::right_padded;
use crate::word::{
    be_bytes, be_value, byte_base, lemma_be_bytes_len, lemma_word_bound,
    lemma_word_bytes_round_trip, lemma_word_injective, lemma_word_is_word_of,
    lemma_word_is_word_of_small, lemma_word_of_inverse, lemma_word_of_view, word_modulus, word_of,
    Word,
};

verus! {

/// The instructions that the machine knows. `Log`, `Push`, `Dup` and `Swap`
/// carry their number: `Push(3)` is `PUSH3`.
#[derive(Clone, Copy, Debug, PartialEq, Eq, Structural)]
pub enum ExecuteFn {
    Add,
    Sub,
    Mul,
    Div,
    Mod,
    Exp,
    Not,
    Lt,
    Gt,
    Slt,
    Sgt,
    Eq,
    IsZero,
    And,
    Or,
    Xor,
    Byte,
    Sha3,
    Address,
    Caller,
    CallValue,
    CallDataLoad,
    CallDataSize,
    CallDataCopy,
    ReturnDataSize,
    ReturnDataCopy,
    CodeCopy,
    Pop,
    Coinbase,
    MLoad,
    MStore,
    Jump,
    JumpI,
    JumpDest,
    MSize,
    Return,
    Revert,
    Stop,
    Log(u8),
    Push(u8),
    Dup(u8),
    Swap(u8),
}

/// What an instruction reads and cannot change.
pub struct Env {
    /// The code of the contract.
    pub code: Seq<u8>,
    /// The call data.
    pub input: Seq<u8>,
    /// The address of the contract, 20 bytes.
    pub address: Seq<u8>,
    /// The address of the caller, 20 bytes.
    pub caller: Seq<u8>,
    /// The return data gathered so far.
    pub return_data: Seq<u8>,
    /// The limit on the height of the stack.
    pub limit: nat,
}

/// What an instruction may change.
pub struct Machine {
    /// The program counter.
    pub pc: u64,
    /// The operand stack, bottom first.
    pub stack: Seq<Word>,
    /// The memory.
    pub memory: Seq<u8>,
}

/// What an instruction leaves behind.
pub struct Outcome {
    /// The machine after the instruction; on a fault, the machine before it.
    pub machine: Machine,
    /// The bytes that the instruction hands out.
    pub output: Option<Seq<u8>>,
    /// The fault, if any.
    pub error: Option<RunError>,
}

/// The largest size that the memory can be asked to have.
pub open spec fn memory_reach() -> nat {
    if usize::MAX < i64::MAX {
        usize::MAX as nat
    } else {
        i64::MAX as nat
    }
}

/// Whether `size` bytes at `offset` can be addressed. An empty range always can.
pub open spec fn range_ok(offset: nat, size: nat) -> bool {
    size == 0 || offset + size <= memory_reach()
}

/// The memory after it was made to reach to the end of a range.
pub open spec fn grown(memory: Seq<u8>, offset: nat, size: nat) -> Seq<u8> {
    if size == 0 {
        memory
    } else {
        right_padded(memory, offset + size)
    }
}

/// The bytes of a range, or nothing for an empty range.
pub open spec fn read(memory: Seq<u8>, offset: nat, size: nat) -> Option<Seq<u8>> {
    if size == 0 {
        None
    } else {
        Some(window(memory, offset as int, size))
    }
}

/// The memory after `bytes` were copied to `offset`.
pub open spec fn copied(memory: Seq<u8>, offset: nat, bytes: Seq<u8>) -> Seq<u8> {
    if bytes.len() == 0 {
        memory
    } else {
        written(right_padded(memory, offset + bytes.len()), offset as int, bytes)
    }
}

/// `pc` moved on by `by`, and held at the largest counter where it would
/// pass it.
pub open spec fn advanced(pc: u64, by: nat) -> u64 {
    if pc + by <= u64::MAX {
        (pc + by) as u64
    } else {
        u64::MAX
    }
}

/// The word 1 for true, the word 0 for false.
pub open spec fn truth(b: bool) -> Word {
    if b {
        word_of(1)
    } else {
        word_of(0)
    }
}

/// The instruction faulted and left the machine as it was.
pub open spec fn fault(m: Machine, e: RunError) -> Outcome {
    Outcome { machine: m, output: None, error: Some(e) }
}

/// The instruction went through and handed nothing out.
pub open spec fn done(m: Machine) -> Outcome {
    Outcome { machine: m, output: None, error: None }
}

/// The stack without its `k` topmost items.
pub open spec fn below(s: Seq<Word>, k: int) -> Seq<Word> {
    s.subrange(0, s.len() - k)
}

/// The `k`-th item from the top, counted from 0.
pub open spec fn top(s: Seq<Word>, k: int) -> Word {
    s[s.len() - 1 - k]
}

/// Whether the instruction takes two items and leaves one.
pub open spec fn is_binary(f: ExecuteFn) -> bool {
    f == ExecuteFn::Add || f == ExecuteFn::Sub || f == ExecuteFn::Mul || f == ExecuteFn::Div || f
        == ExecuteFn::Mod || f == ExecuteFn::Exp || f == ExecuteFn::Lt || f == ExecuteFn::Gt || f
        == ExecuteFn::Slt || f == ExecuteFn::Sgt || f == ExecuteFn::Eq || f == ExecuteFn::And || f
        == ExecuteFn::Or || f == ExecuteFn::Xor || f == ExecuteFn::Byte
}

/// What a two-item instruction leaves, `x` being the item that it took off
/// the top and `y` the item below. Arithmetic is modulo two to the power
/// 256; a division by zero gives zero; the comparisons, the signed ones
/// too, compare the words as unsigned numbers; `Byte` takes the byte of `y`
/// at index `x`, the least significant byte having index 0.
pub open spec fn binary_word(f: ExecuteFn, x: Word, y: Word) -> Word {
    match f {
        ExecuteFn::Add => word_of(x@ + y@),
        ExecuteFn::Sub => word_of(((x@ - y@) % (word_modulus() as int)) as nat),
        ExecuteFn::Mul => word_of(x@ * y@),
        ExecuteFn::Div => word_of(
            if y@ == 0 {
                0
            } else {
                x@ / y@
            },
        ),
        ExecuteFn::Mod => word_of(
            if y@ == 0 {
                0
            } else {
                x@ % y@
            },
        ),
        ExecuteFn::Exp => word_of((pow(x@ as int, y@) % (word_modulus() as int)) as nat),
        ExecuteFn::Lt => truth(x@ < y@),
        ExecuteFn::Gt => truth(x@ > y@),
        ExecuteFn::Slt => truth(x@ < y@),
        ExecuteFn::Sgt => truth(x@ > y@),
        ExecuteFn::Eq => truth(x@ == y@),
        ExecuteFn::And => Word {
            w0: x.w0 & y.w0,
            w1: x.w1 & y.w1,
            w2: x.w2 & y.w2,
            w3: x.w3 & y.w3,
        },
        ExecuteFn::Or => Word {
            w0: x.w0 | y.w0,
            w1: x.w1 | y.w1,
            w2: x.w2 | y.w2,
            w3: x.w3 | y.w3,
        },
        ExecuteFn::Xor => Word {
            w0: x.w0 ^ y.w0,
            w1: x.w1 ^ y.w1,
            w2: x.w2 ^ y.w2,
            w3: x.w3 ^ y.w3,
        },
        ExecuteFn::Byte => word_of(
            if x@ < 32 {
                (y@ / byte_base(x@)) % 256
            } else {
                0
            },
        ),
        _ => y,
    }
}

/// What a one-item instruction leaves in place of `x`.
pub open spec fn unary_word(f: ExecuteFn, x: Word) -> Word {
    match f {
        ExecuteFn::IsZero => truth(x@ == 0),
        ExecuteFn::Not => Word { w0: !x.w0, w1: !x.w1, w2: !x.w2, w3: !x.w3 },
        _ => x,
    }
}

/// A two-item instruction on the machine.
pub open spec fn apply_binary(f: ExecuteFn, m: Machine) -> Outcome {
    if m.stack.len() < 2 {
        fault(m, RunError::StackUnderflow)
    } else {
        done(
            Machine {
                stack: below(m.stack, 2).push(binary_word(f, top(m.stack, 0), top(m.stack, 1))),
                ..m
            },
        )
    }
}

/// A one-item instruction on the machine.
pub open spec fn apply_unary(f: ExecuteFn, m: Machine) -> Outcome {
    if m.stack.len() < 1 {
        fault(m, RunError::StackUnderflow)
    } else {
        done(Machine { stack: below(m.stack, 1).push(unary_word(f, top(m.stack, 0))), ..m })
    }
}

/// An instruction that puts `w` on the stack.
pub open spec fn apply_push(limit: nat, m: Machine, w: Word) -> Outcome {
    if m.stack.len() >= limit {
        fault(m, RunError::StackOverflow)
    } else {
        done(Machine { stack: m.stack.push(w), ..m })
    }
}

/// `SHA3`: the top of the stack is the offset and the item below it the size
/// of a memory range; both give way to the range's Keccak-256 digest.
pub open spec fn apply_sha3(m: Machine) -> Outcome {
    let offset = top(m.stack, 0)@;
    let size = top(m.stack, 1)@;
    if m.stack.len() < 2 {
        fault(m, RunError::StackUnderflow)
    } else if !range_ok(offset, size) {
        fault(m, RunError::MemoryOverflow)
    } else {
        let data = match read(m.memory, offset, size) {
            Some(bytes) => bytes,
            None => Seq::empty(),
        };
        done(
            Machine {
                stack: below(m.stack, 2).push(word_of(be_value(keccak256_of(data)))),
                memory: grown(m.memory, offset, size),
                ..m
            },
        )
    }
}

/// `CALLDATALOAD`: the offset on top of the stack gives way to the 32 bytes
/// of call data from there on, zeros standing in beyond its end.
pub open spec fn apply_calldataload(env: Env, m: Machine) -> Outcome {
    if m.stack.len() < 1 {
        fault(m, RunError::StackUnderflow)
    } else {
        done(
            Machine {
                stack: below(m.stack, 1).push(
                    word_of(be_value(window(env.input, top(m.stack, 0)@ as int, 32))),
                ),
                ..m
            },
        )
    }
}

/// `CALLDATACOPY` and `CODECOPY`: takes a memory offset, an offset into
/// `source` and a length off the stack, and copies that many bytes of
/// `source`, zeros standing in beyond its end, into the memory.
pub open spec fn apply_copy(source: Seq<u8>, m: Machine) -> Outcome {
    let mem_offset = top(m.stack, 0)@;
    let data_offset = top(m.stack, 1)@;
    let length = top(m.stack, 2)@;
    if m.stack.len() < 3 {
        fault(m, RunError::StackUnderflow)
    } else if !range_ok(mem_offset, length) {
        fault(m, RunError::MemoryOverflow)
    } else {
        done(
            Machine {
                stack: below(m.stack, 3),
                memory: copied(m.memory, mem_offset, window(source, data_offset as int, length)),
                ..m
            },
        )
    }
}

/// `RETURNDATACOPY`: as `CALLDATACOPY`, from the return data, and a fault
/// where the range passes the end of the return data.
pub open spec fn apply_returndatacopy(env: Env, m: Machine) -> Outcome {
    let mem_offset = top(m.stack, 0)@;
    let data_offset = top(m.stack, 1)@;
    let length = top(m.stack, 2)@;
    if m.stack.len() < 3 {
        fault(m, RunError::StackUnderflow)
    } else if data_offset + length > env.return_data.len() {
        fault(m, RunError::ReturnDataOutOfBounds)
    } else if !range_ok(mem_offset, length) {
        fault(m, RunError::MemoryOverflow)
    } else {
        done(
            Machine {
                stack: below(m.stack, 3),
                memory: copied(
                    m.memory,
                    mem_offset,
                    env.return_data.subrange(data_offset as int, (data_offset + length) as int),
                ),
                ..m
            },
        )
    }
}

/// `MLOAD`: the offset on top of the stack gives way to the word that the
/// 32 bytes of memory from there on stand for; the memory grows to hold them.
pub open spec fn apply_mload(m: Machine) -> Outcome {
    let offset = top(m.stack, 0)@;
    if m.stack.len() < 1 {
        fault(m, RunError::StackUnderflow)
    } else if !range_ok(offset, 32) {
        fault(m, RunError::MemoryOverflow)
    } else {
        done(
            Machine {
                stack: below(m.stack, 1).push(
                    word_of(be_value(window(m.memory, offset as int, 32))),
                ),
                memory: grown(m.memory, offset, 32),
                ..m
            },
        )
    }
}

/// `MSTORE`: takes an offset and a word off the stack and writes the word's
/// 32 bytes, most significant first, into the memory at the offset.
pub open spec fn apply_mstore(m: Machine) -> Outcome {
    let offset = top(m.stack, 0)@;
    if m.stack.len() < 2 {
        fault(m, RunError::StackUnderflow)
    } else if !range_ok(offset, 32) {
        fault(m, RunError::MemoryOverflow)
    } else {
        done(
            Machine {
                stack: below(m.stack, 2),
                memory: copied(m.memory, offset, be_bytes(top(m.stack, 1)@, 32)),
                ..m
            },
        )
    }
}

/// `JUMP`: takes a destination off the stack and sets the program counter
/// to it; a fault where no `JUMPDEST` instruction starts there.
pub open spec fn apply_jump(env: Env, m: Machine) -> Outcome {
    let dest = top(m.stack, 0)@;
    if m.stack.len() < 1 {
        fault(m, RunError::StackUnderflow)
    } else if !jumpdest_at(env.code, dest) {
        fault(m, RunError::InvalidJump)
    } else {
        done(Machine { pc: dest as u64, stack: below(m.stack, 1), ..m })
    }
}

/// `JUMPI`: takes a destination and a condition off the stack; jumps as
/// `JUMP` does where the condition is not zero, and steps to the next
/// instruction where it is.
pub open spec fn apply_jumpi(env: Env, m: Machine) -> Outcome {
    let dest = top(m.stack, 0)@;
    let cond = top(m.stack, 1)@;
    if m.stack.len() < 2 {
        fault(m, RunError::StackUnderflow)
    } else if cond == 0 {
        done(Machine { pc: advanced(m.pc, 1), stack: below(m.stack, 2), ..m })
    } else if !jumpdest_at(env.code, dest) {
        fault(m, RunError::InvalidJump)
    } else {
        done(Machine { pc: dest as u64, stack: below(m.stack, 2), ..m })
    }
}

/// `RETURN` and `REVERT`: takes an offset and a size off the stack and hands
/// out that range of the memory, which grows to hold it.
pub open spec fn apply_return(m: Machine) -> Outcome {
    let offset = top(m.stack, 0)@;
    let size = top(m.stack, 1)@;
    if m.stack.len() < 2 {
        fault(m, RunError::StackUnderflow)
    } else if !range_ok(offset, size) {
        fault(m, RunError::MemoryOverflow)
    } else {
        Outcome {
            machine: Machine {
                stack: below(m.stack, 2),
                memory: grown(m.memory, offset, size),
                ..m
            },
            output: read(m.memory, offset, size),
            error: None,
        }
    }
}

/// `LOGn`: takes an offset, a size and `n` topics off the stack; the memory
/// grows to hold the range.
pub open spec fn apply_log(n: u8, m: Machine) -> Outcome {
    let offset = top(m.stack, 0)@;
    let size = top(m.stack, 1)@;
    if n > 4 {
        fault(m, RunError::InvalidOpCode)
    } else if m.stack.len() < 2 + n {
        fault(m, RunError::StackUnderflow)
    } else if !range_ok(offset, size) {
        fault(m, RunError::MemoryOverflow)
    } else {
        done(
            Machine { stack: below(m.stack, 2 + n), memory: grown(m.memory, offset, size), ..m },
        )
    }
}

/// `PUSHn`: puts the `n` bytes behind the opcode on the stack as one word,
/// most significant byte first, zeros standing in beyond the end of the
/// code, and moves the program counter over them.
pub open spec fn apply_pushn(n: u8, env: Env, m: Machine) -> Outcome {
    if n < 1 || n > 32 {
        fault(m, RunError::InvalidOpCode)
    } else if m.stack.len() >= env.limit {
        fault(m, RunError::StackOverflow)
    } else {
        done(
            Machine {
                pc: advanced(m.pc, n as nat),
                stack: m.stack.push(word_of(be_value(window(env.code, m.pc + 1, n as nat)))),
                ..m
            },
        )
    }
}

/// `DUPn`: puts a copy of the `n`-th item from the top, counted from 1, on
/// the stack.
pub open spec fn apply_dup(n: u8, env: Env, m: Machine) -> Outcome {
    if n < 1 || n > 16 {
        fault(m, RunError::InvalidOpCode)
    } else if m.stack.len() < n {
        fault(m, RunError::StackUnderflow)
    } else if m.stack.len() >= env.limit {
        fault(m, RunError::StackOverflow)
    } else {
        done(Machine { stack: m.stack.push(top(m.stack, n - 1)), ..m })
    }
}

/// `SWAPn`: exchanges the top item with the item `n` places below it.
pub open spec fn apply_swap(n: u8, m: Machine) -> Outcome {
    let len = m.stack.len() as int;
    if n < 1 || n > 16 {
        fault(m, RunError::InvalidOpCode)
    } else if len < n + 1 {
        fault(m, RunError::StackUnderflow)
    } else {
        done(
            Machine {
                stack: m.stack.update(len - 1, top(m.stack, n as int)).update(
                    len - 1 - n,
                    top(m.stack, 0),
                ),
                ..m
            },
        )
    }
}

/// `POP`: takes the top item off the stack.
pub open spec fn apply_pop(m: Machine) -> Outcome {
    if m.stack.len() < 1 {
        fault(m, RunError::StackUnderflow)
    } else {
        done(Machine { stack: below(m.stack, 1), ..m })
    }
}

/// What the instruction `f` does to the machine `m` in the surroundings `env`.
#[verifier::opaque]
pub open spec fn apply(f: ExecuteFn, env: Env, m: Machine) -> Outcome {
    match f {
        ExecuteFn::Not | ExecuteFn::IsZero => apply_unary(f, m),
        ExecuteFn::Sha3 => apply_sha3(m),
        ExecuteFn::Address => apply_push(env.limit, m, word_of(be_value(env.address))),
        ExecuteFn::Caller => apply_push(env.limit, m, word_of(be_value(env.caller))),
        ExecuteFn::CallValue => apply_push(env.limit, m, word_of(0)),
        ExecuteFn::Coinbase => apply_push(env.limit, m, word_of(0)),
        ExecuteFn::CallDataLoad => apply_calldataload(env, m),
        ExecuteFn::CallDataSize => apply_push(env.limit, m, word_of(env.input.len())),
        ExecuteFn::CallDataCopy => apply_copy(env.input, m),
        ExecuteFn::ReturnDataSize => apply_push(env.limit, m, word_of(env.return_data.len())),
        ExecuteFn::ReturnDataCopy => apply_returndatacopy(env, m),
        ExecuteFn::CodeCopy => apply_copy(env.code, m),
        ExecuteFn::Pop => apply_pop(m),
        ExecuteFn::MLoad => apply_mload(m),
        ExecuteFn::MStore => apply_mstore(m),
        ExecuteFn::Jump => apply_jump(env, m),
        ExecuteFn::JumpI => apply_jumpi(env, m),
        ExecuteFn::JumpDest => done(m),
        ExecuteFn::MSize => apply_push(env.limit, m, word_of(m.memory.len())),
        ExecuteFn::Return => apply_return(m),
        ExecuteFn::Revert => apply_return(m),
        ExecuteFn::Stop => done(m),
        ExecuteFn::Log(n) => apply_log(n, m),
        ExecuteFn::Push(n) => apply_pushn(n, env, m),
        ExecuteFn::Dup(n) => apply_dup(n, env, m),
        ExecuteFn::Swap(n) => apply_swap(n, m),
        _ => apply_binary(f, m),
    }
}

/// What an instruction reads, taken from a call in progress.
pub open spec fn env_of(interpreter: &Interpreter, ctx: CallContext) -> Env {
    Env {
        code: ctx.contract.code_view(),
        input: ctx.contract.input_view(),
        address: ctx.contract.address_view(),
        caller: ctx.contract.caller_view(),
        return_data: interpreter.return_data@,
        limit: ctx.stack.limit(),
    }
}

/// What an instruction may change, taken from a call in progress.
pub open spec fn machine_of(pc: u64, ctx: CallContext) -> Machine {
    Machine { pc, stack: ctx.stack@, memory: ctx.memory@ }
}

/// The bytes of an output.
pub open spec fn output_view(output: Option<Vec<u8>>) -> Option<Seq<u8>> {
    match output {
        Some(bytes) => Some(bytes@),
        None => None,
    }
}

/// What a call has come to: its machine, and what the instruction returned.
pub open spec fn outcome_of(
    pc: u64,
    ctx: CallContext,
    r: (Option<Vec<u8>>, Option<RunError>),
) -> Outcome {
    Outcome { machine: machine_of(pc, ctx), output: output_view(r.0), error: r.1 }
}

/// The contract and the return stack of the call are what they were, and so
/// is the limit of its stack.
pub open spec fn same_frame(before: CallContext, after: CallContext) -> bool {
    &&& after.contract.code_view() == before.contract.code_view()
    &&& after.contract.input_view() == before.contract.input_view()
    &&& after.contract.address_view() == before.contract.address_view()
    &&& after.contract.caller_view() == before.contract.caller_view()
    &&& after.contract.codehash_view() == before.contract.codehash_view()
    &&& after.rstack@ == before.rstack@
    &&& after.stack.limit() == before.stack.limit()
}

/// The call went from `pc0` and `before` to `pc1` and `after`, with the
/// result `r`, as the instruction `f` says.
pub open spec fn handled(
    f: ExecuteFn,
    interpreter: &Interpreter,
    pc0: u64,
    before: CallContext,
    pc1: u64,
    after: CallContext,
    r: (Option<Vec<u8>>, Option<RunError>),
) -> bool {
    &&& same_frame(before, after)
    &&& outcome_of(pc1, after, r) == apply(f, env_of(interpreter, before), machine_of(pc0, before))
}

/// `ADD` and `MUL` wrap: what they leave stands for the sum, or the
/// product, modulo two to the power 256.
pub proof fn lemma_add_mul_wrap(x: Word, y: Word)
    ensures
        binary_word(ExecuteFn::Add, x, y)@ == (x@ + y@) % word_modulus(),
        binary_word(ExecuteFn::Mul, x, y)@ == (x@ * y@) % word_modulus(),
{
    lemma_word_of_view(x@ + y@);
    lemma_word_of_view(x@ * y@);
}

/// `DIV` and `MOD` by zero leave zero, and are no fault: on a stack of two
/// items or more whose second item is zero, both go through.
pub proof fn lemma_division_by_zero(env: Env, m: Machine)
    requires
        m.stack.len() >= 2,
        top(m.stack, 1)@ == 0,
    ensures
        apply(ExecuteFn::Div, env, m).error.is_none(),
        apply(ExecuteFn::Mod, env, m).error.is_none(),
        apply(ExecuteFn::Div, env, m).machine.stack == below(m.stack, 2).push(word_of(0)),
        apply(ExecuteFn::Mod, env, m).machine.stack == below(m.stack, 2).push(word_of(0)),
        word_of(0)@ == 0,
{
    reveal(apply);
    lemma_word_of_view(0);
    lemma_word_bound(word_of(0));
    lemma_small_mod(0, word_modulus());
}

/// `MSTORE` and then `MLOAD` at the same offset give the word back: with the
/// offset `k` on top of the word `w`, `MSTORE` leaves a memory in which
/// `MLOAD` of `k` finds `w`.
pub proof fn lemma_mstore_mload_round_trip(env: Env, m: Machine, k: Word, w: Word)
    requires
        range_ok(k@, 32),
    ensures
        ({
            let stored = apply(
                ExecuteFn::MStore,
                env,
                Machine { stack: m.stack.push(w).push(k), ..m },
            );
            let loaded = apply(
                ExecuteFn::MLoad,
                env,
                Machine { stack: stored.machine.stack.push(k), ..stored.machine },
            );
            &&& stored.error.is_none()
            &&& stored.machine.stack == m.stack
            &&& loaded.error.is_none()
            &&& loaded.machine.stack == m.stack.push(w)
            &&& loaded.machine.memory == stored.machine.memory
        }),
{
    reveal(apply);
    let s0 = m.stack.push(w).push(k);
    let stored = apply(ExecuteFn::MStore, env, Machine { stack: s0, ..m });
    assert(below(s0, 2) =~= m.stack);
    lemma_be_bytes_len(w@, 32);
    let bytes = be_bytes(w@, 32);
    let mem1 = stored.machine.memory;
    assert(mem1 == written(right_padded(m.memory, k@ + 32), k@ as int, bytes));
    let s1 = m.stack.push(k);
    assert(below(s1, 1) =~= m.stack);
    assert(window(mem1, k@ as int, 32) =~= bytes);
    lemma_word_bytes_round_trip(w);
    lemma_word_of_inverse(w);
    assert(right_padded(mem1, k@ + 32) =~= mem1);
}

/// `DUP1` copies the top item: the stack grows by one, and its new top is
/// its old top. `SWAP1` exchanges the two topmost items and leaves the rest.
pub proof fn lemma_dup1_swap1(env: Env, m: Machine)
    ensures
        1 <= m.stack.len() < env.limit ==> apply(ExecuteFn::Dup(1), env, m).error.is_none()
            && apply(ExecuteFn::Dup(1), env, m).machine.stack == m.stack.push(m.stack.last()),
        2 <= m.stack.len() ==> apply(ExecuteFn::Swap(1), env, m).error.is_none() && apply(
            ExecuteFn::Swap(1),
            env,
            m,
        ).machine.stack == below(m.stack, 2).push(top(m.stack, 0)).push(top(m.stack, 1)),
{
    reveal(apply);
    if 2 <= m.stack.len() {
        assert(apply(ExecuteFn::Swap(1), env, m).machine.stack =~= below(m.stack, 2).push(
            top(m.stack, 0),
        ).push(top(m.stack, 1)));
    }
}

/// The word for a truth value.
fn truth_word(b: bool) -> (r: Word)
    ensures
        r == truth(b),
{
    let r = if b {
        Word::one()
    } else {
        Word::zero()
    };
    proof {
        lemma_word_is_word_of_small(r, r@);
    }
    r
}

/// Computes what a two-item instruction leaves.
fn binary_word_exec(f: ExecuteFn, x: Word, y: Word) -> (r: Word)
    requires
        is_binary(f),
    ensures
        r == binary_word(f, x, y),
{
    match f {
        ExecuteFn::Add => {
            let r = x.wrapping_add(&y);
            proof {
                lemma_word_is_word_of(r, x@ + y@);
            }
            r
        },
        ExecuteFn::Sub => {
            let r = x.wrapping_sub(&y);
            proof {
                lemma_word_is_word_of_small(r, r@);
            }
            r
        },
        ExecuteFn::Mul => {
            let r = x.wrapping_mul(&y);
            proof {
                lemma_word_is_word_of(r, x@ * y@);
            }
            r
        },
        ExecuteFn::Div => {
            let r = x.div_or_zero(&y);
            proof {
                lemma_word_is_word_of_small(r, r@);
            }
            r
        },
        ExecuteFn::Mod => {
            let r = x.rem_or_zero(&y);
            proof {
                lemma_word_is_word_of_small(r, r@);
            }
            r
        },
        ExecuteFn::Exp => {
            let r = x.wrapping_pow(&y);
            proof {
                lemma_word_is_word_of_small(r, r@);
            }
            r
        },
        ExecuteFn::Lt | ExecuteFn::Slt => truth_word(x.lt(&y)),
        ExecuteFn::Gt | ExecuteFn::Sgt => truth_word(x.gt(&y)),
        ExecuteFn::Eq => {
            proof {
                if x@ == y@ {
                    lemma_word_injective(x, y);
                }
            }
            truth_word(x == y)
        },
        ExecuteFn::And => x.bitand(&y),
        ExecuteFn::Or => x.bitor(&y),
        ExecuteFn::Xor => x.bitxor(&y),
        _ => {
            let r = Word::from_u64(y.byte_or_zero(&x) as u64);
            proof {
                lemma_word_is_word_of_small(r, r@);
            }
            r
        },
    }
}

/// Runs a two-item instruction.
fn binary(f: ExecuteFn, pc: &mut u64, interpreter: &Interpreter, ctx: &mut CallContext) -> (r: (
    Option<Vec<u8>>,
    Option<RunError>,
))
    requires
        is_binary(f),
    ensures
        handled(f, interpreter, *old(pc), *old(ctx), *final(pc), *final(ctx), r),
{
    proof {
        reveal(apply);
    }
    if ctx.stack.size() < 2 {
        return (None, Some(RunError::StackUnderflow));
    }
    let x = match ctx.stack.pop() {
        Ok(w) => w,
        Err(e) => {
            return (None, Some(e));
        },
    };
    let y = match ctx.stack.back(0) {
        Ok(w) => w,
        Err(e) => {
            return (None, Some(e));
        },
    };
    let w = binary_word_exec(f, x, y);
    match ctx.stack.set_top(&w) {
        Ok(()) => {},
        Err(e) => {
            return (None, Some(e));
        },
    }
    assert(ctx.stack@ =~= below(old(ctx).stack@, 2).push(w));
    (None, None)
}

/// Runs a one-item instruction.
fn unary(f: ExecuteFn, pc: &mut u64, interpreter: &Interpreter, ctx: &mut CallContext) -> (r: (
    Option<Vec<u8>>,
    Option<RunError>,
))
    requires
        f == ExecuteFn::Not || f == ExecuteFn::IsZero,
    ensures
        handled(f, interpreter, *old(pc), *old(ctx), *final(pc), *final(ctx), r),
{
    proof {
        reveal(apply);
    }
    let x = match ctx.stack.back(0) {
        Ok(w) => w,
        Err(e) => {
            return (None, Some(e));
        },
    };
    let w = match f {
        ExecuteFn::Not => x.not(),
        _ => truth_word(x.is_zero()),
    };
    match ctx.stack.set_top(&w) {
        Ok(()) => {},
        Err(e) => {
            return (None, Some(e));
        },
    }
    assert(ctx.stack@ =~= below(old(ctx).stack@, 1).push(w));
    (None, None)
}

/// Puts `w` on the stack of the call.
fn push_word(ctx: &mut CallContext, w: Word) -> (r: (Option<Vec<u8>>, Option<RunError>))
    ensures
        same_frame(*old(ctx), *final(ctx)),
        final(ctx).memory@ == old(ctx).memory@,
        outcome_of(0, *final(ctx), r) == apply_push(
            old(ctx).stack.limit(),
            machine_of(0, *old(ctx)),
            w,
        ),
{
    match ctx.stack.push(&w) {
        Ok(()) => (None, None),
        Err(e) => (None, Some(e)),
    }
}

/// The offset as a machine number, where `size` bytes from it on can be
/// addressed.
fn checked_offset(offset: &Word, size: u64) -> (r: Option<u64>)
    requires
        size > 0,
    ensures
        r.is_some() == range_ok(offset@, size as nat),
        r.is_some() ==> r.unwrap() == offset@,
{
    let reach: u64 = if (usize::MAX as u128) < (i64::MAX as u128) {
        usize::MAX as u64
    } else {
        i64::MAX as u64
    };
    if !offset.fits_u64() {
        return None;
    }
    let o: u64 = offset.low_u64();
    if size > reach || o > reach - size {
        return None;
    }
    Some(o)
}

/// The offset and the size as machine numbers, where the range can be
/// addressed; an empty range is given as `(0, 0)`.
fn checked_range(offset: &Word, size: &Word) -> (r: Option<(u64, u64)>)
    ensures
        r.is_some() == range_ok(offset@, size@),
        r.is_some() ==> r.unwrap().1 == size@,
        r.is_some() && size@ > 0 ==> r.unwrap().0 == offset@,
        r.is_some() && size@ == 0 ==> r.unwrap().0 == 0,
{
    if size.is_zero() {
        return Some((0, 0));
    }
    if !size.fits_u64() {
        return None;
    }
    let s: u64 = size.low_u64();
    match checked_offset(offset, s) {
        Some(o) => Some((o, s)),
        None => None,
    }
}

/// The word that up to 32 bytes stand for.
fn word_of_bytes(bytes: &[u8]) -> (r: Word)
    requires
        bytes@.len() <= 32,
    ensures
        r == word_of(be_value(bytes@)),
{
    let r = Word::from_big_endian(bytes);
    proof {
        lemma_word_is_word_of_small(r, r@);
    }
    r
}

/// The word that a length stands for.
fn word_of_len(n: usize) -> (r: Word)
    ensures
        r == word_of(n as nat),
{
    let r = Word::from_u64(n as u64);
    proof {
        lemma_word_is_word_of_small(r, r@);
    }
    r
}

/// The offset into a byte string that a word stands for; an offset beyond
/// 64 bits is as good as the largest one, since no byte string reaches there.
fn data_start(offset: &Word, source: &Vec<u8>) -> (r: u64)
    ensures
        forall|size: nat| #[trigger]
            window(source@, r as int, size) == window(source@, offset@ as int, size),
{
    let n = source.len();
    if offset.fits_u64() {
        offset.low_u64()
    } else {
        assert forall|size: nat| #[trigger]
            window(source@, u64::MAX as int, size) == window(
                source@,
                offset@ as int,
                size,
            ) by {
            assert(window(source@, u64::MAX as int, size) =~= window(
                source@,
                offset@ as int,
                size,
            ));
        }
        u64::MAX
    }
}

/// A copy of the bytes of `v` from `from` up to `to`.
fn copy_range(v: &Vec<u8>, from: usize, to: usize) -> (r: Vec<u8>)
    requires
        from <= to <= v@.len(),
    ensures
        r@ == v@.subrange(from as int, to as int),
{
    let mut out: Vec<u8> = Vec::new();
    let mut i: usize = from;
    while i < to
        invariant
            from <= i <= to <= v@.len(),
            out@ == v@.subrange(from as int, i as int),
        decreases to - i,
    {
        out.push(v[i]);
        i += 1;
        assert(out@ =~= v@.subrange(from as int, i as int));
    }
    out
}

/// Takes the `k` topmost items off a stack that holds them.
fn drop_items(ctx: &mut CallContext, k: usize)
    requires
        k <= old(ctx).stack@.len(),
    ensures
        same_frame(*old(ctx), *final(ctx)),
        final(ctx).memory@ == old(ctx).memory@,
        final(ctx).stack@ == below(old(ctx).stack@, k as int),
{
    let mut i: usize = 0;
    while i < k
        invariant
            i <= k <= old(ctx).stack@.len(),
            same_frame(*old(ctx), *ctx),
            ctx.memory@ == old(ctx).memory@,
            ctx.stack@ == below(old(ctx).stack@, i as int),
        decreases k - i,
    {
        let _ = ctx.stack.pop();
        i += 1;
        assert(ctx.stack@ =~= below(old(ctx).stack@, i as int));
    }
}

/// Runs `CALLDATACOPY` or `CODECOPY`, which differ in the bytes they copy.
fn copy_to_memory(from_code: bool, ctx: &mut CallContext) -> (r: (
    Option<Vec<u8>>,
    Option<RunError>,
))
    ensures
        same_frame(*old(ctx), *final(ctx)),
        outcome_of(0, *final(ctx), r) == apply_copy(
            if from_code {
                old(ctx).contract.code_view()
            } else {
                old(ctx).contract.input_view()
            },
            machine_of(0, *old(ctx)),
        ),
{
    if ctx.stack.size() < 3 {
        return (None, Some(RunError::StackUnderflow));
    }
    let (mem_offset, data_offset, length) = match (
        ctx.stack.back(0),
        ctx.stack.back(1),
        ctx.stack.back(2),
    ) {
        (Ok(a), Ok(b), Ok(c)) => (a, b, c),
        _ => {
            return (None, Some(RunError::StackUnderflow));
        },
    };
    let (o, n) = match checked_range(&mem_offset, &length) {
        Some(range) => range,
        None => {
            return (None, Some(RunError::MemoryOverflow));
        },
    };
    let source = if from_code {
        ctx.contract.code()
    } else {
        ctx.contract.input()
    };
    let start = data_start(&data_offset, source);
    let data = get_data(source, start, n);
    drop_items(ctx, 3);
    ctx.memory.set(o, n, &data);
    (None, None)
}

/// Runs `RETURN` or `REVERT`: both hand a memory range out.
fn hand_out(ctx: &mut CallContext) -> (r: (Option<Vec<u8>>, Option<RunError>))
    ensures
        same_frame(*old(ctx), *final(ctx)),
        outcome_of(0, *final(ctx), r) == apply_return(machine_of(0, *old(ctx))),
{
    if ctx.stack.size() < 2 {
        return (None, Some(RunError::StackUnderflow));
    }
    let (offset, size) = match (ctx.stack.back(0), ctx.stack.back(1)) {
        (Ok(a), Ok(b)) => (a, b),
        _ => {
            return (None, Some(RunError::StackUnderflow));
        },
    };
    let (o, n) = match checked_range(&offset, &size) {
        Some(range) => range,
        None => {
            return (None, Some(RunError::MemoryOverflow));
        },
    };
    drop_items(ctx, 2);
    let ret = ctx.memory.get_copy(o as i64, n as i64);
    (ret, None)
}

/// Runs `LOGn`.
fn make_log(pc: &mut u64, interpreter: &Interpreter, ctx: &mut CallContext, size: u8) -> (r: (
    Option<Vec<u8>>,
    Option<RunError>,
))
    ensures
        handled(ExecuteFn::Log(size), interpreter, *old(pc), *old(ctx), *final(pc), *final(ctx), r),
{
    proof {
        reveal(apply);
    }
    if size > 4 {
        return (None, Some(RunError::InvalidOpCode));
    }
    if ctx.stack.size() < 2 + (size as usize) {
        return (None, Some(RunError::StackUnderflow));
    }
    let (start, length) = match (ctx.stack.back(0), ctx.stack.back(1)) {
        (Ok(a), Ok(b)) => (a, b),
        _ => {
            return (None, Some(RunError::StackUnderflow));
        },
    };
    let (o, n) = match checked_range(&start, &length) {
        Some(range) => range,
        None => {
            return (None, Some(RunError::MemoryOverflow));
        },
    };
    drop_items(ctx, 2 + (size as usize));
    let _ = ctx.memory.get_copy(o as i64, n as i64);
    (None, None)
}

/// Runs `PUSHn`.
fn make_push(pc: &mut u64, interpreter: &Interpreter, ctx: &mut CallContext, size: u8) -> (r: (
    Option<Vec<u8>>,
    Option<RunError>,
))
    ensures
        handled(
            ExecuteFn::Push(size),
            interpreter,
            *old(pc),
            *old(ctx),
            *final(pc),
            *final(ctx),
            r,
        ),
{
    proof {
        reveal(apply);
    }
    if size < 1 || size > 32 {
        return (None, Some(RunError::InvalidOpCode));
    }
    let code = ctx.contract.code();
    let n = code.len();
    let start: u64 = if *pc == u64::MAX {
        assert(window(code@, u64::MAX as int, size as nat) =~= window(
            code@,
            u64::MAX + 1,
            size as nat,
        ));
        u64::MAX
    } else {
        *pc + 1
    };
    let immediate = get_data(code, start, size as u64);
    let w = word_of_bytes(immediate.as_slice());
    match ctx.stack.push(&w) {
        Ok(()) => {},
        Err(e) => {
            return (None, Some(e));
        },
    }
    *pc = if *pc > u64::MAX - (size as u64) {
        u64::MAX
    } else {
        *pc + (size as u64)
    };
    (None, None)
}

/// Runs `DUPn`.
fn make_dup(pc: &mut u64, interpreter: &Interpreter, ctx: &mut CallContext, size: u8) -> (r: (
    Option<Vec<u8>>,
    Option<RunError>,
))
    ensures
        handled(ExecuteFn::Dup(size), interpreter, *old(pc), *old(ctx), *final(pc), *final(ctx), r),
{
    proof {
        reveal(apply);
    }
    if size < 1 || size > 16 {
        return (None, Some(RunError::InvalidOpCode));
    }
    match ctx.stack.dup(size as i16) {
        Ok(()) => (None, None),
        Err(e) => (None, Some(e)),
    }
}

/// Runs `SWAPn`.
fn make_swap(pc: &mut u64, interpreter: &Interpreter, ctx: &mut CallContext, size: u8) -> (r: (
    Option<Vec<u8>>,
    Option<RunError>,
))
    ensures
        handled(
            ExecuteFn::Swap(size),
            interpreter,
            *old(pc),
            *old(ctx),
            *final(pc),
            *final(ctx),
            r,
        ),
{
    proof {
        reveal(apply);
    }
    if size < 1 || size > 16 {
        return (None, Some(RunError::InvalidOpCode));
    }
    match ctx.stack.swap(size as i16) {
        Ok(()) => (None, None),
        Err(e) => (None, Some(e)),
    }
}

/// `ADD`: takes the top item off and adds it to the new top, modulo two to
/// the power 256.
pub fn op_add(pc: &mut u64, interpreter: &Interpreter, ctx: &mut CallContext) -> (r: (
    Option<Vec<u8>>,
    Option<RunError>,
))
    ensures
        handled(ExecuteFn::Add, interpreter, *old(pc), *old(ctx), *final(pc), *final(ctx), r),
{
    proof {
        reveal(apply);
    }
    binary(ExecuteFn::Add, pc, interpreter, ctx)
}

/// `SUB`: takes the top item off and puts it, less the new top, in the new
/// top's place, modulo two to the power 256.
pub fn op_sub(pc: &mut u64, interpreter: &Interpreter, ctx: &mut CallContext) -> (r: (
    Option<Vec<u8>>,
    Option<RunError>,
))
    ensures
        handled(ExecuteFn::Sub, interpreter, *old(pc), *old(ctx), *final(pc), *final(ctx), r),
{
    proof {
        reveal(apply);
    }
    binary(ExecuteFn::Sub, pc, interpreter, ctx)
}

/// `MUL`: takes the top item off and multiplies the new top by it, modulo
/// two to the power 256.
pub fn op_mul(pc: &mut u64, interpreter: &Interpreter, ctx: &mut CallContext) -> (r: (
    Option<Vec<u8>>,
    Option<RunError>,
))
    ensures
        handled(ExecuteFn::Mul, interpreter, *old(pc), *old(ctx), *final(pc), *final(ctx), r),
{
    proof {
        reveal(apply);
    }
    binary(ExecuteFn::Mul, pc, interpreter, ctx)
}

/// `DIV`: takes the top item off and puts its quotient by the new top in the
/// new top's place; zero where the new top is zero.
pub fn op_div(pc: &mut u64, interpreter: &Interpreter, ctx: &mut CallContext) -> (r: (
    Option<Vec<u8>>,
    Option<RunError>,
))
    ensures
        handled(ExecuteFn::Div, interpreter, *old(pc), *old(ctx), *final(pc), *final(ctx), r),
{
    proof {
        reveal(apply);
    }
    binary(ExecuteFn::Div, pc, interpreter, ctx)
}

/// `MOD`: takes the top item off and puts its remainder by the new top in
/// the new top's place; zero where the new top is zero.
pub fn op_mod(pc: &mut u64, interpreter: &Interpreter, ctx: &mut CallContext) -> (r: (
    Option<Vec<u8>>,
    Option<RunError>,
))
    ensures
        handled(ExecuteFn::Mod, interpreter, *old(pc), *old(ctx), *final(pc), *final(ctx), r),
{
    proof {
        reveal(apply);
    }
    binary(ExecuteFn::Mod, pc, interpreter, ctx)
}

/// `EXP`: takes the base off the top and puts it, raised to the new top,
/// in the new top's place, modulo two to the power 256; 1 for the exponent 0.
pub fn op_exp(pc: &mut u64, interpreter: &Interpreter, ctx: &mut CallContext) -> (r: (
    Option<Vec<u8>>,
    Option<RunError>,
))
    ensures
        handled(ExecuteFn::Exp, interpreter, *old(pc), *old(ctx), *final(pc), *final(ctx), r),
{
    proof {
        reveal(apply);
    }
    binary(ExecuteFn::Exp, pc, interpreter, ctx)
}

/// `NOT`: flips every bit of the top item.
pub fn op_not(pc: &mut u64, interpreter: &Interpreter, ctx: &mut CallContext) -> (r: (
    Option<Vec<u8>>,
    Option<RunError>,
))
    ensures
        handled(ExecuteFn::Not, interpreter, *old(pc), *old(ctx), *final(pc), *final(ctx), r),
{
    proof {
        reveal(apply);
    }
    unary(ExecuteFn::Not, pc, interpreter, ctx)
}

/// `LT`: takes the top item off and puts 1 in the new top's place where it
/// was below the new top, else 0.
pub fn op_lt(pc: &mut u64, interpreter: &Interpreter, ctx: &mut CallContext) -> (r: (
    Option<Vec<u8>>,
    Option<RunError>,
))
    ensures
        handled(ExecuteFn::Lt, interpreter, *old(pc), *old(ctx), *final(pc), *final(ctx), r),
{
    proof {
        reveal(apply);
    }
    binary(ExecuteFn::Lt, pc, interpreter, ctx)
}

/// `GT`: takes the top item off and puts 1 in the new top's place where it
/// was above the new top, else 0.
pub fn op_gt(pc: &mut u64, interpreter: &Interpreter, ctx: &mut CallContext) -> (r: (
    Option<Vec<u8>>,
    Option<RunError>,
))
    ensures
        handled(ExecuteFn::Gt, interpreter, *old(pc), *old(ctx), *final(pc), *final(ctx), r),
{
    proof {
        reveal(apply);
    }
    binary(ExecuteFn::Gt, pc, interpreter, ctx)
}

/// `SLT`: as `LT`; the two items are compared as unsigned numbers.
pub fn op_slt(pc: &mut u64, interpreter: &Interpreter, ctx: &mut CallContext) -> (r: (
    Option<Vec<u8>>,
    Option<RunError>,
))
    ensures
        handled(ExecuteFn::Slt, interpreter, *old(pc), *old(ctx), *final(pc), *final(ctx), r),
{
    proof {
        reveal(apply);
    }
    binary(ExecuteFn::Slt, pc, interpreter, ctx)
}

/// `SGT`: as `GT`; the two items are compared as unsigned numbers.
pub fn op_sgt(pc: &mut u64, interpreter: &Interpreter, ctx: &mut CallContext) -> (r: (
    Option<Vec<u8>>,
    Option<RunError>,
))
    ensures
        handled(ExecuteFn::Sgt, interpreter, *old(pc), *old(ctx), *final(pc), *final(ctx), r),
{
    proof {
        reveal(apply);
    }
    binary(ExecuteFn::Sgt, pc, interpreter, ctx)
}

/// `EQ`: takes the top item off and puts 1 in the new top's place where the
/// two were equal, else 0.
pub fn op_eq(pc: &mut u64, interpreter: &Interpreter, ctx: &mut CallContext) -> (r: (
    Option<Vec<u8>>,
    Option<RunError>,
))
    ensures
        handled(ExecuteFn::Eq, interpreter, *old(pc), *old(ctx), *final(pc), *final(ctx), r),
{
    proof {
        reveal(apply);
    }
    binary(ExecuteFn::Eq, pc, interpreter, ctx)
}

/// `ISZERO`: puts 1 in the top item's place where it was zero, else 0.
pub fn op_iszero(pc: &mut u64, interpreter: &Interpreter, ctx: &mut CallContext) -> (r: (
    Option<Vec<u8>>,
    Option<RunError>,
))
    ensures
        handled(ExecuteFn::IsZero, interpreter, *old(pc), *old(ctx), *final(pc), *final(ctx), r),
{
    proof {
        reveal(apply);
    }
    unary(ExecuteFn::IsZero, pc, interpreter, ctx)
}

/// `AND`: takes the top item off and puts the bitwise conjunction of the
/// two in the new top's place.
pub fn op_and(pc: &mut u64, interpreter: &Interpreter, ctx: &mut CallContext) -> (r: (
    Option<Vec<u8>>,
    Option<RunError>,
))
    ensures
        handled(ExecuteFn::And, interpreter, *old(pc), *old(ctx), *final(pc), *final(ctx), r),
{
    proof {
        reveal(apply);
    }
    binary(ExecuteFn::And, pc, interpreter, ctx)
}

/// `OR`: takes the top item off and puts the bitwise disjunction of the two
/// in the new top's place.
pub fn op_or(pc: &mut u64, interpreter: &Interpreter, ctx: &mut CallContext) -> (r: (
    Option<Vec<u8>>,
    Option<RunError>,
))
    ensures
        handled(ExecuteFn::Or, interpreter, *old(pc), *old(ctx), *final(pc), *final(ctx), r),
{
    proof {
        reveal(apply);
    }
    binary(ExecuteFn::Or, pc, interpreter, ctx)
}

/// `XOR`: takes the top item off and puts the bitwise exclusive disjunction
/// of the two in the new top's place.
pub fn op_xor(pc: &mut u64, interpreter: &Interpreter, ctx: &mut CallContext) -> (r: (
    Option<Vec<u8>>,
    Option<RunError>,
))
    ensures
        handled(ExecuteFn::Xor, interpreter, *old(pc), *old(ctx), *final(pc), *final(ctx), r),
{
    proof {
        reveal(apply);
    }
    binary(ExecuteFn::Xor, pc, interpreter, ctx)
}

/// `BYTE`: takes an index off the top and puts the byte of the new top at
/// that index in its place, the least significant byte having index 0; zero
/// for an index of 32 or more.
pub fn op_byte(pc: &mut u64, interpreter: &Interpreter, ctx: &mut CallContext) -> (r: (
    Option<Vec<u8>>,
    Option<RunError>,
))
    ensures
        handled(ExecuteFn::Byte, interpreter, *old(pc), *old(ctx), *final(pc), *final(ctx), r),
{
    proof {
        reveal(apply);
    }
    binary(ExecuteFn::Byte, pc, interpreter, ctx)
}

/// `SHA3`: takes an offset and a size off the stack and puts the Keccak-256
/// digest of that memory range on it.
pub fn op_sha3(pc: &mut u64, interpreter: &Interpreter, ctx: &mut CallContext) -> (r: (
    Option<Vec<u8>>,
    Option<RunError>,
))
    ensures
        handled(ExecuteFn::Sha3, interpreter, *old(pc), *old(ctx), *final(pc), *final(ctx), r),
{
    proof {
        reveal(apply);
    }
    if ctx.stack.size() < 2 {
        return (None, Some(RunError::StackUnderflow));
    }
    let (offset, size) = match (ctx.stack.back(0), ctx.stack.back(1)) {
        (Ok(a), Ok(b)) => (a, b),
        _ => {
            return (None, Some(RunError::StackUnderflow));
        },
    };
    let (o, n) = match checked_range(&offset, &size) {
        Some(range) => range,
        None => {
            return (None, Some(RunError::MemoryOverflow));
        },
    };
    let data = match ctx.memory.get_copy(o as i64, n as i64) {
        Some(bytes) => bytes,
        None => Vec::new(),
    };
    let digest = keccak256(data.as_slice());
    let w = word_of_bytes(digest.as_slice());
    drop_items(ctx, 1);
    let _ = ctx.stack.set_top(&w);
    assert(ctx.stack@ =~= below(old(ctx).stack@, 2).push(w));
    (None, None)
}

/// `ADDRESS`: puts the contract's address on the stack.
pub fn op_address(pc: &mut u64, interpreter: &Interpreter, ctx: &mut CallContext) -> (r: (
    Option<Vec<u8>>,
    Option<RunError>,
))
    ensures
        handled(ExecuteFn::Address, interpreter, *old(pc), *old(ctx), *final(pc), *final(ctx), r),
{
    proof {
        reveal(apply);
    }
    let address = ctx.contract.address();
    let w = word_of_bytes(address.as_slice());
    push_word(ctx, w)
}

/// `CALLER`: puts the caller's address on the stack.
pub fn op_caller(pc: &mut u64, interpreter: &Interpreter, ctx: &mut CallContext) -> (r: (
    Option<Vec<u8>>,
    Option<RunError>,
))
    ensures
        handled(ExecuteFn::Caller, interpreter, *old(pc), *old(ctx), *final(pc), *final(ctx), r),
{
    proof {
        reveal(apply);
    }
    let caller = ctx.contract.caller();
    let w = word_of_bytes(caller.as_slice());
    push_word(ctx, w)
}

/// `CALLVALUE`: puts zero on the stack; calls carry no value.
pub fn op_callvalue(pc: &mut u64, interpreter: &Interpreter, ctx: &mut CallContext) -> (r: (
    Option<Vec<u8>>,
    Option<RunError>,
))
    ensures
        handled(ExecuteFn::CallValue, interpreter, *old(pc), *old(ctx), *final(pc), *final(ctx), r),
{
    proof {
        reveal(apply);
    }
    let w = word_of_len(0);
    push_word(ctx, w)
}

/// `CALLDATALOAD`: puts the 32 bytes of call data at the offset on top of
/// the stack in the offset's place, zeros standing in beyond the end.
pub fn op_calldataload(pc: &mut u64, interpreter: &Interpreter, ctx: &mut CallContext) -> (r: (
    Option<Vec<u8>>,
    Option<RunError>,
))
    ensures
        handled(
            ExecuteFn::CallDataLoad,
            interpreter,
            *old(pc),
            *old(ctx),
            *final(pc),
            *final(ctx),
            r,
        ),
{
    proof {
        reveal(apply);
    }
    let offset = match ctx.stack.back(0) {
        Ok(w) => w,
        Err(e) => {
            return (None, Some(e));
        },
    };
    let input = ctx.contract.input();
    let start = data_start(&offset, input);
    let data = get_data(input, start, 32);
    let w = word_of_bytes(data.as_slice());
    let _ = ctx.stack.set_top(&w);
    assert(ctx.stack@ =~= below(old(ctx).stack@, 1).push(w));
    (None, None)
}

/// `CALLDATASIZE`: puts the length of the call data on the stack.
pub fn op_calldatasize(pc: &mut u64, interpreter: &Interpreter, ctx: &mut CallContext) -> (r: (
    Option<Vec<u8>>,
    Option<RunError>,
))
    ensures
        handled(
            ExecuteFn::CallDataSize,
            interpreter,
            *old(pc),
            *old(ctx),
            *final(pc),
            *final(ctx),
            r,
        ),
{
    proof {
        reveal(apply);
    }
    let w = word_of_len(ctx.contract.input().len());
    push_word(ctx, w)
}

/// `CALLDATACOPY`: takes a memory offset, a data offset and a length off the
/// stack and copies that range of the call data into the memory.
pub fn op_calldatacopy(pc: &mut u64, interpreter: &Interpreter, ctx: &mut CallContext) -> (r: (
    Option<Vec<u8>>,
    Option<RunError>,
))
    ensures
        handled(
            ExecuteFn::CallDataCopy,
            interpreter,
            *old(pc),
            *old(ctx),
            *final(pc),
            *final(ctx),
            r,
        ),
{
    proof {
        reveal(apply);
    }
    copy_to_memory(false, ctx)
}

/// `RETURNDATASIZE`: puts the length of the return data on the stack.
pub fn op_returndatasize(pc: &mut u64, interpreter: &Interpreter, ctx: &mut CallContext) -> (r: (
    Option<Vec<u8>>,
    Option<RunError>,
))
    ensures
        handled(
            ExecuteFn::ReturnDataSize,
            interpreter,
            *old(pc),
            *old(ctx),
            *final(pc),
            *final(ctx),
            r,
        ),
{
    proof {
        reveal(apply);
    }
    let w = word_of_len(interpreter.return_data.len());
    push_word(ctx, w)
}

/// `RETURNDATACOPY`: takes a memory offset, a data offset and a length off
/// the stack and copies that range of the return data into the memory;
/// `ReturnDataOutOfBounds` where the range passes the end of the return data.
pub fn op_returndatacopy(pc: &mut u64, interpreter: &Interpreter, ctx: &mut CallContext) -> (r: (
    Option<Vec<u8>>,
    Option<RunError>,
))
    ensures
        handled(
            ExecuteFn::ReturnDataCopy,
            interpreter,
            *old(pc),
            *old(ctx),
            *final(pc),
            *final(ctx),
            r,
        ),
{
    proof {
        reveal(apply);
    }
    if ctx.stack.size() < 3 {
        return (None, Some(RunError::StackUnderflow));
    }
    let (mem_offset, data_offset, length) = match (
        ctx.stack.back(0),
        ctx.stack.back(1),
        ctx.stack.back(2),
    ) {
        (Ok(a), Ok(b), Ok(c)) => (a, b, c),
        _ => {
            return (None, Some(RunError::StackUnderflow));
        },
    };
    let available = interpreter.return_data.len();
    if !data_offset.fits_u64() || !length.fits_u64() {
        return (None, Some(RunError::ReturnDataOutOfBounds));
    }
    let from: u64 = data_offset.low_u64();
    let count: u64 = length.low_u64();
    if (from as u128) + (count as u128) > (available as u128) {
        return (None, Some(RunError::ReturnDataOutOfBounds));
    }
    let (o, n) = match checked_range(&mem_offset, &length) {
        Some(range) => range,
        None => {
            return (None, Some(RunError::MemoryOverflow));
        },
    };
    let data = copy_range(&interpreter.return_data, from as usize, (from + count) as usize);
    drop_items(ctx, 3);
    ctx.memory.set(o, n, &data);
    (None, None)
}

/// `CODECOPY`: takes a memory offset, a code offset and a length off the
/// stack and copies that range of the contract's code into the memory.
pub fn op_codecopy(pc: &mut u64, interpreter: &Interpreter, ctx: &mut CallContext) -> (r: (
    Option<Vec<u8>>,
    Option<RunError>,
))
    ensures
        handled(ExecuteFn::CodeCopy, interpreter, *old(pc), *old(ctx), *final(pc), *final(ctx), r),
{
    proof {
        reveal(apply);
    }
    copy_to_memory(true, ctx)
}

/// `POP`: takes the top item off the stack.
pub fn op_pop(pc: &mut u64, interpreter: &Interpreter, ctx: &mut CallContext) -> (r: (
    Option<Vec<u8>>,
    Option<RunError>,
))
    ensures
        handled(ExecuteFn::Pop, interpreter, *old(pc), *old(ctx), *final(pc), *final(ctx), r),
{
    proof {
        reveal(apply);
    }
    match ctx.stack.pop() {
        Ok(w) => {
            assert(ctx.stack@ =~= below(old(ctx).stack@, 1));
            (None, None)
        },
        Err(e) => (None, Some(e)),
    }
}

/// `COINBASE`: puts zero on the stack; there is no block producer.
pub fn op_coinbase(pc: &mut u64, interpreter: &Interpreter, ctx: &mut CallContext) -> (r: (
    Option<Vec<u8>>,
    Option<RunError>,
))
    ensures
        handled(ExecuteFn::Coinbase, interpreter, *old(pc), *old(ctx), *final(pc), *final(ctx), r),
{
    proof {
        reveal(apply);
    }
    let w = word_of_len(0);
    push_word(ctx, w)
}

/// `MLOAD`: puts the word that the 32 bytes of memory at the offset on top
/// of the stack stand for in the offset's place.
pub fn op_mload(pc: &mut u64, interpreter: &Interpreter, ctx: &mut CallContext) -> (r: (
    Option<Vec<u8>>,
    Option<RunError>,
))
    ensures
        handled(ExecuteFn::MLoad, interpreter, *old(pc), *old(ctx), *final(pc), *final(ctx), r),
{
    proof {
        reveal(apply);
    }
    let offset = match ctx.stack.back(0) {
        Ok(w) => w,
        Err(e) => {
            return (None, Some(e));
        },
    };
    let o = match checked_offset(&offset, 32) {
        Some(o) => o,
        None => {
            return (None, Some(RunError::MemoryOverflow));
        },
    };
    let w = match ctx.memory.get_copy(o as i64, 32) {
        Some(bytes) => word_of_bytes(bytes.as_slice()),
        None => word_of_len(0),
    };
    let _ = ctx.stack.set_top(&w);
    assert(ctx.stack@ =~= below(old(ctx).stack@, 1).push(w));
    (None, None)
}

/// `MSTORE`: takes an offset and a word off the stack and writes the word's
/// 32 bytes, most significant first, into the memory at the offset.
pub fn op_mstore(pc: &mut u64, interpreter: &Interpreter, ctx: &mut CallContext) -> (r: (
    Option<Vec<u8>>,
    Option<RunError>,
))
    ensures
        handled(ExecuteFn::MStore, interpreter, *old(pc), *old(ctx), *final(pc), *final(ctx), r),
{
    proof {
        reveal(apply);
    }
    if ctx.stack.size() < 2 {
        return (None, Some(RunError::StackUnderflow));
    }
    let (offset, value) = match (ctx.stack.back(0), ctx.stack.back(1)) {
        (Ok(a), Ok(b)) => (a, b),
        _ => {
            return (None, Some(RunError::StackUnderflow));
        },
    };
    let o = match checked_offset(&offset, 32) {
        Some(o) => o,
        None => {
            return (None, Some(RunError::MemoryOverflow));
        },
    };
    drop_items(ctx, 2);
    ctx.memory.set32(o, &value);
    proof {
        lemma_be_bytes_len(value@, 32);
    }
    (None, None)
}

/// `JUMP`: takes a destination off the stack and sets the program counter
/// to it; `InvalidJump` where no `JUMPDEST` instruction starts there.
pub fn op_jump(pc: &mut u64, interpreter: &Interpreter, ctx: &mut CallContext) -> (r: (
    Option<Vec<u8>>,
    Option<RunError>,
))
    ensures
        handled(ExecuteFn::Jump, interpreter, *old(pc), *old(ctx), *final(pc), *final(ctx), r),
{
    proof {
        reveal(apply);
    }
    let dest = match ctx.stack.back(0) {
        Ok(w) => w,
        Err(e) => {
            return (None, Some(e));
        },
    };
    if !ctx.contract.valid_jumpdest(&dest) {
        return (None, Some(RunError::InvalidJump));
    }
    let n = ctx.contract.code().len();
    let fits = dest.fits_u64();
    drop_items(ctx, 1);
    *pc = dest.low_u64();
    (None, None)
}

/// `JUMPI`: takes a destination and a condition off the stack; jumps as
/// `JUMP` does where the condition is not zero, else moves the program
/// counter on by one.
pub fn op_jumpi(pc: &mut u64, interpreter: &Interpreter, ctx: &mut CallContext) -> (r: (
    Option<Vec<u8>>,
    Option<RunError>,
))
    ensures
        handled(ExecuteFn::JumpI, interpreter, *old(pc), *old(ctx), *final(pc), *final(ctx), r),
{
    proof {
        reveal(apply);
    }
    if ctx.stack.size() < 2 {
        return (None, Some(RunError::StackUnderflow));
    }
    let (dest, cond) = match (ctx.stack.back(0), ctx.stack.back(1)) {
        (Ok(a), Ok(b)) => (a, b),
        _ => {
            return (None, Some(RunError::StackUnderflow));
        },
    };
    if cond.is_zero() {
        drop_items(ctx, 2);
        *pc = if *pc == u64::MAX {
            u64::MAX
        } else {
            *pc + 1
        };
        return (None, None);
    }
    if !ctx.contract.valid_jumpdest(&dest) {
        return (None, Some(RunError::InvalidJump));
    }
    let n = ctx.contract.code().len();
    let fits = dest.fits_u64();
    drop_items(ctx, 2);
    *pc = dest.low_u64();
    (None, None)
}

/// `JUMPDEST`: marks a place that may be jumped to, and does nothing.
pub fn op_jumpdest(pc: &mut u64, interpreter: &Interpreter, ctx: &mut CallContext) -> (r: (
    Option<Vec<u8>>,
    Option<RunError>,
))
    ensures
        handled(ExecuteFn::JumpDest, interpreter, *old(pc), *old(ctx), *final(pc), *final(ctx), r),
{
    proof {
        reveal(apply);
    }
    (None, None)
}

/// `MSIZE`: puts the size of the memory in bytes on the stack.
pub fn op_msize(pc: &mut u64, interpreter: &Interpreter, ctx: &mut CallContext) -> (r: (
    Option<Vec<u8>>,
    Option<RunError>,
))
    ensures
        handled(ExecuteFn::MSize, interpreter, *old(pc), *old(ctx), *final(pc), *final(ctx), r),
{
    proof {
        reveal(apply);
    }
    let w = word_of_len(ctx.memory.size());
    push_word(ctx, w)
}

/// `RETURN`: takes an offset and a size off the stack and hands that range
/// of the memory out; nothing for an empty range.
pub fn op_return(pc: &mut u64, interpreter: &Interpreter, ctx: &mut CallContext) -> (r: (
    Option<Vec<u8>>,
    Option<RunError>,
))
    ensures
        handled(ExecuteFn::Return, interpreter, *old(pc), *old(ctx), *final(pc), *final(ctx), r),
{
    proof {
        reveal(apply);
    }
    hand_out(ctx)
}

/// `REVERT`: takes an offset and a size off the stack and hands that range
/// of the memory out; nothing for an empty range.
pub fn op_revert(pc: &mut u64, interpreter: &Interpreter, ctx: &mut CallContext) -> (r: (
    Option<Vec<u8>>,
    Option<RunError>,
))
    ensures
        handled(ExecuteFn::Revert, interpreter, *old(pc), *old(ctx), *final(pc), *final(ctx), r),
{
    proof {
        reveal(apply);
    }
    hand_out(ctx)
}

/// `STOP`: does nothing; the call ends with it.
pub fn op_stop(pc: &mut u64, interpreter: &Interpreter, ctx: &mut CallContext) -> (r: (
    Option<Vec<u8>>,
    Option<RunError>,
))
    ensures
        handled(ExecuteFn::Stop, interpreter, *old(pc), *old(ctx), *final(pc), *final(ctx), r),
{
    proof {
        reveal(apply);
    }
    (None, None)
}

/// `LOG0`: takes an offset, a size and no topic off the stack.
pub fn make_log0(pc: &mut u64, interpreter: &Interpreter, ctx: &mut CallContext) -> (r: (
    Option<Vec<u8>>,
    Option<RunError>,
))
    ensures
        handled(ExecuteFn::Log(0), interpreter, *old(pc), *old(ctx), *final(pc), *final(ctx), r),
{
    proof {
        reveal(apply);
    }
    make_log(pc, interpreter, ctx, 0)
}

/// `LOG1`: takes an offset, a size and one topic off the stack.
pub fn make_log1(pc: &mut u64, interpreter: &Interpreter, ctx: &mut CallContext) -> (r: (
    Option<Vec<u8>>,
    Option<RunError>,
))
    ensures
        handled(ExecuteFn::Log(1), interpreter, *old(pc), *old(ctx), *final(pc), *final(ctx), r),
{
    proof {
        reveal(apply);
    }
    make_log(pc, interpreter, ctx, 1)
}

/// `LOG2`: takes an offset, a size and 2 topics off the stack.
pub fn make_log2(pc: &mut u64, interpreter: &Interpreter, ctx: &mut CallContext) -> (r: (
    Option<Vec<u8>>,
    Option<RunError>,
))
    ensures
        handled(ExecuteFn::Log(2), interpreter, *old(pc), *old(ctx), *final(pc), *final(ctx), r),
{
    proof {
        reveal(apply);
    }
    make_log(pc, interpreter, ctx, 2)
}

/// `LOG3`: takes an offset, a size and 3 topics off the stack.
pub fn make_log3(pc: &mut u64, interpreter: &Interpreter, ctx: &mut CallContext) -> (r: (
    Option<Vec<u8>>,
    Option<RunError>,
))
    ensures
        handled(ExecuteFn::Log(3), interpreter, *old(pc), *old(ctx), *final(pc), *final(ctx), r),
{
    proof {
        reveal(apply);
    }
    make_log(pc, interpreter, ctx, 3)
}

/// `LOG4`: takes an offset, a size and 4 topics off the stack.
pub fn make_log4(pc: &mut u64, interpreter: &Interpreter, ctx: &mut CallContext) -> (r: (
    Option<Vec<u8>>,
    Option<RunError>,
))
    ensures
        handled(ExecuteFn::Log(4), interpreter, *old(pc), *old(ctx), *final(pc), *final(ctx), r),
{
    proof {
        reveal(apply);
    }
    make_log(pc, interpreter, ctx, 4)
}

/// `PUSH1`: puts the byte behind the opcode on the stack and moves the
/// program counter over it.
pub fn op_push1(pc: &mut u64, interpreter: &Interpreter, ctx: &mut CallContext) -> (r: (
    Option<Vec<u8>>,
    Option<RunError>,
))
    ensures
        handled(ExecuteFn::Push(1), interpreter, *old(pc), *old(ctx), *final(pc), *final(ctx), r),
{
    proof {
        reveal(apply);
    }
    make_push(pc, interpreter, ctx, 1)
}

/// `PUSH2`: puts the 2 bytes behind the opcode on the stack as one word and
/// moves the program counter over them.
pub fn make_push2(pc: &mut u64, interpreter: &Interpreter, ctx: &mut CallContext) -> (r: (
    Option<Vec<u8>>,
    Option<RunError>,
))
    ensures
        handled(ExecuteFn::Push(2), interpreter, *old(pc), *old(ctx), *final(pc), *final(ctx), r),
{
    proof {
        reveal(apply);
    }
    make_push(pc, interpreter, ctx, 2)
}

/// `PUSH3`: puts the 3 bytes behind the opcode on the stack as one word and
/// moves the program counter over them.
pub fn make_push3(pc: &mut u64, interpreter: &Interpreter, ctx: &mut CallContext) -> (r: (
    Option<Vec<u8>>,
    Option<RunError>,
))
    ensures
        handled(ExecuteFn::Push(3), interpreter, *old(pc), *old(ctx), *final(pc), *final(ctx), r),
{
    proof {
        reveal(apply);
    }
    make_push(pc, interpreter, ctx, 3)
}

/// `PUSH4`: puts the 4 bytes behind the opcode on the stack as one word and
/// moves the program counter over them.
pub fn make_push4(pc: &mut u64, interpreter: &Interpreter, ctx: &mut CallContext) -> (r: (
    Option<Vec<u8>>,
    Option<RunError>,
))
    ensures
        handled(ExecuteFn::Push(4), interpreter, *old(pc), *old(ctx), *final(pc), *final(ctx), r),
{
    proof {
        reveal(apply);
    }
    make_push(pc, interpreter, ctx, 4)
}

/// `PUSH5`: puts the 5 bytes behind the opcode on the stack as one word and
/// moves the program counter over them.
pub fn make_push5(pc: &mut u64, interpreter: &Interpreter, ctx: &mut CallContext) -> (r: (
    Option<Vec<u8>>,
    Option<RunError>,
))
    ensures
        handled(ExecuteFn::Push(5), interpreter, *old(pc), *old(ctx), *final(pc), *final(ctx), r),
{
    proof {
        reveal(apply);
    }
    make_push(pc, interpreter, ctx, 5)
}

/// `PUSH6`: puts the 6 bytes behind the opcode on the stack as one word and
/// moves the program counter over them.
pub fn make_push6(pc: &mut u64, interpreter: &Interpreter, ctx: &mut CallContext) -> (r: (
    Option<Vec<u8>>,
    Option<RunError>,
))
    ensures
        handled(ExecuteFn::Push(6), interpreter, *old(pc), *old(ctx), *final(pc), *final(ctx), r),
{
    proof {
        reveal(apply);
    }
    make_push(pc, interpreter, ctx, 6)
}

/// `PUSH7`: puts the 7 bytes behind the opcode on the stack as one word and
/// moves the program counter over them.
pub fn make_push7(pc: &mut u64, interpreter: &Interpreter, ctx: &mut CallContext) -> (r: (
    Option<Vec<u8>>,
    Option<RunError>,
))
    ensures
        handled(ExecuteFn::Push(7), interpreter, *old(pc), *old(ctx), *final(pc), *final(ctx), r),
{
    proof {
        reveal(apply);
    }
    make_push(pc, interpreter, ctx, 7)
}

/// `PUSH8`: puts the 8 bytes behind the opcode on the stack as one word and
/// moves the program counter over them.
pub fn make_push8(pc: &mut u64, interpreter: &Interpreter, ctx: &mut CallContext) -> (r: (
    Option<Vec<u8>>,
    Option<RunError>,
))
    ensures
        handled(ExecuteFn::Push(8), interpreter, *old(pc), *old(ctx), *final(pc), *final(ctx), r),
{
    proof {
        reveal(apply);
    }
    make_push(pc, interpreter, ctx, 8)
}

/// `PUSH9`: puts the 9 bytes behind the opcode on the stack as one word and
/// moves the program counter over them.
pub fn make_push9(pc: &mut u64, interpreter: &Interpreter, ctx: &mut CallContext) -> (r: (
    Option<Vec<u8>>,
    Option<RunError>,
))
    ensures
        handled(ExecuteFn::Push(9), interpreter, *old(pc), *old(ctx), *final(pc), *final(ctx), r),
{
    proof {
        reveal(apply);
    }
    make_push(pc, interpreter, ctx, 9)
}

/// `PUSH10`: puts the 10 bytes behind the opcode on the stack as one word and
/// moves the program counter over them.
pub fn make_push10(pc: &mut u64, interpreter: &Interpreter, ctx: &mut CallContext) -> (r: (
    Option<Vec<u8>>,
    Option<RunError>,
))
    ensures
        handled(ExecuteFn::Push(10), interpreter, *old(pc), *old(ctx), *final(pc), *final(ctx), r),
{
    proof {
        reveal(apply);
    }
    make_push(pc, interpreter, ctx, 10)
}

/// `PUSH11`: puts the 11 bytes behind the opcode on the stack as one word and
/// moves the program counter over them.
pub fn make_push11(pc: &mut u64, interpreter: &Interpreter, ctx: &mut CallContext) -> (r: (
    Option<Vec<u8>>,
    Option<RunError>,
))
    ensures
        handled(ExecuteFn::Push(11), interpreter, *old(pc), *old(ctx), *final(pc), *final(ctx), r),
{
    proof {
        reveal(apply);
    }
    make_push(pc, interpreter, ctx, 11)
}

/// `PUSH12`: puts the 12 bytes behind the opcode on the stack as one word and
/// moves the program counter over them.
pub fn make_push12(pc: &mut u64, interpreter: &Interpreter, ctx: &mut CallContext) -> (r: (
    Option<Vec<u8>>,
    Option<RunError>,
))
    ensures
        handled(ExecuteFn::Push(12), interpreter, *old(pc), *old(ctx), *final(pc), *final(ctx), r),
{
    proof {
        reveal(apply);
    }
    make_push(pc, interpreter, ctx, 12)
}

/// `PUSH13`: puts the 13 bytes behind the opcode on the stack as one word and
/// moves the program counter over them.
pub fn make_push13(pc: &mut u64, interpreter: &Interpreter, ctx: &mut CallContext) -> (r: (
    Option<Vec<u8>>,
    Option<RunError>,
))
    ensures
        handled(ExecuteFn::Push(13), interpreter, *old(pc), *old(ctx), *final(pc), *final(ctx), r),
{
    proof {
        reveal(apply);
    }
    make_push(pc, interpreter, ctx, 13)
}

/// `PUSH14`: puts the 14 bytes behind the opcode on the stack as one word and
/// moves the program counter over them.
pub fn make_push14(pc: &mut u64, interpreter: &Interpreter, ctx: &mut CallContext) -> (r: (
    Option<Vec<u8>>,
    Option<RunError>,
))
    ensures
        handled(ExecuteFn::Push(14), interpreter, *old(pc), *old(ctx), *final(pc), *final(ctx), r),
{
    proof {
        reveal(apply);
    }
    make_push(pc, interpreter, ctx, 14)
}

/// `PUSH15`: puts the 15 bytes behind the opcode on the stack as one word and
/// moves the program counter over them.
pub fn make_push15(pc: &mut u64, interpreter: &Interpreter, ctx: &mut CallContext) -> (r: (
    Option<Vec<u8>>,
    Option<RunError>,
))
    ensures
        handled(ExecuteFn::Push(15), interpreter, *old(pc), *old(ctx), *final(pc), *final(ctx), r),
{
    proof {
        reveal(apply);
    }
    make_push(pc, interpreter, ctx, 15)
}

/// `PUSH16`: puts the 16 bytes behind the opcode on the stack as one word and
/// moves the program counter over them.
pub fn make_push16(pc: &mut u64, interpreter: &Interpreter, ctx: &mut CallContext) -> (r: (
    Option<Vec<u8>>,
    Option<RunError>,
))
    ensures
        handled(ExecuteFn::Push(16), interpreter, *old(pc), *old(ctx), *final(pc), *final(ctx), r),
{
    proof {
        reveal(apply);
    }
    make_push(pc, interpreter, ctx, 16)
}

/// `PUSH17`: puts the 17 bytes behind the opcode on the stack as one word and
/// moves the program counter over them.
pub fn make_push17(pc: &mut u64, interpreter: &Interpreter, ctx: &mut CallContext) -> (r: (
    Option<Vec<u8>>,
    Option<RunError>,
))
    ensures
        handled(ExecuteFn::Push(17), interpreter, *old(pc), *old(ctx), *final(pc), *final(ctx), r),
{
    proof {
        reveal(apply);
    }
    make_push(pc, interpreter, ctx, 17)
}

/// `PUSH18`: puts the 18 bytes behind the opcode on the stack as one word and
/// moves the program counter over them.
pub fn make_push18(pc: &mut u64, interpreter: &Interpreter, ctx: &mut CallContext) -> (r: (
    Option<Vec<u8>>,
    Option<RunError>,
))
    ensures
        handled(ExecuteFn::Push(18), interpreter, *old(pc), *old(ctx), *final(pc), *final(ctx), r),
{
    proof {
        reveal(apply);
    }
    make_push(pc, interpreter, ctx, 18)
}

/// `PUSH19`: puts the 19 bytes behind the opcode on the stack as one word and
/// moves the program counter over them.
pub fn make_push19(pc: &mut u64, interpreter: &Interpreter, ctx: &mut CallContext) -> (r: (
    Option<Vec<u8>>,
    Option<RunError>,
))
    ensures
        handled(ExecuteFn::Push(19), interpreter, *old(pc), *old(ctx), *final(pc), *final(ctx), r),
{
    proof {
        reveal(apply);
    }
    make_push(pc, interpreter, ctx, 19)
}

/// `PUSH20`: puts the 20 bytes behind the opcode on the stack as one word and
/// moves the program counter over them.
pub fn make_push20(pc: &mut u64, interpreter: &Interpreter, ctx: &mut CallContext) -> (r: (
    Option<Vec<u8>>,
    Option<RunError>,
))
    ensures
        handled(ExecuteFn::Push(20), interpreter, *old(pc), *old(ctx), *final(pc), *final(ctx), r),
{
    proof {
        reveal(apply);
    }
    make_push(pc, interpreter, ctx, 20)
}

/// `PUSH21`: puts the 21 bytes behind the opcode on the stack as one word and
/// moves the program counter over them.
pub fn make_push21(pc: &mut u64, interpreter: &Interpreter, ctx: &mut CallContext) -> (r: (
    Option<Vec<u8>>,
    Option<RunError>,
))
    ensures
        handled(ExecuteFn::Push(21), interpreter, *old(pc), *old(ctx), *final(pc), *final(ctx), r),
{
    proof {
        reveal(apply);
    }
    make_push(pc, interpreter, ctx, 21)
}

/// `PUSH22`: puts the 22 bytes behind the opcode on the stack as one word and
/// moves the program counter over them.
pub fn make_push22(pc: &mut u64, interpreter: &Interpreter, ctx: &mut CallContext) -> (r: (
    Option<Vec<u8>>,
    Option<RunError>,
))
    ensures
        handled(ExecuteFn::Push(22), interpreter, *old(pc), *old(ctx), *final(pc), *final(ctx), r),
{
    proof {
        reveal(apply);
    }
    make_push(pc, interpreter, ctx, 22)
}

/// `PUSH23`: puts the 23 bytes behind the opcode on the stack as one word and
/// moves the program counter over them.
pub fn make_push23(pc: &mut u64, interpreter: &Interpreter, ctx: &mut CallContext) -> (r: (
    Option<Vec<u8>>,
    Option<RunError>,
))
    ensures
        handled(ExecuteFn::Push(23), interpreter, *old(pc), *old(ctx), *final(pc), *final(ctx), r),
{
    proof {
        reveal(apply);
    }
    make_push(pc, interpreter, ctx, 23)
}

/// `PUSH24`: puts the 24 bytes behind the opcode on the stack as one word and
/// moves the program counter over them.
pub fn make_push24(pc: &mut u64, interpreter: &Interpreter, ctx: &mut CallContext) -> (r: (
    Option<Vec<u8>>,
    Option<RunError>,
))
    ensures
        handled(ExecuteFn::Push(24), interpreter, *old(pc), *old(ctx), *final(pc), *final(ctx), r),
{
    proof {
        reveal(apply);
    }
    make_push(pc, interpreter, ctx, 24)
}

/// `PUSH25`: puts the 25 bytes behind the opcode on the stack as one word and
/// moves the program counter over them.
pub fn make_push25(pc: &mut u64, interpreter: &Interpreter, ctx: &mut CallContext) -> (r: (
    Option<Vec<u8>>,
    Option<RunError>,
))
    ensures
        handled(ExecuteFn::Push(25), interpreter, *old(pc), *old(ctx), *final(pc), *final(ctx), r),
{
    proof {
        reveal(apply);
    }
    make_push(pc, interpreter, ctx, 25)
}

/// `PUSH26`: puts the 26 bytes behind the opcode on the stack as one word and
/// moves the program counter over them.
pub fn make_push26(pc: &mut u64, interpreter: &Interpreter, ctx: &mut CallContext) -> (r: (
    Option<Vec<u8>>,
    Option<RunError>,
))
    ensures
        handled(ExecuteFn::Push(26), interpreter, *old(pc), *old(ctx), *final(pc), *final(ctx), r),
{
    proof {
        reveal(apply);
    }
    make_push(pc, interpreter, ctx, 26)
}

/// `PUSH27`: puts the 27 bytes behind the opcode on the stack as one word and
/// moves the program counter over them.
pub fn make_push27(pc: &mut u64, interpreter: &Interpreter, ctx: &mut CallContext) -> (r: (
    Option<Vec<u8>>,
    Option<RunError>,
))
    ensures
        handled(ExecuteFn::Push(27), interpreter, *old(pc), *old(ctx), *final(pc), *final(ctx), r),
{
    proof {
        reveal(apply);
    }
    make_push(pc, interpreter, ctx, 27)
}

/// `PUSH28`: puts the 28 bytes behind the opcode on the stack as one word and
/// moves the program counter over them.
pub fn make_push28(pc: &mut u64, interpreter: &Interpreter, ctx: &mut CallContext) -> (r: (
    Option<Vec<u8>>,
    Option<RunError>,
))
    ensures
        handled(ExecuteFn::Push(28), interpreter, *old(pc), *old(ctx), *final(pc), *final(ctx), r),
{
    proof {
        reveal(apply);
    }
    make_push(pc, interpreter, ctx, 28)
}

/// `PUSH29`: puts the 29 bytes behind the opcode on the stack as one word and
/// moves the program counter over them.
pub fn make_push29(pc: &mut u64, interpreter: &Interpreter, ctx: &mut CallContext) -> (r: (
    Option<Vec<u8>>,
    Option<RunError>,
))
    ensures
        handled(ExecuteFn::Push(29), interpreter, *old(pc), *old(ctx), *final(pc), *final(ctx), r),
{
    proof {
        reveal(apply);
    }
    make_push(pc, interpreter, ctx, 29)
}

/// `PUSH30`: puts the 30 bytes behind the opcode on the stack as one word and
/// moves the program counter over them.
pub fn make_push30(pc: &mut u64, interpreter: &Interpreter, ctx: &mut CallContext) -> (r: (
    Option<Vec<u8>>,
    Option<RunError>,
))
    ensures
        handled(ExecuteFn::Push(30), interpreter, *old(pc), *old(ctx), *final(pc), *final(ctx), r),
{
    proof {
        reveal(apply);
    }
    make_push(pc, interpreter, ctx, 30)
}

/// `PUSH31`: puts the 31 bytes behind the opcode on the stack as one word and
/// moves the program counter over them.
pub fn make_push31(pc: &mut u64, interpreter: &Interpreter, ctx: &mut CallContext) -> (r: (
    Option<Vec<u8>>,
    Option<RunError>,
))
    ensures
        handled(ExecuteFn::Push(31), interpreter, *old(pc), *old(ctx), *final(pc), *final(ctx), r),
{
    proof {
        reveal(apply);
    }
    make_push(pc, interpreter, ctx, 31)
}

/// `PUSH32`: puts the 32 bytes behind the opcode on the stack as one word and
/// moves the program counter over them.
pub fn make_push32(pc: &mut u64, interpreter: &Interpreter, ctx: &mut CallContext) -> (r: (
    Option<Vec<u8>>,
    Option<RunError>,
))
    ensures
        handled(ExecuteFn::Push(32), interpreter, *old(pc), *old(ctx), *final(pc), *final(ctx), r),
{
    proof {
        reveal(apply);
    }
    make_push(pc, interpreter, ctx, 32)
}

/// `DUP1`: puts a copy of the top item on the stack.
pub fn make_dup1(pc: &mut u64, interpreter: &Interpreter, ctx: &mut CallContext) -> (r: (
    Option<Vec<u8>>,
    Option<RunError>,
))
    ensures
        handled(ExecuteFn::Dup(1), interpreter, *old(pc), *old(ctx), *final(pc), *final(ctx), r),
{
    proof {
        reveal(apply);
    }
    make_dup(pc, interpreter, ctx, 1)
}

/// `DUP2`: puts a copy of the item 2 places from the top, the top being place 1, on the stack.
pub fn make_dup2(pc: &mut u64, interpreter: &Interpreter, ctx: &mut CallContext) -> (r: (
    Option<Vec<u8>>,
    Option<RunError>,
))
    ensures
        handled(ExecuteFn::Dup(2), interpreter, *old(pc), *old(ctx), *final(pc), *final(ctx), r),
{
    proof {
        reveal(apply);
    }
    make_dup(pc, interpreter, ctx, 2)
}

/// `DUP3`: puts a copy of the item 3 places from the top, the top being place 1, on the stack.
pub fn make_dup3(pc: &mut u64, interpreter: &Interpreter, ctx: &mut CallContext) -> (r: (
    Option<Vec<u8>>,
    Option<RunError>,
))
    ensures
        handled(ExecuteFn::Dup(3), interpreter, *old(pc), *old(ctx), *final(pc), *final(ctx), r),
{
    proof {
        reveal(apply);
    }
    make_dup(pc, interpreter, ctx, 3)
}

/// `DUP4`: puts a copy of the item 4 places from the top, the top being place 1, on the stack.
pub fn make_dup4(pc: &mut u64, interpreter: &Interpreter, ctx: &mut CallContext) -> (r: (
    Option<Vec<u8>>,
    Option<RunError>,
))
    ensures
        handled(ExecuteFn::Dup(4), interpreter, *old(pc), *old(ctx), *final(pc), *final(ctx), r),
{
    proof {
        reveal(apply);
    }
    make_dup(pc, interpreter, ctx, 4)
}

/// `DUP5`: puts a copy of the item 5 places from the top, the top being place 1, on the stack.
pub fn make_dup5(pc: &mut u64, interpreter: &Interpreter, ctx: &mut CallContext) -> (r: (
    Option<Vec<u8>>,
    Option<RunError>,
))
    ensures
        handled(ExecuteFn::Dup(5), interpreter, *old(pc), *old(ctx), *final(pc), *final(ctx), r),
{
    proof {
        reveal(apply);
    }
    make_dup(pc, interpreter, ctx, 5)
}

/// `DUP6`: puts a copy of the item 6 places from the top, the top being place 1, on the stack.
pub fn make_dup6(pc: &mut u64, interpreter: &Interpreter, ctx: &mut CallContext) -> (r: (
    Option<Vec<u8>>,
    Option<RunError>,
))
    ensures
        handled(ExecuteFn::Dup(6), interpreter, *old(pc), *old(ctx), *final(pc), *final(ctx), r),
{
    proof {
        reveal(apply);
    }
    make_dup(pc, interpreter, ctx, 6)
}

/// `DUP7`: puts a copy of the item 7 places from the top, the top being place 1, on the stack.
pub fn make_dup7(pc: &mut u64, interpreter: &Interpreter, ctx: &mut CallContext) -> (r: (
    Option<Vec<u8>>,
    Option<RunError>,
))
    ensures
        handled(ExecuteFn::Dup(7), interpreter, *old(pc), *old(ctx), *final(pc), *final(ctx), r),
{
    proof {
        reveal(apply);
    }
    make_dup(pc, interpreter, ctx, 7)
}

/// `DUP8`: puts a copy of the item 8 places from the top, the top being place 1, on the stack.
pub fn make_dup8(pc: &mut u64, interpreter: &Interpreter, ctx: &mut CallContext) -> (r: (
    Option<Vec<u8>>,
    Option<RunError>,
))
    ensures
        handled(ExecuteFn::Dup(8), interpreter, *old(pc), *old(ctx), *final(pc), *final(ctx), r),
{
    proof {
        reveal(apply);
    }
    make_dup(pc, interpreter, ctx, 8)
}

/// `DUP9`: puts a copy of the item 9 places from the top, the top being place 1, on the stack.
pub fn make_dup9(pc: &mut u64, interpreter: &Interpreter, ctx: &mut CallContext) -> (r: (
    Option<Vec<u8>>,
    Option<RunError>,
))
    ensures
        handled(ExecuteFn::Dup(9), interpreter, *old(pc), *old(ctx), *final(pc), *final(ctx), r),
{
    proof {
        reveal(apply);
    }
    make_dup(pc, interpreter, ctx, 9)
}

/// `DUP10`: puts a copy of the item 10 places from the top, the top being place 1, on the stack.
pub fn make_dup10(pc: &mut u64, interpreter: &Interpreter, ctx: &mut CallContext) -> (r: (
    Option<Vec<u8>>,
    Option<RunError>,
))
    ensures
        handled(ExecuteFn::Dup(10), interpreter, *old(pc), *old(ctx), *final(pc), *final(ctx), r),
{
    proof {
        reveal(apply);
    }
    make_dup(pc, interpreter, ctx, 10)
}

/// `DUP11`: puts a copy of the item 11 places from the top, the top being place 1, on the stack.
pub fn make_dup11(pc: &mut u64, interpreter: &Interpreter, ctx: &mut CallContext) -> (r: (
    Option<Vec<u8>>,
    Option<RunError>,
))
    ensures
        handled(ExecuteFn::Dup(11), interpreter, *old(pc), *old(ctx), *final(pc), *final(ctx), r),
{
    proof {
        reveal(apply);
    }
    make_dup(pc, interpreter, ctx, 11)
}

/// `DUP12`: puts a copy of the item 12 places from the top, the top being place 1, on the stack.
pub fn make_dup12(pc: &mut u64, interpreter: &Interpreter, ctx: &mut CallContext) -> (r: (
    Option<Vec<u8>>,
    Option<RunError>,
))
    ensures
        handled(ExecuteFn::Dup(12), interpreter, *old(pc), *old(ctx), *final(pc), *final(ctx), r),
{
    proof {
        reveal(apply);
    }
    make_dup(pc, interpreter, ctx, 12)
}

/// `DUP13`: puts a copy of the item 13 places from the top, the top being place 1, on the stack.
pub fn make_dup13(pc: &mut u64, interpreter: &Interpreter, ctx: &mut CallContext) -> (r: (
    Option<Vec<u8>>,
    Option<RunError>,
))
    ensures
        handled(ExecuteFn::Dup(13), interpreter, *old(pc), *old(ctx), *final(pc), *final(ctx), r),
{
    proof {
        reveal(apply);
    }
    make_dup(pc, interpreter, ctx, 13)
}

/// `DUP14`: puts a copy of the item 14 places from the top, the top being place 1, on the stack.
pub fn make_dup14(pc: &mut u64, interpreter: &Interpreter, ctx: &mut CallContext) -> (r: (
    Option<Vec<u8>>,
    Option<RunError>,
))
    ensures
        handled(ExecuteFn::Dup(14), interpreter, *old(pc), *old(ctx), *final(pc), *final(ctx), r),
{
    proof {
        reveal(apply);
    }
    make_dup(pc, interpreter, ctx, 14)
}

/// `DUP15`: puts a copy of the item 15 places from the top, the top being place 1, on the stack.
pub fn make_dup15(pc: &mut u64, interpreter: &Interpreter, ctx: &mut CallContext) -> (r: (
    Option<Vec<u8>>,
    Option<RunError>,
))
    ensures
        handled(ExecuteFn::Dup(15), interpreter, *old(pc), *old(ctx), *final(pc), *final(ctx), r),
{
    proof {
        reveal(apply);
    }
    make_dup(pc, interpreter, ctx, 15)
}

/// `DUP16`: puts a copy of the item 16 places from the top, the top being place 1, on the stack.
pub fn make_dup16(pc: &mut u64, interpreter: &Interpreter, ctx: &mut CallContext) -> (r: (
    Option<Vec<u8>>,
    Option<RunError>,
))
    ensures
        handled(ExecuteFn::Dup(16), interpreter, *old(pc), *old(ctx), *final(pc), *final(ctx), r),
{
    proof {
        reveal(apply);
    }
    make_dup(pc, interpreter, ctx, 16)
}

/// `SWAP1`: exchanges the top item with the item 1 place below it.
pub fn make_swap1(pc: &mut u64, interpreter: &Interpreter, ctx: &mut CallContext) -> (r: (
    Option<Vec<u8>>,
    Option<RunError>,
))
    ensures
        handled(ExecuteFn::Swap(1), interpreter, *old(pc), *old(ctx), *final(pc), *final(ctx), r),
{
    proof {
        reveal(apply);
    }
    make_swap(pc, interpreter, ctx, 1)
}

/// `SWAP2`: exchanges the top item with the item 2 places below it.
pub fn make_swap2(pc: &mut u64, interpreter: &Interpreter, ctx: &mut CallContext) -> (r: (
    Option<Vec<u8>>,
    Option<RunError>,
))
    ensures
        handled(ExecuteFn::Swap(2), interpreter, *old(pc), *old(ctx), *final(pc), *final(ctx), r),
{
    proof {
        reveal(apply);
    }
    make_swap(pc, interpreter, ctx, 2)
}

/// `SWAP3`: exchanges the top item with the item 3 places below it.
pub fn make_swap3(pc: &mut u64, interpreter: &Interpreter, ctx: &mut CallContext) -> (r: (
    Option<Vec<u8>>,
    Option<RunError>,
))
    ensures
        handled(ExecuteFn::Swap(3), interpreter, *old(pc), *old(ctx), *final(pc), *final(ctx), r),
{
    proof {
        reveal(apply);
    }
    make_swap(pc, interpreter, ctx, 3)
}

/// `SWAP4`: exchanges the top item with the item 4 places below it.
pub fn make_swap4(pc: &mut u64, interpreter: &Interpreter, ctx: &mut CallContext) -> (r: (
    Option<Vec<u8>>,
    Option<RunError>,
))
    ensures
        handled(ExecuteFn::Swap(4), interpreter, *old(pc), *old(ctx), *final(pc), *final(ctx), r),
{
    proof {
        reveal(apply);
    }
    make_swap(pc, interpreter, ctx, 4)
}

/// `SWAP5`: exchanges the top item with the item 5 places below it.
pub fn make_swap5(pc: &mut u64, interpreter: &Interpreter, ctx: &mut CallContext) -> (r: (
    Option<Vec<u8>>,
    Option<RunError>,
))
    ensures
        handled(ExecuteFn::Swap(5), interpreter, *old(pc), *old(ctx), *final(pc), *final(ctx), r),
{
    proof {
        reveal(apply);
    }
    make_swap(pc, interpreter, ctx, 5)
}

/// `SWAP6`: exchanges the top item with the item 6 places below it.
pub fn make_swap6(pc: &mut u64, interpreter: &Interpreter, ctx: &mut CallContext) -> (r: (
    Option<Vec<u8>>,
    Option<RunError>,
))
    ensures
        handled(ExecuteFn::Swap(6), interpreter, *old(pc), *old(ctx), *final(pc), *final(ctx), r),
{
    proof {
        reveal(apply);
    }
    make_swap(pc, interpreter, ctx, 6)
}

/// `SWAP7`: exchanges the top item with the item 7 places below it.
pub fn make_swap7(pc: &mut u64, interpreter: &Interpreter, ctx: &mut CallContext) -> (r: (
    Option<Vec<u8>>,
    Option<RunError>,
))
    ensures
        handled(ExecuteFn::Swap(7), interpreter, *old(pc), *old(ctx), *final(pc), *final(ctx), r),
{
    proof {
        reveal(apply);
    }
    make_swap(pc, interpreter, ctx, 7)
}

/// `SWAP8`: exchanges the top item with the item 8 places below it.
pub fn make_swap8(pc: &mut u64, interpreter: &Interpreter, ctx: &mut CallContext) -> (r: (
    Option<Vec<u8>>,
    Option<RunError>,
))
    ensures
        handled(ExecuteFn::Swap(8), interpreter, *old(pc), *old(ctx), *final(pc), *final(ctx), r),
{
    proof {
        reveal(apply);
    }
    make_swap(pc, interpreter, ctx, 8)
}

/// `SWAP9`: exchanges the top item with the item 9 places below it.
pub fn make_swap9(pc: &mut u64, interpreter: &Interpreter, ctx: &mut CallContext) -> (r: (
    Option<Vec<u8>>,
    Option<RunError>,
))
    ensures
        handled(ExecuteFn::Swap(9), interpreter, *old(pc), *old(ctx), *final(pc), *final(ctx), r),
{
    proof {
        reveal(apply);
    }
    make_swap(pc, interpreter, ctx, 9)
}

/// `SWAP10`: exchanges the top item with the item 10 places below it.
pub fn make_swap10(pc: &mut u64, interpreter: &Interpreter, ctx: &mut CallContext) -> (r: (
    Option<Vec<u8>>,
    Option<RunError>,
))
    ensures
        handled(ExecuteFn::Swap(10), interpreter, *old(pc), *old(ctx), *final(pc), *final(ctx), r),
{
    proof {
        reveal(apply);
    }
    make_swap(pc, interpreter, ctx, 10)
}

/// `SWAP11`: exchanges the top item with the item 11 places below it.
pub fn make_swap11(pc: &mut u64, interpreter: &Interpreter, ctx: &mut CallContext) -> (r: (
    Option<Vec<u8>>,
    Option<RunError>,
))
    ensures
        handled(ExecuteFn::Swap(11), interpreter, *old(pc), *old(ctx), *final(pc), *final(ctx), r),
{
    proof {
        reveal(apply);
    }
    make_swap(pc, interpreter, ctx, 11)
}

/// `SWAP12`: exchanges the top item with the item 12 places below it.
pub fn make_swap12(pc: &mut u64, interpreter: &Interpreter, ctx: &mut CallContext) -> (r: (
    Option<Vec<u8>>,
    Option<RunError>,
))
    ensures
        handled(ExecuteFn::Swap(12), interpreter, *old(pc), *old(ctx), *final(pc), *final(ctx), r),
{
    proof {
        reveal(apply);
    }
    make_swap(pc, interpreter, ctx, 12)
}

/// `SWAP13`: exchanges the top item with the item 13 places below it.
pub fn make_swap13(pc: &mut u64, interpreter: &Interpreter, ctx: &mut CallContext) -> (r: (
    Option<Vec<u8>>,
    Option<RunError>,
))
    ensures
        handled(ExecuteFn::Swap(13), interpreter, *old(pc), *old(ctx), *final(pc), *final(ctx), r),
{
    proof {
        reveal(apply);
    }
    make_swap(pc, interpreter, ctx, 13)
}

/// `SWAP14`: exchanges the top item with the item 14 places below it.
pub fn make_swap14(pc: &mut u64, interpreter: &Interpreter, ctx: &mut CallContext) -> (r: (
    Option<Vec<u8>>,
    Option<RunError>,
))
    ensures
        handled(ExecuteFn::Swap(14), interpreter, *old(pc), *old(ctx), *final(pc), *final(ctx), r),
{
    proof {
        reveal(apply);
    }
    make_swap(pc, interpreter, ctx, 14)
}

/// `SWAP15`: exchanges the top item with the item 15 places below it.
pub fn make_swap15(pc: &mut u64, interpreter: &Interpreter, ctx: &mut CallContext) -> (r: (
    Option<Vec<u8>>,
    Option<RunError>,
))
    ensures
        handled(ExecuteFn::Swap(15), interpreter, *old(pc), *old(ctx), *final(pc), *final(ctx), r),
{
    proof {
        reveal(apply);
    }
    make_swap(pc, interpreter, ctx, 15)
}

/// `SWAP16`: exchanges the top item with the item 16 places below it.
pub fn make_swap16(pc: &mut u64, interpreter: &Interpreter, ctx: &mut CallContext) -> (r: (
    Option<Vec<u8>>,
    Option<RunError>,
))
    ensures
        handled(ExecuteFn::Swap(16), interpreter, *old(pc), *old(ctx), *final(pc), *final(ctx), r),
{
    proof {
        reveal(apply);
    }
    make_swap(pc, interpreter, ctx, 16)
}

impl ExecuteFn {
    /// Runs the instruction on the call.
    pub fn call(&self, pc: &mut u64, interpreter: &Interpreter, ctx: &mut CallContext) -> (r: (
        Option<Vec<u8>>,
        Option<RunError>,
    ))
        ensures
            handled(*self, interpreter, *old(pc), *old(ctx), *final(pc), *final(ctx), r),
    {
        proof {
            reveal(apply);
        }
        match self {
            ExecuteFn::Add => op_add(pc, interpreter, ctx),
            ExecuteFn::Sub => op_sub(pc, interpreter, ctx),
            ExecuteFn::Mul => op_mul(pc, interpreter, ctx),
            ExecuteFn::Div => op_div(pc, interpreter, ctx),
            ExecuteFn::Mod => op_mod(pc, interpreter, ctx),
            ExecuteFn::Exp => op_exp(pc, interpreter, ctx),
            ExecuteFn::Not => op_not(pc, interpreter, ctx),
            ExecuteFn::Lt => op_lt(pc, interpreter, ctx),
            ExecuteFn::Gt => op_gt(pc, interpreter, ctx),
            ExecuteFn::Slt => op_slt(pc, interpreter, ctx),
            ExecuteFn::Sgt => op_sgt(pc, interpreter, ctx),
            ExecuteFn::Eq => op_eq(pc, interpreter, ctx),
            ExecuteFn::IsZero => op_iszero(pc, interpreter, ctx),
            ExecuteFn::And => op_and(pc, interpreter, ctx),
            ExecuteFn::Or => op_or(pc, interpreter, ctx),
            ExecuteFn::Xor => op_xor(pc, interpreter, ctx),
            ExecuteFn::Byte => op_byte(pc, interpreter, ctx),
            ExecuteFn::Sha3 => op_sha3(pc, interpreter, ctx),
            ExecuteFn::Address => op_address(pc, interpreter, ctx),
            ExecuteFn::Caller => op_caller(pc, interpreter, ctx),
            ExecuteFn::CallValue => op_callvalue(pc, interpreter, ctx),
            ExecuteFn::CallDataLoad => op_calldataload(pc, interpreter, ctx),
            ExecuteFn::CallDataSize => op_calldatasize(pc, interpreter, ctx),
            ExecuteFn::CallDataCopy => op_calldatacopy(pc, interpreter, ctx),
            ExecuteFn::ReturnDataSize => op_returndatasize(pc, interpreter, ctx),
            ExecuteFn::ReturnDataCopy => op_returndatacopy(pc, interpreter, ctx),
            ExecuteFn::CodeCopy => op_codecopy(pc, interpreter, ctx),
            ExecuteFn::Pop => op_pop(pc, interpreter, ctx),
            ExecuteFn::Coinbase => op_coinbase(pc, interpreter, ctx),
            ExecuteFn::MLoad => op_mload(pc, interpreter, ctx),
            ExecuteFn::MStore => op_mstore(pc, interpreter, ctx),
            ExecuteFn::Jump => op_jump(pc, interpreter, ctx),
            ExecuteFn::JumpI => op_jumpi(pc, interpreter, ctx),
            ExecuteFn::JumpDest => op_jumpdest(pc, interpreter, ctx),
            ExecuteFn::MSize => op_msize(pc, interpreter, ctx),
            ExecuteFn::Return => op_return(pc, interpreter, ctx),
            ExecuteFn::Revert => op_revert(pc, interpreter, ctx),
            ExecuteFn::Stop => op_stop(pc, interpreter, ctx),
            ExecuteFn::Log(n) => make_log(pc, interpreter, ctx, *n),
            ExecuteFn::Push(n) => make_push(pc, interpreter, ctx, *n),
            ExecuteFn::Dup(n) => make_dup(pc, interpreter, ctx, *n),
            ExecuteFn::Swap(n) => make_swap(pc, interpreter, ctx, *n),
        }
    }
}

} // verus!
