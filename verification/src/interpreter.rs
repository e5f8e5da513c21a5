//! The interpreter: the fetch-decode-execute loop over one contract.

use vstd::prelude::*;
use crate::context::CallContext;
use crate::contract::{byte_at, jumpdest_at, Contract};
use crate::err::RunError;
use crate::instruction::{
    advanced, apply, below, env_of, machine_of, output_view, same_frame, top, Env, Machine,
};
use crate::jumptable::{get_operation, mem_size_of, operation_of, Operation};
use crate::memory::{to_u64_size, window, Memory};
use crate::opcode::{JUMP, JUMPDEST, PUSH1};
use crate::stack::{ReturnStack, Stack, STACK_LIMIT};
use crate::vecutil::{copy_from, right_padded, safe_mul};
use crate::word::{be_value, word_of, Word};

verus! {

/// The number of steps after which a default interpreter gives a call up.
pub const STEP_LIMIT: u64 = 1000;

/// What outlives the single steps of a call: who started it, the return
/// data gathered so far, and the number of steps that a call may take.
pub struct Interpreter {
    pub origin: [u8; 20],
    pub return_data: Vec<u8>,
    pub return_with_err: u8,
    pub step_limit: u64,
}

/// Where a call stands after a step.
pub enum ExecState {
    /// The call goes on.
    Running,
    /// The call has ended in success, with this output.
    Halted(Option<Vec<u8>>),
    /// The call has ended and its effects are to be undone; this is its output.
    Reverted(Option<Vec<u8>>),
    /// The call has ended in a fault.
    Faulted(RunError),
}

/// Where a call stands after a step, outputs given as byte strings.
pub enum Status {
    /// The call goes on.
    Running,
    /// The call has ended in success, with this output.
    Halted(Option<Seq<u8>>),
    /// The call has ended and its effects are to be undone; this is its output.
    Reverted(Option<Seq<u8>>),
    /// The call has ended in a fault.
    Faulted(RunError),
}

impl View for ExecState {
    type V = Status;

    open spec fn view(&self) -> Status {
        match *self {
            ExecState::Running => Status::Running,
            ExecState::Halted(out) => Status::Halted(output_view(out)),
            ExecState::Reverted(out) => Status::Reverted(output_view(out)),
            ExecState::Faulted(e) => Status::Faulted(e),
        }
    }
}

/// What one step leaves behind.
pub struct Step {
    /// Where the call stands.
    pub status: Status,
    /// The machine after the step.
    pub machine: Machine,
    /// The return data after the step.
    pub return_data: Seq<u8>,
    /// 1 once an instruction that was to give return data gave none.
    pub return_with_err: u8,
}

/// The size in bytes, a whole number of 32-byte words, to which the memory
/// is to grow before the operation runs on the stack `s`; `MemoryOverflow`
/// where that size cannot be addressed.
pub open spec fn memory_demand(o: Operation, s: Seq<Word>) -> Result<nat, RunError> {
    match o.memory_size {
        None => Ok(0),
        Some(f) => match mem_size_of(f, s) {
            Err(e) => Err(e),
            Ok(size) => {
                let bytes = ((size.0 + 31) / 32) * 32;
                if size.1 || bytes > usize::MAX {
                    Err(RunError::MemoryOverflow)
                } else {
                    Ok(bytes as nat)
                }
            },
        },
    }
}

/// The step ends the call in the fault `e`.
pub open spec fn faulted(m: Machine, env: Env, flag: u8, e: RunError) -> Step {
    Step {
        status: Status::Faulted(e),
        machine: m,
        return_data: env.return_data,
        return_with_err: flag,
    }
}

/// One step of the call: fetch the opcode at the program counter, look its
/// operation up, hold the stack height against the operation's bounds, grow
/// the memory, run the instruction, and go by the operation's flags.
#[verifier::opaque]
pub open spec fn step_spec(env: Env, m: Machine, flag: u8) -> Step {
    match operation_of(byte_at(env.code, m.pc as nat)) {
        None => faulted(m, env, flag, RunError::InvalidOpCode),
        Some(o) => {
            if m.stack.len() < o.min_stack {
                faulted(m, env, flag, RunError::StackUnderflow)
            } else if m.stack.len() > o.max_stack {
                faulted(m, env, flag, RunError::StackOverflow)
            } else {
                match memory_demand(o, m.stack) {
                    Err(e) => faulted(m, env, flag, e),
                    Ok(bytes) => {
                        let out = apply(
                            o.execute,
                            env,
                            Machine { memory: right_padded(m.memory, bytes), ..m },
                        );
                        match out.error {
                            Some(e) => faulted(out.machine, env, flag, e),
                            None => {
                                if o.reverts {
                                    Step {
                                        status: Status::Reverted(out.output),
                                        machine: out.machine,
                                        return_data: env.return_data,
                                        return_with_err: flag,
                                    }
                                } else if o.halts {
                                    Step {
                                        status: Status::Halted(out.output),
                                        machine: out.machine,
                                        return_data: env.return_data,
                                        return_with_err: flag,
                                    }
                                } else {
                                    Step {
                                        status: Status::Running,
                                        machine: Machine {
                                            pc: if o.jumps {
                                                out.machine.pc
                                            } else {
                                                advanced(out.machine.pc, 1)
                                            },
                                            ..out.machine
                                        },
                                        return_data: match out.output {
                                            Some(bytes) if o.returns => bytes,
                                            _ => env.return_data,
                                        },
                                        return_with_err: if o.returns && out.output.is_none() {
                                            1
                                        } else {
                                            flag
                                        },
                                    }
                                }
                            },
                        }
                    },
                }
            }
        },
    }
}

/// How a call has ended.
pub struct Ended {
    /// The bytes that the call handed out.
    pub output: Option<Seq<u8>>,
    /// The error, if any.
    pub error: Option<RunError>,
    /// The return data that the interpreter is left with.
    pub return_data: Seq<u8>,
    /// 1 once an instruction that was to give return data gave none.
    pub return_with_err: u8,
}

/// What a call that may take `fuel` more steps ends with: the output and
/// no error after a halt, the output and `ExecutionReverted` after a revert,
/// the error alone after a fault, and neither once the steps are used up.
pub open spec fn run_spec(env: Env, m: Machine, flag: u8, fuel: nat) -> Ended
    decreases fuel,
{
    if fuel == 0 {
        Ended { output: None, error: None, return_data: env.return_data, return_with_err: flag }
    } else {
        let s = step_spec(env, m, flag);
        match s.status {
            Status::Running => run_spec(
                Env { return_data: s.return_data, ..env },
                s.machine,
                s.return_with_err,
                (fuel - 1) as nat,
            ),
            Status::Halted(out) => Ended {
                output: out,
                error: None,
                return_data: s.return_data,
                return_with_err: s.return_with_err,
            },
            Status::Reverted(out) => Ended {
                output: out,
                error: Some(RunError::ExecutionReverted),
                return_data: s.return_data,
                return_with_err: s.return_with_err,
            },
            Status::Faulted(e) => Ended {
                output: None,
                error: Some(e),
                return_data: s.return_data,
                return_with_err: s.return_with_err,
            },
        }
    }
}

/// What a call starts from: the contract with `input` as its call data, the
/// return data that the interpreter holds, and a stack with the default limit.
pub open spec fn start_env(contract: Contract, input: Seq<u8>, return_data: Seq<u8>) -> Env {
    Env {
        code: contract.code_view(),
        input,
        address: contract.address_view(),
        caller: contract.caller_view(),
        return_data,
        limit: STACK_LIMIT as nat,
    }
}

/// The machine at the start of a call: program counter 0, nothing on the
/// stack, nothing in the memory.
pub open spec fn start_machine() -> Machine {
    Machine { pc: 0, stack: Seq::empty(), memory: Seq::empty() }
}

/// A step at `PUSHn` moves the program counter on by `n + 1` and puts the
/// `n` bytes behind the opcode on the stack as one word, most significant
/// byte first, with zeros for the bytes that the code does not have.
pub proof fn lemma_push_step(env: Env, m: Machine, flag: u8, n: u8)
    requires
        1 <= n <= 32,
        byte_at(env.code, m.pc as nat) == PUSH1 + n - 1,
        m.stack.len() < env.limit,
        m.stack.len() < STACK_LIMIT,
        m.pc + n + 1 <= u64::MAX,
    ensures
        step_spec(env, m, flag).status == Status::Running,
        step_spec(env, m, flag).machine.pc == m.pc + n + 1,
        step_spec(env, m, flag).machine.stack == m.stack.push(
            word_of(be_value(window(env.code, m.pc + 1, n as nat))),
        ),
        step_spec(env, m, flag).machine.memory == m.memory,
{
    reveal(step_spec);
    reveal(operation_of);
    reveal(apply);
    assert(right_padded(m.memory, 0) =~= m.memory);
}

/// A step at `JUMP` faults with `InvalidJump` where no `JUMPDEST` starts at
/// the destination on top of the stack; where one does, the step takes the
/// destination off the stack and the next fetch reads that `JUMPDEST`.
pub proof fn lemma_jump_step(env: Env, m: Machine, flag: u8)
    requires
        byte_at(env.code, m.pc as nat) == JUMP,
        1 <= m.stack.len() <= STACK_LIMIT + 1,
        env.code.len() <= usize::MAX,
    ensures
        !jumpdest_at(env.code, top(m.stack, 0)@) ==> step_spec(env, m, flag).status
            == Status::Faulted(RunError::InvalidJump),
        jumpdest_at(env.code, top(m.stack, 0)@) ==> {
            let after = step_spec(env, m, flag);
            &&& after.status == Status::Running
            &&& after.machine.pc == top(m.stack, 0)@
            &&& after.machine.stack == below(m.stack, 1)
            &&& byte_at(env.code, after.machine.pc as nat) == JUMPDEST
        },
{
    reveal(step_spec);
    reveal(operation_of);
    reveal(apply);
    assert(right_padded(m.memory, 0) =~= m.memory);
}

/// A call is a function of the code, the parties, the input, the return
/// data and the step limit: two calls that agree in these end alike.
pub proof fn lemma_run_is_deterministic(
    first: Contract,
    second: Contract,
    input: Seq<u8>,
    return_data: Seq<u8>,
    flag: u8,
    fuel: nat,
)
    requires
        first.code_view() == second.code_view(),
        first.address_view() == second.address_view(),
        first.caller_view() == second.caller_view(),
    ensures
        run_spec(start_env(first, input, return_data), start_machine(), flag, fuel) == run_spec(
            start_env(second, input, return_data),
            start_machine(),
            flag,
            fuel,
        ),
{
}

impl Interpreter {
    /// An interpreter for calls that `origin` starts, with no return data
    /// and the default step limit.
    pub fn new(origin: [u8; 20]) -> (r: Interpreter)
        ensures
            r.origin == origin,
            r.return_data@ == Seq::<u8>::empty(),
            r.return_with_err == 0,
            r.step_limit == STEP_LIMIT,
    {
        Interpreter { origin, return_data: Vec::new(), return_with_err: 0, step_limit: STEP_LIMIT }
    }

    /// As `new`, for calls that may take up to `step_limit` steps.
    pub fn with_step_limit(origin: [u8; 20], step_limit: u64) -> (r: Interpreter)
        ensures
            r.origin == origin,
            r.return_data@ == Seq::<u8>::empty(),
            r.return_with_err == 0,
            r.step_limit == step_limit,
    {
        Interpreter { origin, return_data: Vec::new(), return_with_err: 0, step_limit }
    }

    /// What the interpreter and the call hold after a step.
    pub open spec fn stepped(&self, pc: u64, ctx: CallContext, state: ExecState) -> Step {
        Step {
            status: state@,
            machine: machine_of(pc, ctx),
            return_data: self.return_data@,
            return_with_err: self.return_with_err,
        }
    }

    /// What the interpreter holds after a call that returned `r`.
    pub open spec fn ended(&self, r: (Option<Vec<u8>>, Option<RunError>)) -> Ended {
        Ended {
            output: output_view(r.0),
            error: r.1,
            return_data: self.return_data@,
            return_with_err: self.return_with_err,
        }
    }

    /// Takes the call one step further.
    pub fn step(&mut self, pc: &mut u64, ctx: &mut CallContext) -> (r: ExecState)
        ensures
            same_frame(*old(ctx), *final(ctx)),
            final(self).origin == old(self).origin,
            final(self).step_limit == old(self).step_limit,
            final(self).stepped(*final(pc), *final(ctx), r) == step_spec(
                env_of(old(self), *old(ctx)),
                machine_of(*old(pc), *old(ctx)),
                old(self).return_with_err,
            ),
    {
        proof {
            reveal(step_spec);
        }
        let op = ctx.contract.get_byte(*pc);
        let operation = match get_operation(op) {
            Some(o) => o,
            None => {
                return ExecState::Faulted(RunError::InvalidOpCode);
            },
        };
        let height = ctx.stack.size();
        if (height as i128) < (operation.min_stack as i128) {
            return ExecState::Faulted(RunError::StackUnderflow);
        }
        if (height as i128) > (operation.max_stack as i128) {
            return ExecState::Faulted(RunError::StackOverflow);
        }
        match operation.memory_size {
            None => {
                assert(right_padded(ctx.memory@, 0) =~= ctx.memory@);
            },
            Some(f) => {
                let size = match f.call(&ctx.stack) {
                    Ok(size) => size,
                    Err(e) => {
                        return ExecState::Faulted(e);
                    },
                };
                if size.1 {
                    return ExecState::Faulted(RunError::MemoryOverflow);
                }
                let (bytes, beyond) = safe_mul(to_u64_size(size.0), 32);
                if beyond || (bytes as u128) > (usize::MAX as u128) {
                    return ExecState::Faulted(RunError::MemoryOverflow);
                }
                ctx.memory.resize(bytes);
            },
        }
        let (res, err) = operation.execute.call(pc, &*self, ctx);
        match err {
            Some(e) => {
                return ExecState::Faulted(e);
            },
            None => {},
        }
        if operation.reverts {
            return ExecState::Reverted(res);
        }
        if operation.halts {
            return ExecState::Halted(res);
        }
        if operation.returns {
            match res {
                Some(bytes) => {
                    self.return_data = bytes;
                },
                None => {
                    self.return_with_err = 1;
                },
            }
        }
        if !operation.jumps {
            *pc = if *pc == u64::MAX {
                u64::MAX
            } else {
                *pc + 1
            };
        }
        ExecState::Running
    }

    /// Runs `contract` on `input` from program counter 0 with an empty stack
    /// and an empty memory, for at most as many steps as the interpreter's
    /// limit allows.
    pub fn run_contract(&mut self, contract: Contract, input: Vec<u8>) -> (r: (
        Option<Vec<u8>>,
        Option<RunError>,
    ))
        ensures
            final(self).origin == old(self).origin,
            final(self).step_limit == old(self).step_limit,
            final(self).ended(r) == run_spec(
                start_env(contract, input@, old(self).return_data@),
                start_machine(),
                old(self).return_with_err,
                old(self).step_limit as nat,
            ),
    {
        let ghost start = start_env(contract, input@, old(self).return_data@);
        let ghost goal = run_spec(
            start,
            start_machine(),
            old(self).return_with_err,
            old(self).step_limit as nat,
        );
        let mut callee = contract;
        callee.set_input(input);
        let mut ctx = CallContext {
            stack: Stack::default(),
            memory: Memory::new(),
            rstack: ReturnStack::new(),
            contract: callee,
        };
        let mut pc: u64 = 0;
        let mut steps: u64 = 0;
        assert(env_of(&*self, ctx) == start);
        while steps < self.step_limit
            invariant
                steps <= self.step_limit,
                self.origin == old(self).origin,
                self.step_limit == old(self).step_limit,
                goal == run_spec(
                    start_env(contract, input@, old(self).return_data@),
                    start_machine(),
                    old(self).return_with_err,
                    old(self).step_limit as nat,
                ),
                goal == run_spec(
                    env_of(&*self, ctx),
                    machine_of(pc, ctx),
                    self.return_with_err,
                    (self.step_limit - steps) as nat,
                ),
            decreases self.step_limit - steps,
        {
            let ghost env = env_of(&*self, ctx);
            let ghost machine = machine_of(pc, ctx);
            let ghost flag = self.return_with_err;
            let ghost fuel = (self.step_limit - steps) as nat;
            let state = self.step(&mut pc, &mut ctx);
            proof {
                let s = step_spec(env, machine, flag);
                assert(goal == run_spec(env, machine, flag, fuel));
                assert(s.status == state@);
                assert(s.machine == machine_of(pc, ctx));
            }
            match state {
                ExecState::Running => {},
                ExecState::Halted(out) => {
                    return (out, None);
                },
                ExecState::Reverted(out) => {
                    return (out, Some(RunError::ExecutionReverted));
                },
                ExecState::Faulted(e) => {
                    return (None, Some(e));
                },
            }
            steps += 1;
            assert(env_of(&*self, ctx) == Env { return_data: self.return_data@, ..env });
        }
        (None, None)
    }
}

/// Runs the constructor `code` on `raw_calldata` and gives the contract
/// whose code is what the constructor handed out and whose call data is
/// `raw_calldata`, with zero addresses and the given code hash; nothing where
/// the constructor handed nothing out, with the error, if any, that ended it.
pub fn deploy_contract(code: Vec<u8>, codehash: [u8; 32], raw_calldata: &Vec<u8>) -> (r: (
    Option<Contract>,
    Option<RunError>,
))
    ensures
        ({
            let ran = run_spec(
                Env {
                    code: code@,
                    input: raw_calldata@,
                    address: Seq::new(20, |i: int| 0u8),
                    caller: Seq::new(20, |i: int| 0u8),
                    return_data: Seq::empty(),
                    limit: STACK_LIMIT as nat,
                },
                start_machine(),
                0,
                STEP_LIMIT as nat,
            );
            &&& r.1 == ran.error
            &&& r.0.is_some() == ran.output.is_some()
            &&& r.0.is_some() ==> r.0.unwrap().code_view() == ran.output.unwrap()
                && r.0.unwrap().input_view() == raw_calldata@ && r.0.unwrap().codehash_view()
                == codehash@ && r.0.unwrap().address_view() == Seq::new(20, |i: int| 0u8)
                && r.0.unwrap().caller_view() == Seq::new(20, |i: int| 0u8)
        }),
{
    let mut interpreter = Interpreter::new([0u8;20]);
    let constructor = Contract::new(
        code,
        codehash,
        [0u8;20],
        interpreter.origin,
        copy_from(raw_calldata),
    );
    proof {
        assert(constructor.address_view() =~= Seq::new(20, |i: int| 0u8));
        assert(constructor.caller_view() =~= Seq::new(20, |i: int| 0u8));
    }
    let (output, err) = interpreter.run_contract(constructor, copy_from(raw_calldata));
    match output {
        Some(deployed_code) => {
            let deployed = Contract::new(
                deployed_code,
                codehash,
                [0u8;20],
                [0u8;20],
                copy_from(raw_calldata),
            );
            proof {
                assert(deployed.address_view() =~= Seq::new(20, |i: int| 0u8));
                assert(deployed.caller_view() =~= Seq::new(20, |i: int| 0u8));
            }
            (Some(deployed), err)
        },
        None => (None, err),
    }
}

/// Runs `deployed_contract` on `raw_calldata` with a fresh interpreter that
/// a zero address starts.
pub fn run_function(deployed_contract: Contract, raw_calldata: &Vec<u8>) -> (r: (
    Option<Vec<u8>>,
    Option<RunError>,
))
    ensures
        output_view(r.0) == run_spec(
            start_env(deployed_contract, raw_calldata@, Seq::empty()),
            start_machine(),
            0,
            STEP_LIMIT as nat,
        ).output,
        r.1 == run_spec(
            start_env(deployed_contract, raw_calldata@, Seq::empty()),
            start_machine(),
            0,
            STEP_LIMIT as nat,
        ).error,
{
    let mut interpreter = Interpreter::new([0u8;20]);
    interpreter.run_contract(deployed_contract, copy_from(raw_calldata))
}

} // verus!
