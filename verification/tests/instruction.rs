use biiot::context::CallContext;
use biiot::contract::Contract;
use biiot::err::RunError;
use biiot::instruction::{
    make_dup1, make_dup2, make_log1, make_push2, make_push32, make_swap1, make_swap2, op_add,
    op_address, op_and, op_byte, op_calldatacopy, op_calldataload, op_calldatasize, op_caller,
    op_callvalue, op_codecopy, op_coinbase, op_div, op_eq, op_exp, op_gt, op_iszero, op_jump,
    op_jumpdest, op_jumpi, op_lt, op_mload, op_mod, op_msize, op_mstore, op_mul, op_not, op_or,
    op_pop, op_push1, op_return, op_returndatacopy, op_returndatasize, op_revert, op_sgt,
    op_sha3, op_slt, op_stop, op_sub, op_xor, ExecuteFn,
};
use biiot::interpreter::Interpreter;
use biiot::memory::Memory;
use biiot::stack::{ReturnStack, Stack};
use biiot::word::Word;

type Handler = fn(&mut u64, &Interpreter, &mut CallContext) -> (Option<Vec<u8>>, Option<RunError>);

fn w(v: u64) -> Word {
    Word::from_u64(v)
}

fn context(code: Vec<u8>, input: Vec<u8>, items: Vec<Word>) -> CallContext {
    let mut address = [0u8; 20];
    address[19] = 0xaa;
    let mut caller = [0u8; 20];
    caller[18] = 0x01;
    caller[19] = 0x02;
    let mut stack = Stack::default();
    let _ = stack.push_multiple(&items);
    CallContext {
        stack,
        memory: Memory::new(),
        rstack: ReturnStack::new(),
        contract: Contract::new(code, [0u8; 32], address, caller, input),
    }
}

fn items_of(ctx: &CallContext) -> Vec<Word> {
    let mut v = Vec::new();
    let n = ctx.stack.size();
    for i in 0..n {
        v.push(ctx.stack.back((n - 1 - i) as i16).unwrap());
    }
    v
}

/// Runs `f` on a stack that holds `items`, bottom first, and gives the stack back.
fn on_stack(f: Handler, items: Vec<Word>) -> (Vec<Word>, Option<RunError>) {
    let mut ctx = context(vec![], vec![], items);
    let interpreter = Interpreter::new([0u8; 20]);
    let mut pc = 0u64;
    let (out, err) = f(&mut pc, &interpreter, &mut ctx);
    assert_eq!(out, None);
    assert_eq!(pc, 0);
    (items_of(&ctx), err)
}

#[test]
fn add_of_max_and_one_is_zero() {
    assert_eq!(on_stack(op_add, vec![w(1), Word::max_value()]), (vec![w(0)], None));
    assert_eq!(on_stack(op_add, vec![w(9), w(2), w(3)]), (vec![w(9), w(5)], None));
}

#[test]
fn sub_takes_the_second_item_from_the_top_item() {
    assert_eq!(on_stack(op_sub, vec![w(3), w(10)]), (vec![w(7)], None));
    assert_eq!(on_stack(op_sub, vec![w(1), w(0)]), (vec![Word::max_value()], None));
}

#[test]
fn mul_wraps() {
    assert_eq!(on_stack(op_mul, vec![w(6), w(7)]), (vec![w(42)], None));
    let high = Word { w0: 0, w1: 0, w2: 0, w3: 1u64 << 63 };
    assert_eq!(on_stack(op_mul, vec![w(2), high]), (vec![w(0)], None));
}

#[test]
fn div_and_mod_divide_the_top_item_by_the_second() {
    assert_eq!(on_stack(op_div, vec![w(5), w(17)]), (vec![w(3)], None));
    assert_eq!(on_stack(op_mod, vec![w(5), w(17)]), (vec![w(2)], None));
}

#[test]
fn div_and_mod_by_zero_are_zero() {
    assert_eq!(on_stack(op_div, vec![w(0), w(17)]), (vec![w(0)], None));
    assert_eq!(on_stack(op_mod, vec![w(0), w(17)]), (vec![w(0)], None));
    assert_eq!(on_stack(op_div, vec![w(17), w(0)]), (vec![w(0)], None));
    assert_eq!(on_stack(op_mod, vec![w(17), w(0)]), (vec![w(0)], None));
}

#[test]
fn exp_raises_the_top_item_to_the_second() {
    assert_eq!(on_stack(op_exp, vec![w(10), w(2)]), (vec![w(1024)], None));
    assert_eq!(on_stack(op_exp, vec![w(0), w(5)]), (vec![w(1)], None));
    assert_eq!(on_stack(op_exp, vec![w(256), w(2)]), (vec![w(0)], None));
}

#[test]
fn comparisons_leave_one_or_zero() {
    assert_eq!(on_stack(op_lt, vec![w(5), w(3)]), (vec![w(1)], None));
    assert_eq!(on_stack(op_lt, vec![w(3), w(5)]), (vec![w(0)], None));
    assert_eq!(on_stack(op_lt, vec![w(3), w(3)]), (vec![w(0)], None));
    assert_eq!(on_stack(op_gt, vec![w(3), w(5)]), (vec![w(1)], None));
    assert_eq!(on_stack(op_gt, vec![w(5), w(3)]), (vec![w(0)], None));
    assert_eq!(on_stack(op_eq, vec![w(4), w(4)]), (vec![w(1)], None));
    assert_eq!(on_stack(op_eq, vec![w(4), w(5)]), (vec![w(0)], None));
}

#[test]
fn signed_comparisons_compare_unsigned() {
    // The top item is the largest word, which a signed reading would take for -1.
    assert_eq!(on_stack(op_slt, vec![w(1), Word::max_value()]), (vec![w(0)], None));
    assert_eq!(on_stack(op_sgt, vec![w(1), Word::max_value()]), (vec![w(1)], None));
    assert_eq!(on_stack(op_slt, vec![w(2), w(1)]), (vec![w(1)], None));
    assert_eq!(on_stack(op_sgt, vec![w(2), w(2)]), (vec![w(0)], None));
}

#[test]
fn iszero_and_not() {
    assert_eq!(on_stack(op_iszero, vec![w(0)]), (vec![w(1)], None));
    assert_eq!(on_stack(op_iszero, vec![w(7)]), (vec![w(0)], None));
    assert_eq!(on_stack(op_not, vec![w(0)]), (vec![Word::max_value()], None));
    assert_eq!(on_stack(op_not, vec![]), (vec![], Some(RunError::StackUnderflow)));
}

#[test]
fn bitwise_instructions() {
    assert_eq!(on_stack(op_and, vec![w(0b1100), w(0b1010)]), (vec![w(0b1000)], None));
    assert_eq!(on_stack(op_or, vec![w(0b1100), w(0b1010)]), (vec![w(0b1110)], None));
    assert_eq!(on_stack(op_xor, vec![w(0b1100), w(0b1010)]), (vec![w(0b0110)], None));
}

#[test]
fn byte_takes_the_index_from_the_top() {
    assert_eq!(on_stack(op_byte, vec![w(0x0a0b), w(0)]), (vec![w(0x0b)], None));
    assert_eq!(on_stack(op_byte, vec![w(0x0a0b), w(1)]), (vec![w(0x0a)], None));
    assert_eq!(on_stack(op_byte, vec![w(0x0a0b), w(32)]), (vec![w(0)], None));
}

#[test]
fn binary_instructions_need_two_items() {
    let all: Vec<Handler> = vec![
        op_add, op_sub, op_mul, op_div, op_mod, op_exp, op_lt, op_gt, op_slt, op_sgt, op_eq,
        op_and, op_or, op_xor, op_byte,
    ];
    for f in all {
        assert_eq!(on_stack(f, vec![w(1)]), (vec![w(1)], Some(RunError::StackUnderflow)));
        assert_eq!(on_stack(f, vec![]), (vec![], Some(RunError::StackUnderflow)));
    }
}

#[test]
fn pop_takes_the_top_off() {
    assert_eq!(on_stack(op_pop, vec![w(1), w(2)]), (vec![w(1)], None));
    assert_eq!(on_stack(op_pop, vec![]), (vec![], Some(RunError::StackUnderflow)));
}

#[test]
fn dup_and_swap() {
    assert_eq!(on_stack(make_dup1, vec![w(1), w(2)]), (vec![w(1), w(2), w(2)], None));
    assert_eq!(on_stack(make_dup2, vec![w(1), w(2)]), (vec![w(1), w(2), w(1)], None));
    assert_eq!(on_stack(make_dup2, vec![w(1)]), (vec![w(1)], Some(RunError::StackUnderflow)));
    assert_eq!(on_stack(make_swap1, vec![w(1), w(2), w(3)]), (vec![w(1), w(3), w(2)], None));
    assert_eq!(on_stack(make_swap2, vec![w(1), w(2), w(3)]), (vec![w(3), w(2), w(1)], None));
    assert_eq!(
        on_stack(make_swap2, vec![w(1), w(2)]),
        (vec![w(1), w(2)], Some(RunError::StackUnderflow))
    );
}

#[test]
fn environment_values() {
    let mut address = Word::zero();
    address.w0 = 0xaa;
    assert_eq!(on_stack(op_address, vec![]), (vec![address], None));
    assert_eq!(on_stack(op_caller, vec![]), (vec![w(0x0102)], None));
    assert_eq!(on_stack(op_callvalue, vec![]), (vec![w(0)], None));
    assert_eq!(on_stack(op_coinbase, vec![]), (vec![w(0)], None));
    assert_eq!(on_stack(op_msize, vec![]), (vec![w(0)], None));
    assert_eq!(on_stack(op_returndatasize, vec![]), (vec![w(0)], None));
}

#[test]
fn a_full_stack_overflows() {
    let mut items = Vec::new();
    for i in 0..1024 {
        items.push(w(i));
    }
    let (after, err) = on_stack(op_callvalue, items.clone());
    assert_eq!(err, Some(RunError::StackOverflow));
    assert_eq!(after.len(), 1024);
    let (after, err) = on_stack(make_dup1, items);
    assert_eq!(err, Some(RunError::StackOverflow));
    assert_eq!(after.len(), 1024);
}

#[test]
fn calldata_instructions() {
    let interpreter = Interpreter::new([0u8; 20]);
    let mut pc = 0u64;
    let mut ctx = context(vec![], vec![1, 2, 3, 4], vec![]);
    assert_eq!(op_calldatasize(&mut pc, &interpreter, &mut ctx), (None, None));
    assert_eq!(items_of(&ctx), vec![w(4)]);

    let mut ctx = context(vec![], vec![1, 2, 3, 4], vec![w(0)]);
    assert_eq!(op_calldataload(&mut pc, &interpreter, &mut ctx), (None, None));
    assert_eq!(
        items_of(&ctx),
        vec![Word { w0: 0, w1: 0, w2: 0, w3: 0x0102030400000000 }]
    );

    let mut ctx = context(vec![], vec![1, 2, 3, 4], vec![Word::max_value()]);
    assert_eq!(op_calldataload(&mut pc, &interpreter, &mut ctx), (None, None));
    assert_eq!(items_of(&ctx), vec![w(0)]);

    // length 3, data offset 2, memory offset 1
    let mut ctx = context(vec![], vec![1, 2, 3, 4], vec![w(3), w(2), w(1)]);
    assert_eq!(op_calldatacopy(&mut pc, &interpreter, &mut ctx), (None, None));
    assert_eq!(items_of(&ctx), vec![]);
    assert_eq!(ctx.memory.data(), &vec![0, 3, 4, 0]);
}

#[test]
fn codecopy_copies_the_code() {
    let interpreter = Interpreter::new([0u8; 20]);
    let mut pc = 0u64;
    let mut ctx = context(vec![0x60, 0x01, 0x00], vec![], vec![w(2), w(1), w(0)]);
    assert_eq!(op_codecopy(&mut pc, &interpreter, &mut ctx), (None, None));
    assert_eq!(ctx.memory.data(), &vec![0x01, 0x00]);
    let mut ctx = context(vec![0x60], vec![], vec![w(0), w(1), w(5)]);
    assert_eq!(op_codecopy(&mut pc, &interpreter, &mut ctx), (None, None));
    assert_eq!(ctx.memory.size(), 0);
}

#[test]
fn returndatacopy_checks_the_bounds() {
    let mut interpreter = Interpreter::new([0u8; 20]);
    interpreter.return_data = vec![7, 8, 9];
    let mut pc = 0u64;
    let mut ctx = context(vec![], vec![], vec![]);
    assert_eq!(op_returndatasize(&mut pc, &interpreter, &mut ctx), (None, None));
    assert_eq!(items_of(&ctx), vec![w(3)]);

    let mut ctx = context(vec![], vec![], vec![w(2), w(1), w(0)]);
    assert_eq!(op_returndatacopy(&mut pc, &interpreter, &mut ctx), (None, None));
    assert_eq!(ctx.memory.data(), &vec![8, 9]);

    let mut ctx = context(vec![], vec![], vec![w(3), w(1), w(0)]);
    assert_eq!(
        op_returndatacopy(&mut pc, &interpreter, &mut ctx),
        (None, Some(RunError::ReturnDataOutOfBounds))
    );
    assert_eq!(items_of(&ctx), vec![w(3), w(1), w(0)]);
    assert_eq!(ctx.memory.size(), 0);

    let mut ctx = context(vec![], vec![], vec![Word::max_value(), w(1), w(0)]);
    assert_eq!(
        op_returndatacopy(&mut pc, &interpreter, &mut ctx),
        (None, Some(RunError::ReturnDataOutOfBounds))
    );
}

#[test]
fn mstore_then_mload_gives_the_word_back() {
    let interpreter = Interpreter::new([0u8; 20]);
    let mut pc = 0u64;
    let stored = Word { w0: 1, w1: 2, w2: 3, w3: 4 };
    let mut ctx = context(vec![], vec![], vec![stored, w(5)]);
    assert_eq!(op_mstore(&mut pc, &interpreter, &mut ctx), (None, None));
    assert_eq!(items_of(&ctx), vec![]);
    assert_eq!(ctx.memory.size(), 37);
    let _ = ctx.stack.push(&w(5));
    assert_eq!(op_mload(&mut pc, &interpreter, &mut ctx), (None, None));
    assert_eq!(items_of(&ctx), vec![stored]);
}

#[test]
fn mload_of_untouched_memory_is_zero() {
    let interpreter = Interpreter::new([0u8; 20]);
    let mut pc = 0u64;
    let mut ctx = context(vec![], vec![], vec![w(64)]);
    assert_eq!(op_mload(&mut pc, &interpreter, &mut ctx), (None, None));
    assert_eq!(items_of(&ctx), vec![w(0)]);
    assert_eq!(ctx.memory.size(), 96);
    let _ = ctx.stack.push(&w(0));
    assert_eq!(op_msize(&mut pc, &interpreter, &mut ctx), (None, None));
    assert_eq!(ctx.stack.back(0), Ok(w(96)));
}

#[test]
fn memory_offsets_beyond_reach_fault() {
    let interpreter = Interpreter::new([0u8; 20]);
    let mut pc = 0u64;
    let mut ctx = context(vec![], vec![], vec![w(1), Word::max_value()]);
    assert_eq!(
        op_mstore(&mut pc, &interpreter, &mut ctx),
        (None, Some(RunError::MemoryOverflow))
    );
    assert_eq!(items_of(&ctx), vec![w(1), Word::max_value()]);
    let mut ctx = context(vec![], vec![], vec![w(u64::MAX)]);
    assert_eq!(
        op_mload(&mut pc, &interpreter, &mut ctx),
        (None, Some(RunError::MemoryOverflow))
    );
    let mut ctx = context(vec![], vec![], vec![Word::max_value(), w(0)]);
    assert_eq!(
        op_return(&mut pc, &interpreter, &mut ctx),
        (None, Some(RunError::MemoryOverflow))
    );
}

#[test]
fn jump_checks_the_destination() {
    let interpreter = Interpreter::new([0u8; 20]);
    let code = vec![0x60, 0x5b, 0x5b];
    let mut pc = 0u64;
    let mut ctx = context(code.clone(), vec![], vec![w(2)]);
    assert_eq!(op_jump(&mut pc, &interpreter, &mut ctx), (None, None));
    assert_eq!(pc, 2);
    assert_eq!(items_of(&ctx), vec![]);

    let mut pc = 0u64;
    let mut ctx = context(code.clone(), vec![], vec![w(1)]);
    assert_eq!(op_jump(&mut pc, &interpreter, &mut ctx), (None, Some(RunError::InvalidJump)));
    assert_eq!(pc, 0);
    assert_eq!(items_of(&ctx), vec![w(1)]);

    let mut ctx = context(code, vec![], vec![]);
    assert_eq!(op_jump(&mut pc, &interpreter, &mut ctx), (None, Some(RunError::StackUnderflow)));
}

#[test]
fn jumpi_jumps_on_a_condition() {
    let interpreter = Interpreter::new([0u8; 20]);
    let code = vec![0x60, 0x5b, 0x5b];
    let mut pc = 7u64;
    let mut ctx = context(code.clone(), vec![], vec![w(1), w(2)]);
    assert_eq!(op_jumpi(&mut pc, &interpreter, &mut ctx), (None, None));
    assert_eq!(pc, 2);

    let mut pc = 7u64;
    let mut ctx = context(code.clone(), vec![], vec![w(0), w(1)]);
    assert_eq!(op_jumpi(&mut pc, &interpreter, &mut ctx), (None, None));
    assert_eq!(pc, 8);
    assert_eq!(items_of(&ctx), vec![]);

    let mut pc = 7u64;
    let mut ctx = context(code, vec![], vec![w(9), w(1)]);
    assert_eq!(op_jumpi(&mut pc, &interpreter, &mut ctx), (None, Some(RunError::InvalidJump)));
    assert_eq!(pc, 7);
    assert_eq!(items_of(&ctx), vec![w(9), w(1)]);
}

#[test]
fn push_reads_the_bytes_behind_the_opcode() {
    let interpreter = Interpreter::new([0u8; 20]);
    let mut pc = 0u64;
    let mut ctx = context(vec![0x60, 0x07], vec![], vec![]);
    assert_eq!(op_push1(&mut pc, &interpreter, &mut ctx), (None, None));
    assert_eq!(pc, 1);
    assert_eq!(items_of(&ctx), vec![w(7)]);

    let mut pc = 1u64;
    let mut ctx = context(vec![0x00, 0x61, 0x01, 0x02], vec![], vec![]);
    assert_eq!(make_push2(&mut pc, &interpreter, &mut ctx), (None, None));
    assert_eq!(pc, 3);
    assert_eq!(items_of(&ctx), vec![w(0x0102)]);
}

#[test]
fn push_pads_short_code_on_the_right() {
    let interpreter = Interpreter::new([0u8; 20]);
    let mut pc = 0u64;
    let mut ctx = context(vec![0x61, 0x01], vec![], vec![]);
    assert_eq!(make_push2(&mut pc, &interpreter, &mut ctx), (None, None));
    assert_eq!(pc, 2);
    assert_eq!(items_of(&ctx), vec![w(0x0100)]);

    let mut pc = 0u64;
    let mut ctx = context(vec![0x7f, 0xab], vec![], vec![]);
    assert_eq!(make_push32(&mut pc, &interpreter, &mut ctx), (None, None));
    assert_eq!(pc, 32);
    assert_eq!(
        items_of(&ctx),
        vec![Word { w0: 0, w1: 0, w2: 0, w3: 0xab00000000000000 }]
    );

    let mut pc = 5u64;
    let mut ctx = context(vec![0x60], vec![], vec![]);
    assert_eq!(op_push1(&mut pc, &interpreter, &mut ctx), (None, None));
    assert_eq!(pc, 6);
    assert_eq!(items_of(&ctx), vec![w(0)]);
}

#[test]
fn return_and_revert_hand_memory_out() {
    let interpreter = Interpreter::new([0u8; 20]);
    let mut pc = 0u64;
    let mut ctx = context(vec![], vec![], vec![w(3), w(1)]);
    ctx.memory.set(0, 2, &vec![5, 6]);
    assert_eq!(op_return(&mut pc, &interpreter, &mut ctx), (Some(vec![6, 0, 0]), None));
    assert_eq!(items_of(&ctx), vec![]);
    assert_eq!(ctx.memory.size(), 4);

    let mut ctx = context(vec![], vec![], vec![w(0), w(1)]);
    assert_eq!(op_revert(&mut pc, &interpreter, &mut ctx), (None, None));
    let mut ctx = context(vec![], vec![], vec![w(1)]);
    assert_eq!(op_revert(&mut pc, &interpreter, &mut ctx), (None, Some(RunError::StackUnderflow)));
}

#[test]
fn stop_and_jumpdest_change_nothing() {
    assert_eq!(on_stack(op_stop, vec![w(1)]), (vec![w(1)], None));
    assert_eq!(on_stack(op_jumpdest, vec![w(1)]), (vec![w(1)], None));
}

#[test]
fn log_takes_the_range_and_the_topics() {
    let interpreter = Interpreter::new([0u8; 20]);
    let mut pc = 0u64;
    // bottom to top: kept, topic, size, offset
    let mut ctx = context(vec![], vec![], vec![w(9), w(8), w(4), w(2)]);
    assert_eq!(make_log1(&mut pc, &interpreter, &mut ctx), (None, None));
    assert_eq!(items_of(&ctx), vec![w(9)]);
    assert_eq!(ctx.memory.size(), 6);
    let mut ctx = context(vec![], vec![], vec![w(4), w(2)]);
    assert_eq!(make_log1(&mut pc, &interpreter, &mut ctx), (None, Some(RunError::StackUnderflow)));
}

#[test]
fn sha3_hashes_a_memory_range() {
    let interpreter = Interpreter::new([0u8; 20]);
    let mut pc = 0u64;
    // size 0 at offset 0: the digest of no bytes
    let mut ctx = context(vec![], vec![], vec![w(0), w(0)]);
    assert_eq!(op_sha3(&mut pc, &interpreter, &mut ctx), (None, None));
    assert_eq!(
        items_of(&ctx),
        vec![Word {
            w3: 0xc5d2460186f7233c,
            w2: 0x927e7db2dcc703c0,
            w1: 0xe500b653ca82273b,
            w0: 0x7bfad8045d85a470,
        }]
    );
}

#[test]
fn dispatch_by_instruction() {
    let interpreter = Interpreter::new([0u8; 20]);
    let mut pc = 0u64;
    let mut ctx = context(vec![], vec![], vec![w(2), w(3)]);
    assert_eq!(ExecuteFn::Add.call(&mut pc, &interpreter, &mut ctx), (None, None));
    assert_eq!(items_of(&ctx), vec![w(5)]);
    assert_eq!(
        ExecuteFn::Push(33).call(&mut pc, &interpreter, &mut ctx),
        (None, Some(RunError::InvalidOpCode))
    );
    assert_eq!(
        ExecuteFn::Dup(0).call(&mut pc, &interpreter, &mut ctx),
        (None, Some(RunError::InvalidOpCode))
    );
    assert_eq!(
        ExecuteFn::Swap(17).call(&mut pc, &interpreter, &mut ctx),
        (None, Some(RunError::InvalidOpCode))
    );
    assert_eq!(
        ExecuteFn::Log(5).call(&mut pc, &interpreter, &mut ctx),
        (None, Some(RunError::InvalidOpCode))
    );
    assert_eq!(ExecuteFn::Dup(1).call(&mut pc, &interpreter, &mut ctx), (None, None));
    assert_eq!(items_of(&ctx), vec![w(5), w(5)]);
}
