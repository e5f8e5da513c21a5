use biiot::contract::Contract;
use biiot::err::RunError;
use biiot::interpreter::Interpreter;

fn contract_of(code: Vec<u8>) -> Contract {
    Contract::new(code, [0u8; 32], [0u8; 20], [0u8; 20], Vec::new())
}

fn run(code: Vec<u8>, input: Vec<u8>) -> (Option<Vec<u8>>, Option<RunError>) {
    let mut interpreter = Interpreter::new([0u8; 20]);
    interpreter.run_contract(contract_of(code), input)
}

fn word(v: u8) -> Vec<u8> {
    let mut w = vec![0u8; 32];
    w[31] = v;
    w
}

#[test]
fn add_store_return_gives_five() {
    let code = vec![0x60, 0x02, 0x60, 0x03, 0x01, 0x60, 0x00, 0x52, 0x60, 0x20, 0x60, 0x00, 0xf3];
    let (out, err) = run(code, Vec::new());
    assert_eq!(out, Some(word(5)));
    assert_eq!(err, None);
}

#[test]
fn undefined_opcode_faults_at_once() {
    let (out, err) = run(vec![0x0f], Vec::new());
    assert_eq!(out, None);
    assert_eq!(err, Some(RunError::InvalidOpCode));
}

#[test]
fn jump_to_a_place_that_is_no_jumpdest_faults() {
    let (out, err) = run(vec![0x60, 0x05, 0x60, 0x00, 0x56], Vec::new());
    assert_eq!(out, None);
    assert_eq!(err, Some(RunError::InvalidJump));
}

#[test]
fn calldataload_pads_short_input_on_the_right() {
    // CALLDATALOAD(0); MSTORE(0); RETURN(0, 32)
    let code = vec![0x60, 0x00, 0x35, 0x60, 0x00, 0x52, 0x60, 0x20, 0x60, 0x00, 0xf3];
    let (out, err) = run(code, vec![0x01, 0x02, 0x03, 0x04]);
    let mut expected = vec![0u8; 32];
    expected[0] = 1;
    expected[1] = 2;
    expected[2] = 3;
    expected[3] = 4;
    assert_eq!(out, Some(expected));
    assert_eq!(err, None);
}

#[test]
fn stop_halts_without_output() {
    assert_eq!(run(vec![0x00], Vec::new()), (None, None));
    assert_eq!(run(vec![], Vec::new()), (None, None));
}

#[test]
fn code_that_runs_out_halts() {
    // PUSH1 1 and then the end of the code, which reads as STOP
    assert_eq!(run(vec![0x60, 0x01], Vec::new()), (None, None));
}

#[test]
fn revert_reports_its_output_with_the_error() {
    // PUSH1 0xaa, PUSH1 0, MSTORE, PUSH1 1, PUSH1 31, REVERT
    let code = vec![0x60, 0xaa, 0x60, 0x00, 0x52, 0x60, 0x01, 0x60, 0x1f, 0xfd];
    assert_eq!(
        run(code, Vec::new()),
        (Some(vec![0xaa]), Some(RunError::ExecutionReverted))
    );
    // PUSH1 0, PUSH1 0, REVERT
    assert_eq!(
        run(vec![0x60, 0x00, 0x60, 0x00, 0xfd], Vec::new()),
        (None, Some(RunError::ExecutionReverted))
    );
}

#[test]
fn stack_underflow_is_a_fault() {
    assert_eq!(run(vec![0x01], Vec::new()), (None, Some(RunError::StackUnderflow)));
    assert_eq!(run(vec![0x60, 0x01, 0x01], Vec::new()), (None, Some(RunError::StackUnderflow)));
    assert_eq!(run(vec![0x50], Vec::new()), (None, Some(RunError::StackUnderflow)));
    assert_eq!(run(vec![0x80], Vec::new()), (None, Some(RunError::StackUnderflow)));
    assert_eq!(run(vec![0x60, 0x01, 0x90], Vec::new()), (None, Some(RunError::StackUnderflow)));
}

#[test]
fn stack_overflow_is_a_fault() {
    // JUMPDEST, PUSH1 0, PUSH1 0, JUMP: pushes for ever
    let code = vec![0x5b, 0x60, 0x00, 0x60, 0x00, 0x56];
    let mut interpreter = Interpreter::with_step_limit([0u8; 20], 100_000);
    assert_eq!(
        interpreter.run_contract(contract_of(code), Vec::new()),
        (None, Some(RunError::StackOverflow))
    );
}

#[test]
fn a_loop_stops_at_the_step_limit() {
    // JUMPDEST, PUSH1 0, JUMP
    let code = vec![0x5b, 0x60, 0x00, 0x56];
    assert_eq!(run(code.clone(), Vec::new()), (None, None));
    let mut interpreter = Interpreter::with_step_limit([0u8; 20], 0);
    assert_eq!(interpreter.run_contract(contract_of(code), Vec::new()), (None, None));
}

#[test]
fn jump_to_a_jumpdest_goes_on_from_there() {
    // PUSH1 4, JUMP, INVALID, JUMPDEST, PUSH1 7, PUSH1 0, MSTORE, PUSH1 32, PUSH1 0, RETURN
    let code = vec![
        0x60, 0x04, 0x56, 0x0f, 0x5b, 0x60, 0x07, 0x60, 0x00, 0x52, 0x60, 0x20, 0x60, 0x00, 0xf3,
    ];
    assert_eq!(run(code, Vec::new()), (Some(word(7)), None));
}

#[test]
fn jump_into_push_data_faults() {
    // PUSH1 4, JUMP, PUSH1 0x5b, STOP: offset 4 holds 0x5b, but as data
    let code = vec![0x60, 0x04, 0x56, 0x60, 0x5b, 0x00];
    assert_eq!(run(code, Vec::new()), (None, Some(RunError::InvalidJump)));
}

#[test]
fn jumpi_falls_through_on_zero() {
    // PUSH1 0, PUSH1 9, JUMPI, PUSH1 1, PUSH1 0, MSTORE, PUSH1 32, PUSH1 0, RETURN
    let code = vec![
        0x60, 0x00, 0x60, 0x09, 0x57, 0x60, 0x01, 0x60, 0x00, 0x52, 0x60, 0x20, 0x60, 0x00, 0xf3,
    ];
    assert_eq!(run(code, Vec::new()), (Some(word(1)), None));
}

#[test]
fn add_wraps_in_a_run() {
    // PUSH32 ff..ff, PUSH1 1, ADD, PUSH1 0, MSTORE, PUSH1 32, PUSH1 0, RETURN
    let mut code = vec![0x7f];
    code.extend(vec![0xff; 32]);
    code.extend(vec![0x60, 0x01, 0x01, 0x60, 0x00, 0x52, 0x60, 0x20, 0x60, 0x00, 0xf3]);
    assert_eq!(run(code, Vec::new()), (Some(word(0)), None));
}

#[test]
fn division_by_zero_in_a_run() {
    // PUSH1 0, PUSH1 7, DIV, PUSH1 0, MSTORE, PUSH1 32, PUSH1 0, RETURN
    let div = vec![0x60, 0x00, 0x60, 0x07, 0x04, 0x60, 0x00, 0x52, 0x60, 0x20, 0x60, 0x00, 0xf3];
    assert_eq!(run(div, Vec::new()), (Some(word(0)), None));
    let rem = vec![0x60, 0x00, 0x60, 0x07, 0x06, 0x60, 0x00, 0x52, 0x60, 0x20, 0x60, 0x00, 0xf3];
    assert_eq!(run(rem, Vec::new()), (Some(word(0)), None));
}

#[test]
fn memory_grows_in_whole_words() {
    // PUSH1 1, PUSH1 0, MSTORE, MSIZE, PUSH1 0, MSTORE, PUSH1 32, PUSH1 0, RETURN
    let code = vec![
        0x60, 0x01, 0x60, 0x01, 0x52, 0x59, 0x60, 0x00, 0x52, 0x60, 0x20, 0x60, 0x00, 0xf3,
    ];
    assert_eq!(run(code, Vec::new()), (Some(word(64)), None));
}

#[test]
fn equal_runs_end_alike() {
    let code = vec![0x60, 0x00, 0x35, 0x60, 0x00, 0x52, 0x60, 0x20, 0x60, 0x00, 0xf3];
    let input = vec![9, 8, 7];
    assert_eq!(run(code.clone(), input.clone()), run(code, input));
}

#[test]
fn memory_overflow_is_a_fault() {
    // PUSH1 1, PUSH32 ff..ff, MSTORE
    let mut code = vec![0x60, 0x01, 0x7f];
    code.extend(vec![0xff; 32]);
    code.push(0x52);
    assert_eq!(run(code, Vec::new()), (None, Some(RunError::MemoryOverflow)));
}

#[test]
fn deploying_runs_the_constructor() {
    // The constructor stores the word 0x6001 and hands its last two bytes out:
    // PUSH2 0x6001, PUSH1 0, MSTORE, PUSH1 2, PUSH1 30, RETURN
    let code = vec![0x61, 0x60, 0x01, 0x60, 0x00, 0x52, 0x60, 0x02, 0x60, 0x1e, 0xf3];
    let (deployed, err) = biiot::interpreter::deploy_contract(code, [5u8; 32], &vec![1, 2]);
    assert_eq!(err, None);
    let deployed = deployed.unwrap();
    assert_eq!(deployed.code(), &vec![0x60, 0x01]);
    assert_eq!(deployed.input(), &vec![1, 2]);
    assert_eq!(deployed.codehash(), [5u8; 32]);
    assert_eq!(biiot::interpreter::run_function(deployed, &vec![]), (None, None));
    let (nothing, err) = biiot::interpreter::deploy_contract(vec![0x0f], [0u8; 32], &vec![]);
    assert!(nothing.is_none());
    assert_eq!(err, Some(RunError::InvalidOpCode));
}

#[test]
fn an_empty_range_needs_no_memory_whatever_its_offset() {
    // PUSH1 0 (size), PUSH32 ff..ff (offset), RETURN
    let mut code = vec![0x60, 0x00, 0x7f];
    code.extend(vec![0xff; 32]);
    code.push(0xf3);
    assert_eq!(run(code, Vec::new()), (None, None));
    // PUSH1 0 (length), PUSH1 0 (data offset), PUSH32 ff..ff (memory offset), CALLDATACOPY, MSIZE,
    // PUSH1 0, MSTORE, PUSH1 32, PUSH1 0, RETURN
    let mut copy = vec![0x60, 0x00, 0x60, 0x00, 0x7f];
    copy.extend(vec![0xff; 32]);
    copy.extend(vec![0x37, 0x59, 0x60, 0x00, 0x52, 0x60, 0x20, 0x60, 0x00, 0xf3]);
    assert_eq!(run(copy, vec![1, 2, 3]), (Some(word(0)), None));
}

#[test]
fn return_data_is_kept_by_the_interpreter() {
    let mut interpreter = Interpreter::new([0u8; 20]);
    interpreter.return_data = vec![1, 2, 3];
    // RETURNDATASIZE, PUSH1 0, MSTORE, PUSH1 32, PUSH1 0, RETURN
    let code = vec![0x3d, 0x60, 0x00, 0x52, 0x60, 0x20, 0x60, 0x00, 0xf3];
    assert_eq!(
        interpreter.run_contract(contract_of(code), Vec::new()),
        (Some(word(3)), None)
    );
    assert_eq!(interpreter.return_data, vec![1, 2, 3]);
    assert_eq!(interpreter.return_with_err, 0);
}

#[test]
fn dup_and_swap_in_a_run() {
    // PUSH1 1, PUSH1 2, DUP1, SWAP2, POP (1), ADD (2+2), PUSH1 0, MSTORE, PUSH1 32, PUSH1 0, RETURN
    let code = vec![
        0x60, 0x01, 0x60, 0x02, 0x80, 0x91, 0x50, 0x01, 0x60, 0x00, 0x52, 0x60, 0x20, 0x60, 0x00,
        0xf3,
    ];
    assert_eq!(run(code, Vec::new()), (Some(word(4)), None));
}
