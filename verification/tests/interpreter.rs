use biiot::context::CallContext;
use biiot::contract::Contract;
use biiot::err::RunError;
use biiot::interpreter::{ExecState, Interpreter, STEP_LIMIT};
use biiot::memory::Memory;
use biiot::stack::{ReturnStack, Stack};
use biiot::word::Word;

fn context(code: Vec<u8>) -> CallContext {
    CallContext {
        stack: Stack::default(),
        memory: Memory::new(),
        rstack: ReturnStack::new(),
        contract: Contract::new(code, [0u8; 32], [0u8; 20], [0u8; 20], Vec::new()),
    }
}

#[test]
fn a_new_interpreter() {
    let i = Interpreter::new([3u8; 20]);
    assert_eq!(i.origin, [3u8; 20]);
    assert!(i.return_data.is_empty());
    assert_eq!(i.return_with_err, 0);
    assert_eq!(i.step_limit, STEP_LIMIT);
    assert_eq!(STEP_LIMIT, 1000);
    let j = Interpreter::with_step_limit([0u8; 20], 5);
    assert_eq!(j.step_limit, 5);
}

#[test]
fn push_steps_over_its_bytes() {
    for n in 1..=32u64 {
        let mut code = vec![0x5f + n as u8];
        code.extend(vec![0x01; n as usize]);
        code.push(0x00);
        let mut ctx = context(code);
        let mut i = Interpreter::new([0u8; 20]);
        let mut pc = 0u64;
        assert!(matches!(i.step(&mut pc, &mut ctx), ExecState::Running));
        assert_eq!(pc, n + 1);
        assert_eq!(ctx.stack.size(), 1);
        let bytes = ctx.stack.back(0).unwrap().to_big_endian();
        assert_eq!(&bytes[32 - n as usize..], &vec![0x01; n as usize][..]);
        assert_eq!(&bytes[..32 - n as usize], &vec![0x00; 32 - n as usize][..]);
    }
}

#[test]
fn an_ordinary_step_moves_on_by_one() {
    let mut ctx = context(vec![0x5b, 0x59]);
    let mut i = Interpreter::new([0u8; 20]);
    let mut pc = 0u64;
    assert!(matches!(i.step(&mut pc, &mut ctx), ExecState::Running));
    assert_eq!(pc, 1);
    assert!(matches!(i.step(&mut pc, &mut ctx), ExecState::Running));
    assert_eq!(pc, 2);
    assert_eq!(ctx.stack.back(0), Ok(Word::zero()));
    assert!(matches!(i.step(&mut pc, &mut ctx), ExecState::Halted(None)));
    assert_eq!(pc, 2);
}

#[test]
fn a_step_reports_each_way_to_end() {
    let mut i = Interpreter::new([0u8; 20]);
    let mut pc = 0u64;
    let mut ctx = context(vec![0x0f]);
    assert!(matches!(
        i.step(&mut pc, &mut ctx),
        ExecState::Faulted(RunError::InvalidOpCode)
    ));
    let mut ctx = context(vec![0xfd]);
    assert!(matches!(
        i.step(&mut pc, &mut ctx),
        ExecState::Faulted(RunError::StackUnderflow)
    ));
    let mut ctx = context(vec![0xfd]);
    let _ = ctx.stack.push(&Word::from_u64(2));
    let _ = ctx.stack.push(&Word::from_u64(0));
    match i.step(&mut pc, &mut ctx) {
        ExecState::Reverted(out) => assert_eq!(out, Some(vec![0, 0])),
        _ => panic!("REVERT must revert"),
    }
    let mut ctx = context(vec![0xf3]);
    let _ = ctx.stack.push(&Word::from_u64(0));
    let _ = ctx.stack.push(&Word::from_u64(0));
    assert!(matches!(i.step(&mut pc, &mut ctx), ExecState::Halted(None)));
}
