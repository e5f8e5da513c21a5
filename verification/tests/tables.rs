use biiot::instruction::ExecuteFn;
use biiot::jumptable::{get_instruction_set, get_operation, MemSizeFn};
use biiot::opcode::{get_opcode_name, opcode_to_u8, u8_to_opcode, ADD, JUMPDEST, PUSH1, STOP};
use biiot::stack::Stack;
use biiot::word::Word;

#[test]
fn opcode_bytes_and_names() {
    assert_eq!(STOP, 0x00);
    assert_eq!(ADD, 0x01);
    assert_eq!(PUSH1, 0x60);
    assert_eq!(JUMPDEST, 0x5b);
    assert_eq!(opcode_to_u8(ADD), 1);
    assert_eq!(u8_to_opcode(0x5b), JUMPDEST);
    assert_eq!(get_opcode_name(&0x00), "STOP");
    assert_eq!(get_opcode_name(&0x15), "IS_ZERO");
    assert_eq!(get_opcode_name(&0x37), "CALL_DATA_COPY");
    assert_eq!(get_opcode_name(&0x7f), "PUSH32");
    assert_eq!(get_opcode_name(&0xff), "SELF_DESTRUCT");
    assert_eq!(get_opcode_name(&0x0f), "NONE");
}

#[test]
fn undefined_bytes_have_no_operation() {
    for byte in [0x0fu8, 0x05, 0x0b, 0x1b, 0x21, 0x54, 0x55, 0x58, 0xa5, 0xf0, 0xf1, 0xfe, 0xff] {
        assert!(get_operation(byte).is_none());
    }
}

#[test]
fn operations_carry_their_bounds_and_flags() {
    let add = get_operation(0x01).unwrap();
    assert_eq!(add.execute, ExecuteFn::Add);
    assert_eq!(add.memory_size, None);
    assert_eq!((add.min_stack, add.max_stack), (2, 1025));
    assert!(!add.halts && !add.jumps && !add.writes && !add.reverts && !add.returns);

    let push7 = get_operation(0x66).unwrap();
    assert_eq!(push7.execute, ExecuteFn::Push(7));
    assert_eq!((push7.min_stack, push7.max_stack), (0, 1023));
    assert!(!push7.jumps);

    let dup16 = get_operation(0x8f).unwrap();
    assert_eq!(dup16.execute, ExecuteFn::Dup(16));
    assert_eq!((dup16.min_stack, dup16.max_stack), (16, 1023));

    let swap16 = get_operation(0x9f).unwrap();
    assert_eq!(swap16.execute, ExecuteFn::Swap(16));
    assert_eq!((swap16.min_stack, swap16.max_stack), (17, 1024));

    let log4 = get_operation(0xa4).unwrap();
    assert_eq!(log4.execute, ExecuteFn::Log(4));
    assert_eq!(log4.memory_size, Some(MemSizeFn::Log));
    assert_eq!(log4.min_stack, 6);
    assert!(log4.writes);

    let jump = get_operation(0x56).unwrap();
    assert!(jump.jumps && !jump.halts);
    let ret = get_operation(0xf3).unwrap();
    assert!(ret.halts && !ret.reverts);
    assert_eq!(ret.memory_size, Some(MemSizeFn::Return));
    let revert = get_operation(0xfd).unwrap();
    assert!(revert.reverts && revert.returns && !revert.halts);
    let stop = get_operation(0x00).unwrap();
    assert!(stop.halts);
    let calldatacopy = get_operation(0x37).unwrap();
    assert_eq!(calldatacopy.execute, ExecuteFn::CallDataCopy);
    assert_eq!(calldatacopy.memory_size, Some(MemSizeFn::CallDataCopy));
}

#[test]
fn the_table_has_an_entry_for_each_byte() {
    let table = get_instruction_set();
    assert_eq!(table.len(), 256);
    let mut defined = 0;
    for byte in 0..=255u8 {
        let here = table[byte as usize];
        let there = get_operation(byte);
        assert_eq!(here.is_some(), there.is_some());
        if let (Some(a), Some(b)) = (here, there) {
            assert_eq!(a.execute, b.execute);
            assert_eq!(a.min_stack, b.min_stack);
            assert_eq!(a.max_stack, b.max_stack);
            defined += 1;
        }
    }
    assert_eq!(defined, 38 + 5 + 32 + 16 + 16);
}

#[test]
fn memory_size_by_instruction() {
    let mut s = Stack::default();
    let _ = s.push(&Word::from_u64(10));
    let _ = s.push(&Word::from_u64(1));
    assert_eq!(MemSizeFn::MStore.call(&s), Ok((33, false)));
    assert_eq!(MemSizeFn::MStore8.call(&s), Ok((2, false)));
    assert_eq!(MemSizeFn::Return.call(&s), Ok((11, false)));
    assert_eq!(MemSizeFn::Sha3.call(&s), Ok((11, false)));
    assert!(MemSizeFn::CodeCopy.call(&s).is_err());
}
