use biiot::err::RunError;
use biiot::memory::{
    all_zero, calc_mem_size64, calc_mem_size64_with_uint, get_data, memory_call, memory_mload,
    memory_mstore, memory_return, to_u64_size, Memory,
};
use biiot::stack::Stack;
use biiot::word::Word;

fn w(v: u64) -> Word {
    Word::from_u64(v)
}

#[test]
fn resize_grows_and_never_shrinks() {
    let mut m = Memory::new();
    assert_eq!(m.size(), 0);
    m.resize(64);
    assert_eq!(m.size(), 64);
    m.resize(32);
    assert_eq!(m.size(), 64);
    assert!(all_zero(m.data()));
}

#[test]
fn set_writes_and_grows() {
    let mut m = Memory::new();
    m.set(2, 3, &vec![7, 8, 9]);
    assert_eq!(m.data(), &vec![0, 0, 7, 8, 9]);
    m.set(0, 0, &vec![1, 2, 3]);
    assert_eq!(m.data(), &vec![0, 0, 7, 8, 9]);
    m.set(4, 2, &vec![1, 2]);
    assert_eq!(m.data(), &vec![0, 0, 7, 8, 1, 2]);
}

#[test]
fn set32_writes_the_word_most_significant_byte_first() {
    let mut m = Memory::new();
    m.set32(1, &w(0x0102));
    assert_eq!(m.size(), 33);
    assert_eq!(m.data()[0], 0);
    assert_eq!(m.data()[31], 0x01);
    assert_eq!(m.data()[32], 0x02);
    m.set32(1, &Word::zero());
    assert!(all_zero(m.data()));
}

#[test]
fn get_copy_reads_zeros_beyond_the_end_and_grows() {
    let mut m = Memory::new();
    m.set(0, 2, &vec![5, 6]);
    assert_eq!(m.get_copy(1, 3), Some(vec![6, 0, 0]));
    assert_eq!(m.size(), 4);
    assert_eq!(m.get_copy(10, 0), None);
    assert_eq!(m.size(), 4);
    assert_eq!(m.get_copy(6, 2), Some(vec![0, 0]));
    assert_eq!(m.size(), 8);
}

#[test]
fn memory_size_of_a_range() {
    assert_eq!(calc_mem_size64(&w(10), &w(0)), (0, false));
    assert_eq!(calc_mem_size64(&Word::max_value(), &w(0)), (0, false));
    assert_eq!(calc_mem_size64(&w(10), &w(22)), (32, false));
    assert_eq!(calc_mem_size64(&w(10), &Word::max_value()), (0, true));
    assert_eq!(calc_mem_size64(&Word::max_value(), &w(1)), (0, true));
    assert_eq!(calc_mem_size64(&w(u64::MAX), &w(2)), (1, true));
    assert_eq!(calc_mem_size64_with_uint(&w(u64::MAX - 1), 1), (u64::MAX, false));
    assert_eq!(calc_mem_size64_with_uint(&w(3), 0), (0, false));
}

#[test]
fn words_for_bytes() {
    assert_eq!(to_u64_size(0), 0);
    assert_eq!(to_u64_size(1), 1);
    assert_eq!(to_u64_size(32), 1);
    assert_eq!(to_u64_size(33), 2);
    assert_eq!(to_u64_size(u64::MAX), 1u64 << 59);
    assert_eq!(to_u64_size(u64::MAX - 31), (1u64 << 59) - 1);
}

#[test]
fn get_data_pads_with_zeros() {
    let data = vec![1, 2, 3, 4];
    assert_eq!(get_data(&data, 0, 4), vec![1, 2, 3, 4]);
    assert_eq!(get_data(&data, 2, 4), vec![3, 4, 0, 0]);
    assert_eq!(get_data(&data, 9, 2), vec![0, 0]);
    assert_eq!(get_data(&data, u64::MAX, 2), vec![0, 0]);
    assert_eq!(get_data(&data, 1, 0), Vec::<u8>::new());
}

#[test]
fn all_zero_on_bytes() {
    assert!(all_zero(&vec![]));
    assert!(all_zero(&vec![0, 0]));
    assert!(!all_zero(&vec![0, 1]));
}

#[test]
fn memory_size_from_the_stack() {
    let mut s = Stack::default();
    assert_eq!(memory_mstore(&s), Err(RunError::StackUnderflow));
    assert_eq!(memory_return(&s), Err(RunError::StackUnderflow));
    let _ = s.push(&w(64));
    let _ = s.push(&w(32));
    assert_eq!(memory_mstore(&s), Ok((64, false)));
    assert_eq!(memory_mload(&s), Ok((64, false)));
    assert_eq!(memory_return(&s), Ok((96, false)));
    assert_eq!(memory_call(&s), Err(RunError::StackUnderflow));
}

#[test]
fn memory_size_of_a_call_is_the_larger_range() {
    let mut s = Stack::default();
    // bottom to top: out size, out offset, in size, in offset, value, address, gas
    let _ = s.push_multiple(&vec![w(32), w(100), w(4), w(0), w(0), w(0), w(0)]);
    assert_eq!(memory_call(&s), Ok((132, false)));
}
