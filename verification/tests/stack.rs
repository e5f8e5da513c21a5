use biiot::err::RunError;
use biiot::stack::{
    max_dup_stack, max_stack, max_swap_stack, min_dup_stack, min_stack, min_swap_stack,
    ReturnStack, Stack,
};
use biiot::word::Word;

fn w(v: u64) -> Word {
    Word::from_u64(v)
}

#[test]
fn push_then_pop_gives_the_items_back_last_first() {
    let mut s = Stack::default();
    assert_eq!(s.push(&w(1)), Ok(()));
    assert_eq!(s.push(&w(2)), Ok(()));
    assert_eq!(s.size(), 2);
    assert_eq!(s.pop(), Ok(w(2)));
    assert_eq!(s.pop(), Ok(w(1)));
    assert_eq!(s.pop(), Err(RunError::StackUnderflow));
    assert_eq!(s.size(), 0);
}

#[test]
fn push_beyond_the_limit_is_an_overflow() {
    let mut s = Stack::new(2);
    assert_eq!(s.push(&w(1)), Ok(()));
    assert_eq!(s.push(&w(2)), Ok(()));
    assert_eq!(s.push(&w(3)), Err(RunError::StackOverflow));
    assert_eq!(s.size(), 2);
    assert_eq!(s.peek().map(|top| *top), Ok(w(2)));
}

#[test]
fn the_default_stack_holds_1024_items() {
    let mut s = Stack::default();
    for i in 0..1024u64 {
        assert_eq!(s.push(&w(i)), Ok(()));
    }
    assert_eq!(s.push(&w(0)), Err(RunError::StackOverflow));
    assert_eq!(s.size(), 1024);
}

#[test]
fn push_multiple_is_all_or_nothing() {
    let mut s = Stack::new(3);
    assert_eq!(s.push_multiple(&vec![w(1), w(2)]), Ok(()));
    assert_eq!(s.push_multiple(&vec![w(3), w(4)]), Err(RunError::StackOverflow));
    assert_eq!(s.size(), 2);
    assert_eq!(s.back(0), Ok(w(2)));
    assert_eq!(s.back(1), Ok(w(1)));
}

#[test]
fn peek_changes_the_top_in_place() {
    let mut s = Stack::default();
    let _ = s.push_multiple(&vec![w(1), w(2)]);
    if let Ok(top) = s.peek() {
        *top = top.wrapping_add(&w(40));
    }
    assert_eq!(s.back(0), Ok(w(42)));
    assert_eq!(s.back(1), Ok(w(1)));
    assert_eq!(s.size(), 2);
}

#[test]
fn peek_and_set_top() {
    let mut s = Stack::default();
    assert_eq!(s.peek().map(|top| *top), Err(RunError::StackUnderflow));
    assert_eq!(s.set_top(&w(1)), Err(RunError::StackUnderflow));
    let _ = s.push(&w(5));
    assert_eq!(s.peek().map(|top| *top), Ok(w(5)));
    assert_eq!(s.set_top(&w(6)), Ok(()));
    assert_eq!(s.peek().map(|top| *top), Ok(w(6)));
    assert_eq!(s.size(), 1);
}

#[test]
fn dup_counts_from_one_at_the_top() {
    let mut s = Stack::new(4);
    let _ = s.push_multiple(&vec![w(10), w(20), w(30)]);
    assert_eq!(s.dup(0), Err(RunError::StackUnderflow));
    assert_eq!(s.dup(4), Err(RunError::StackUnderflow));
    assert_eq!(s.dup(-1), Err(RunError::StackUnderflow));
    assert_eq!(s.dup(3), Ok(()));
    assert_eq!(s.peek().map(|top| *top), Ok(w(10)));
    assert_eq!(s.size(), 4);
    assert_eq!(s.dup(1), Err(RunError::StackOverflow));
    assert_eq!(s.size(), 4);
}

#[test]
fn swap_reaches_n_places_below_the_top() {
    let mut s = Stack::default();
    let _ = s.push_multiple(&vec![w(10), w(20), w(30)]);
    assert_eq!(s.swap(1), Ok(()));
    assert_eq!(s.back(0), Ok(w(20)));
    assert_eq!(s.back(1), Ok(w(30)));
    assert_eq!(s.back(2), Ok(w(10)));
    assert_eq!(s.swap(2), Ok(()));
    assert_eq!(s.back(0), Ok(w(10)));
    assert_eq!(s.back(2), Ok(w(20)));
    assert_eq!(s.swap(3), Err(RunError::StackUnderflow));
    assert_eq!(s.swap(-1), Err(RunError::StackUnderflow));
    assert_eq!(s.swap(0), Ok(()));
    assert_eq!(s.back(0), Ok(w(10)));
}

#[test]
fn back_counts_from_zero_at_the_top() {
    let mut s = Stack::default();
    assert_eq!(s.back(0), Err(RunError::StackUnderflow));
    let _ = s.push_multiple(&vec![w(1), w(2)]);
    assert_eq!(s.back(0), Ok(w(2)));
    assert_eq!(s.back(1), Ok(w(1)));
    assert_eq!(s.back(2), Err(RunError::StackUnderflow));
}

#[test]
fn stack_bounds_of_operations() {
    assert_eq!(max_stack(&2, &1), 1025);
    assert_eq!(min_stack(&2, &1), 2);
    assert_eq!(max_stack(&0, &1), 1023);
    assert_eq!(max_dup_stack(&3), 1023);
    assert_eq!(min_dup_stack(&3), 3);
    assert_eq!(max_swap_stack(&4), 1024);
    assert_eq!(min_swap_stack(&4), 4);
}

#[test]
fn return_stack_is_last_in_first_out() {
    let mut r = ReturnStack::new();
    assert_eq!(r.pop(), Err(false));
    r.push(7);
    r.push(9);
    assert_eq!(r.pop(), Ok(9));
    assert_eq!(r.pop(), Ok(7));
    assert_eq!(r.pop(), Err(false));
}
