use biiot::contract::{code_bitmap, Contract};
use biiot::word::Word;

fn w(v: u64) -> Word {
    Word::from_u64(v)
}

fn contract_of(code: Vec<u8>) -> Contract {
    Contract::new(code, [0u8; 32], [1u8; 20], [2u8; 20], vec![9])
}

#[test]
fn get_byte_reads_zero_beyond_the_code() {
    let c = contract_of(vec![0x60, 0x05, 0x5b]);
    assert_eq!(c.get_byte(0), 0x60);
    assert_eq!(c.get_byte(2), 0x5b);
    assert_eq!(c.get_byte(3), 0);
    assert_eq!(c.get_byte(u64::MAX), 0);
}

#[test]
fn jumpdest_must_be_an_instruction() {
    // PUSH1 0x5b, JUMPDEST, STOP
    let c = contract_of(vec![0x60, 0x5b, 0x5b, 0x00]);
    assert!(!c.valid_jumpdest(&w(0)));
    assert!(!c.valid_jumpdest(&w(1)));
    assert!(c.valid_jumpdest(&w(2)));
    assert!(!c.valid_jumpdest(&w(3)));
    assert!(!c.valid_jumpdest(&w(4)));
    assert!(!c.valid_jumpdest(&Word::max_value()));
    assert!(!c.valid_jumpdest(&Word { w0: 2, w1: 1, w2: 0, w3: 0 }));
}

#[test]
fn bitmap_skips_push_immediates() {
    // PUSH2 a b, ADD, PUSH32 (cut short)
    let code = vec![0x61, 0x5b, 0x5b, 0x01, 0x7f, 0x5b, 0x5b];
    assert_eq!(
        code_bitmap(&code),
        vec![true, false, false, true, true, false, false]
    );
    assert_eq!(code_bitmap(&vec![]), Vec::<bool>::new());
}

#[test]
fn accessors_give_back_what_was_put_in() {
    let mut c = contract_of(vec![1, 2, 3]);
    assert_eq!(c.code(), &vec![1, 2, 3]);
    assert_eq!(c.input(), &vec![9]);
    assert_eq!(c.address(), [1u8; 20]);
    assert_eq!(c.caller(), [2u8; 20]);
    assert_eq!(c.codehash(), [0u8; 32]);
    c.set_input(vec![4, 5]);
    assert_eq!(c.input(), &vec![4, 5]);
    assert_eq!(c.code(), &vec![1, 2, 3]);
}

#[test]
fn the_empty_contract() {
    let c = Contract::empty();
    assert!(c.code().is_empty());
    assert!(c.input().is_empty());
    assert_eq!(c.address(), [0u8; 20]);
    let d = Contract::default();
    assert!(d.code().is_empty());
}
