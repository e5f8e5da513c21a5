use biiot::hash::keccak256;
use biiot::message::{HashMessage, Message};
use biiot::vecutil::{
    bevec_to_bytes32, copy_between, copy_from, copy_to_bytes32, levec_to_bytes32, right_pad_bytes,
    safe_mul,
};

#[test]
fn copies() {
    assert_eq!(copy_from(&vec![1, 2, 3]), vec![1, 2, 3]);
    assert_eq!(copy_from(&vec![]), Vec::<u8>::new());
    let mut dst = vec![9, 9, 9, 9];
    copy_between(&vec![1, 2], &mut dst);
    assert_eq!(dst, vec![1, 2]);
    let mut empty = vec![];
    copy_between(&vec![5], &mut empty);
    assert_eq!(empty, vec![5]);
}

#[test]
fn thirty_two_byte_arrays() {
    let mut expected = [0u8; 32];
    expected[0] = 1;
    expected[1] = 2;
    expected[2] = 3;
    assert_eq!(copy_to_bytes32(&vec![1, 2, 3]), expected);
    assert_eq!(levec_to_bytes32(&vec![1, 2, 3]), expected);
    let mut reversed = [0u8; 32];
    reversed[0] = 3;
    reversed[1] = 2;
    reversed[2] = 1;
    assert_eq!(bevec_to_bytes32(&vec![1, 2, 3]), reversed);
    assert_eq!(copy_to_bytes32(&vec![]), [0u8; 32]);
    assert_eq!(bevec_to_bytes32(&vec![7; 32]), [7u8; 32]);
}

#[test]
fn right_padding() {
    assert_eq!(right_pad_bytes(&vec![1, 2], 4), vec![1, 2, 0, 0]);
    assert_eq!(right_pad_bytes(&vec![1, 2], 2), vec![1, 2]);
    assert_eq!(right_pad_bytes(&vec![1, 2], 1), vec![1, 2]);
    assert_eq!(right_pad_bytes(&vec![], 0), Vec::<u8>::new());
}

#[test]
fn multiplication_with_overflow_flag() {
    assert_eq!(safe_mul(6, 7), (42, false));
    assert_eq!(safe_mul(u64::MAX, 1), (u64::MAX, false));
    assert_eq!(safe_mul(u64::MAX, 2), (u64::MAX - 1, true));
    assert_eq!(safe_mul(1u64 << 32, 1u64 << 32), (0, true));
    assert_eq!(safe_mul(0, u64::MAX), (0, false));
}

#[test]
fn keccak_of_known_inputs() {
    let empty = keccak256(&[]);
    assert_eq!(empty[0], 0xc5);
    assert_eq!(empty[1], 0xd2);
    assert_eq!(empty[31], 0x70);
    let abc = keccak256(b"abc");
    assert_eq!(abc[0], 0x4e);
    assert_eq!(abc[1], 0x03);
    assert_eq!(abc[31], 0x45);
    assert_ne!(keccak256(&[0u8]), keccak256(&[]));
}

#[test]
fn messages_and_digests() {
    let m = Message::new(vec![1, 2, 3]);
    assert_eq!(m.as_slice(), &[1, 2, 3]);
    assert_eq!(Message::from_h256(&[4u8; 32]).as_slice(), &[4u8; 32]);
    assert_eq!(HashMessage::new().to_32u8(), [0u8; 32]);
    let from_string = HashMessage::from_string(&"abc".to_string());
    let from_vec = HashMessage::from_vec(&vec![b'a', b'b', b'c']);
    assert_eq!(from_string.to_32u8(), keccak256(b"abc"));
    assert_eq!(from_vec.to_32u8(), keccak256(b"abc"));
}
