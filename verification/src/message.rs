//! Messages to be signed, and their digests.

use vstd::prelude::*;
use vstd::utf8::encode_utf8;
use crate::hash::{keccak256, keccak256_of};
use crate::vecutil::{copy_from, filled32};

verus! {

/// A message: a byte string.
pub struct Message {
    value: Vec<u8>,
}

impl View for Message {
    type V = Seq<u8>;

    closed spec fn view(&self) -> Seq<u8> {
        self.value@
    }
}

impl Message {
    /// A message that holds the bytes of `value`.
    pub fn new(value: Vec<u8>) -> (r: Message)
        ensures
            r@ == value@,
    {
        Message { value: copy_from(&value) }
    }

    /// A message that holds the 32 bytes of a hash.
    pub fn from_h256(value: &[u8; 32]) -> (r: Message)
        ensures
            r@ == value@,
    {
        let mut bytes: Vec<u8> = Vec::new();
        let mut i: usize = 0;
        while i < 32
            invariant
                i <= 32,
                bytes@ == value@.subrange(0, i as int),
            decreases 32 - i,
        {
            bytes.push(value[i]);
            i += 1;
            assert(bytes@ =~= value@.subrange(0, i as int));
        }
        assert(value@.subrange(0, 32) =~= value@);
        Message { value: bytes }
    }

    /// The bytes of the message.
    pub fn as_slice(&self) -> (r: &[u8])
        ensures
            r@ == self@,
    {
        self.value.as_slice()
    }
}

/// The Keccak-256 digest of a message; empty until a message was hashed.
pub struct HashMessage {
    value: Vec<u8>,
}

impl View for HashMessage {
    type V = Seq<u8>;

    closed spec fn view(&self) -> Seq<u8> {
        self.value@
    }
}

impl HashMessage {
    #[verifier::type_invariant]
    spec fn inv(self) -> bool {
        self.value@.len() <= 32
    }

    /// A digest of nothing yet: no bytes.
    pub fn new() -> (r: HashMessage)
        ensures
            r@ == Seq::<u8>::empty(),
    {
        HashMessage { value: Vec::new() }
    }

    /// The digest of the UTF-8 bytes of `value`.
    pub fn from_string(value: &String) -> (r: HashMessage)
        ensures
            r@ == keccak256_of(encode_utf8(value@)),
    {
        HashMessage::from_bytes(value.as_str().as_bytes())
    }

    /// The digest of `value`.
    pub fn from_vec(value: &Vec<u8>) -> (r: HashMessage)
        ensures
            r@ == keccak256_of(value@),
    {
        HashMessage::from_bytes(value.as_slice())
    }

    /// The digest of `value`.
    fn from_bytes(value: &[u8]) -> (r: HashMessage)
        ensures
            r@ == keccak256_of(value@),
    {
        let h = keccak256(value);
        let mut bytes: Vec<u8> = Vec::new();
        let mut i: usize = 0;
        while i < 32
            invariant
                i <= 32,
                bytes@ == h@.subrange(0, i as int),
            decreases 32 - i,
        {
            bytes.push(h[i]);
            i += 1;
            assert(bytes@ =~= h@.subrange(0, i as int));
        }
        assert(h@.subrange(0, 32) =~= h@);
        HashMessage { value: bytes }
    }

    /// The digest as an array of 32 bytes; the bytes that are there, and
    /// zeros behind them, where nothing was hashed.
    pub fn to_32u8(&self) -> (r: [u8; 32])
        ensures
            r@ == filled32(self@),
    {
        proof {
            use_type_invariant(self);
        }
        let mut fixed = [0u8;32];
        let mut i: usize = 0;
        while i < self.value.len()
            invariant
                i <= self.value@.len() <= 32,
                fixed@.len() == 32,
                forall|j: int| 0 <= j < i ==> fixed@[j] == self.value@[j],
                forall|j: int| i <= j < 32 ==> fixed@[j] == 0u8,
            decreases self.value.len() - i,
        {
            fixed[i] = self.value[i];
            i += 1;
        }
        assert(fixed@ =~= filled32(self@));
        fixed
    }
}

} // verus!
