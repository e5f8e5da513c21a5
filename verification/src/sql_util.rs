//! Stored byte strings as hashes and words.

use vstd::prelude::*;
use crate::vecutil::{copy_to_bytes32, filled32, reversed};
use crate::word::{be_value, Word};

verus! {

/// The word that the bytes stand for, least significant byte first, zeros
/// standing in for the bytes that are missing to 32.
pub fn to_u256(v: Vec<u8>) -> (r: Word)
    requires
        v@.len() <= 32,
    ensures
        r@ == be_value(filled32(v@).reverse()),
{
    let h = to_h256(v);
    let bytes = reversed(h.as_slice());
    Word::from_big_endian(bytes.as_slice())
}

/// The bytes at the front of a 32-byte hash, zeros behind them.
pub fn to_h256(v: Vec<u8>) -> (r: [u8; 32])
    requires
        v@.len() <= 32,
    ensures
        r@ == filled32(v@),
{
    copy_to_bytes32(&v)
}

} // verus!
