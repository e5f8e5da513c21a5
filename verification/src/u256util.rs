//! Words as byte vectors.

use vstd::prelude::*;
use crate::vecutil::reversed;
use crate::word::{be_bytes, Word};

verus! {

/// The 32 bytes of the word, least significant byte first.
pub fn u256_to_le_u8vec(u256: &Word) -> (r: Vec<u8>)
    ensures
        r@ == be_bytes(u256@, 32).reverse(),
{
    let bytes = u256.to_big_endian();
    reversed(bytes.as_slice())
}

} // verus!
